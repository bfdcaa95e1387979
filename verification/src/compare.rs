//! The comparison operators of MDX filter expressions, and the order of texts.
use vstd::prelude::*;

verus! {

/// How two values are ordered.
#[derive(Debug, Clone, Copy, PartialEq, Eq, Structural)]
pub enum Order {
    Less,
    Equal,
    Greater,
}

/// A comparison operator of MDX: `<`, `<=`, `=`, `<>`, `>` or `>=`.
#[derive(Debug, Clone, Copy, PartialEq, Eq, Structural)]
pub enum CompareOp {
    Lt,
    Le,
    Eq,
    Ne,
    Gt,
    Ge,
}

impl CompareOp {
    /// The operator that the text `op` spells, if any.
    pub open spec fn spec_parse(op: Seq<char>) -> Option<CompareOp> {
        if op == seq!['<'] {
            Some(CompareOp::Lt)
        } else if op == seq!['<', '='] {
            Some(CompareOp::Le)
        } else if op == seq!['='] {
            Some(CompareOp::Eq)
        } else if op == seq!['<', '>'] {
            Some(CompareOp::Ne)
        } else if op == seq!['>'] {
            Some(CompareOp::Gt)
        } else if op == seq!['>', '='] {
            Some(CompareOp::Ge)
        } else {
            None
        }
    }

    /// Whether the operator holds of two values that are ordered by `ord`, or that
    /// are unordered when `ord` is `None`: of unordered values only `<>` holds.
    pub open spec fn spec_holds(self, ord: Option<Order>) -> bool {
        match ord {
            None => self == CompareOp::Ne,
            Some(o) => match self {
                CompareOp::Lt => o == Order::Less,
                CompareOp::Le => o != Order::Greater,
                CompareOp::Eq => o == Order::Equal,
                CompareOp::Ne => o != Order::Equal,
                CompareOp::Gt => o == Order::Greater,
                CompareOp::Ge => o != Order::Less,
            },
        }
    }

    /// The operator that the text `op` spells, or `None` when it spells none.
    pub fn parse(op: &str) -> (res: Option<CompareOp>)
        ensures
            res == Self::spec_parse(op@),
    {
        let n = op.unicode_len();
        if n == 1 {
            let c = op.get_char(0);
            assert(op@ == seq![c]);
            if c == '<' {
                Some(CompareOp::Lt)
            } else if c == '=' {
                Some(CompareOp::Eq)
            } else if c == '>' {
                Some(CompareOp::Gt)
            } else {
                assert(op@ != seq!['<'] && op@ != seq!['='] && op@ != seq!['>']) by {
                    assert(seq!['<'][0] == '<' && seq!['='][0] == '=' && seq!['>'][0] == '>');
                }
                None
            }
        } else if n == 2 {
            let c0 = op.get_char(0);
            let c1 = op.get_char(1);
            assert(op@ == seq![c0, c1]);
            if c0 == '<' && c1 == '=' {
                Some(CompareOp::Le)
            } else if c0 == '<' && c1 == '>' {
                Some(CompareOp::Ne)
            } else if c0 == '>' && c1 == '=' {
                Some(CompareOp::Ge)
            } else {
                assert(op@ != seq!['<', '='] && op@ != seq!['<', '>'] && op@ != seq!['>', '=']) by {
                    assert(seq!['<', '='][0] == '<' && seq!['<', '='][1] == '=');
                    assert(seq!['<', '>'][0] == '<' && seq!['<', '>'][1] == '>');
                    assert(seq!['>', '='][0] == '>' && seq!['>', '='][1] == '=');
                }
                None
            }
        } else {
            assert(seq!['<'].len() == 1 && seq!['<', '='].len() == 2);
            assert(seq!['='].len() == 1 && seq!['<', '>'].len() == 2);
            assert(seq!['>'].len() == 1 && seq!['>', '='].len() == 2);
            None
        }
    }

    /// Whether the operator holds of two values ordered by `ord` (`None` for two
    /// unordered values).
    pub fn holds(self, ord: Option<Order>) -> (res: bool)
        ensures
            res == self.spec_holds(ord),
    {
        match ord {
            None => match self {
                CompareOp::Ne => true,
                _ => false,
            },
            Some(o) => match self {
                CompareOp::Lt => match o {
                    Order::Less => true,
                    _ => false,
                },
                CompareOp::Le => match o {
                    Order::Greater => false,
                    _ => true,
                },
                CompareOp::Eq => match o {
                    Order::Equal => true,
                    _ => false,
                },
                CompareOp::Ne => match o {
                    Order::Equal => false,
                    _ => true,
                },
                CompareOp::Gt => match o {
                    Order::Greater => true,
                    _ => false,
                },
                CompareOp::Ge => match o {
                    Order::Less => false,
                    _ => true,
                },
            },
        }
    }
}

/// The lexicographic order of two texts, character by character; a proper prefix
/// comes first. Since UTF-8 keeps the order of code points, this is the order in
/// which Rust compares `str` values.
pub open spec fn text_order(a: Seq<char>, b: Seq<char>) -> Order
    decreases a.len(),
{
    if a.len() == 0 {
        if b.len() == 0 {
            Order::Equal
        } else {
            Order::Less
        }
    } else if b.len() == 0 {
        Order::Greater
    } else if a[0] < b[0] {
        Order::Less
    } else if a[0] > b[0] {
        Order::Greater
    } else {
        text_order(a.drop_first(), b.drop_first())
    }
}

/// The order of texts `a` and `b`.
pub fn compare_text(a: &str, b: &str) -> (res: Order)
    ensures
        res == text_order(a@, b@),
{
    let na = a.unicode_len();
    let nb = b.unicode_len();
    let mut i: usize = 0;
    assert(a@.skip(0) =~= a@ && b@.skip(0) =~= b@);
    while i < na && i < nb
        invariant
            na == a@.len(),
            nb == b@.len(),
            i <= na,
            i <= nb,
            text_order(a@, b@) == text_order(a@.skip(i as int), b@.skip(i as int)),
        decreases na - i,
    {
        let ca = a.get_char(i);
        let cb = b.get_char(i);
        assert(a@.skip(i as int)[0] == ca);
        assert(b@.skip(i as int)[0] == cb);
        if ca < cb {
            return Order::Less;
        } else if ca > cb {
            return Order::Greater;
        }
        assert(a@.skip(i as int).drop_first() =~= a@.skip(i + 1));
        assert(b@.skip(i as int).drop_first() =~= b@.skip(i + 1));
        i = i + 1;
    }
    if i < na {
        Order::Greater
    } else if i < nb {
        Order::Less
    } else {
        Order::Equal
    }
}

/// Whether the operator that `op` spells holds of two values ordered by `ord`
/// (`None` for unordered values). A text that spells no operator makes the
/// comparison false.
pub open spec fn spec_compare_by(op: Seq<char>, ord: Option<Order>) -> bool {
    match CompareOp::spec_parse(op) {
        Some(o) => o.spec_holds(ord),
        None => false,
    }
}

/// Whether the operator that `op` spells holds of two values ordered by `ord`
/// (`None` for unordered values); false when `op` spells no operator.
pub fn compare_by(op: &str, ord: Option<Order>) -> (res: bool)
    ensures
        res == spec_compare_by(op@, ord),
{
    match CompareOp::parse(op) {
        Some(o) => o.holds(ord),
        None => false,
    }
}

/// Whether texts `a` and `b` stand in the relation that `op` spells. A text that
/// spells no operator makes the comparison false.
pub fn compare_texts(a: &str, op: &str, b: &str) -> (res: bool)
    ensures
        res == spec_compare_by(op@, Some(text_order(a@, b@))),
{
    compare_by(op, Some(compare_text(a, b)))
}

} // verus!

verus! {

/// Texts are equal in the order exactly when they are the same text, and `a`
/// comes before `b` exactly when `b` comes after `a`.
pub proof fn lemma_text_order_antisymmetric(a: Seq<char>, b: Seq<char>)
    ensures
        (text_order(a, b) == Order::Equal) <==> (a == b),
        (text_order(a, b) == Order::Less) <==> (text_order(b, a) == Order::Greater),
    decreases a.len(),
{
    if a.len() > 0 && b.len() > 0 && a[0] == b[0] {
        lemma_text_order_antisymmetric(a.drop_first(), b.drop_first());
        if a.drop_first() == b.drop_first() {
            assert(a =~= seq![a[0]] + a.drop_first());
            assert(b =~= seq![b[0]] + b.drop_first());
        }
        if a == b {
            assert(a.drop_first() == b.drop_first());
        }
    } else if a.len() > 0 && b.len() > 0 {
        assert(a[0] != b[0]);
        assert(a != b);
    } else if a.len() == 0 && b.len() == 0 {
        assert(a =~= b);
    } else {
        assert(a.len() != b.len());
    }
}

/// The order of texts is transitive.
pub proof fn lemma_text_order_transitive(a: Seq<char>, b: Seq<char>, c: Seq<char>)
    requires
        text_order(a, b) == Order::Less,
        text_order(b, c) == Order::Less,
    ensures
        text_order(a, c) == Order::Less,
    decreases a.len(),
{
    if a.len() > 0 && b.len() > 0 && c.len() > 0 && a[0] == b[0] && b[0] == c[0] {
        lemma_text_order_transitive(a.drop_first(), b.drop_first(), c.drop_first());
    }
}

/// How the operators relate on ordered values: `<=` is `<` or `=`, `>=` is `>`
/// or `=`, `<>` is not `=`, and `>` on one order is `<` on the reverse order.
pub proof fn lemma_operators_on_ordered_values(o: Order)
    ensures
        CompareOp::Le.spec_holds(Some(o)) == (CompareOp::Lt.spec_holds(Some(o))
            || CompareOp::Eq.spec_holds(Some(o))),
        CompareOp::Ge.spec_holds(Some(o)) == (CompareOp::Gt.spec_holds(Some(o))
            || CompareOp::Eq.spec_holds(Some(o))),
        CompareOp::Ne.spec_holds(Some(o)) == !CompareOp::Eq.spec_holds(Some(o)),
        CompareOp::Gt.spec_holds(Some(o)) == CompareOp::Lt.spec_holds(Some(reverse(o))),
        CompareOp::Ge.spec_holds(Some(o)) == CompareOp::Le.spec_holds(Some(reverse(o))),
{
}

/// The order seen from the other side.
pub open spec fn reverse(o: Order) -> Order {
    match o {
        Order::Less => Order::Greater,
        Order::Equal => Order::Equal,
        Order::Greater => Order::Less,
    }
}

/// The order of two values seen from the other side; unordered values stay
/// unordered.
pub open spec fn reverse_order(ord: Option<Order>) -> Option<Order> {
    match ord {
        Some(o) => Some(reverse(o)),
        None => None,
    }
}

/// For any two values, ordered or not, comparing them with `<` (or `<=`) is
/// comparing them the other way round with `>` (or `>=`), and `=` and `<>` do not
/// depend on the side; of ordered values `<>` is the negation of `=`.
pub proof fn lemma_operators_swap(ord: Option<Order>)
    ensures
        CompareOp::Lt.spec_holds(ord) == CompareOp::Gt.spec_holds(reverse_order(ord)),
        CompareOp::Le.spec_holds(ord) == CompareOp::Ge.spec_holds(reverse_order(ord)),
        CompareOp::Eq.spec_holds(ord) == CompareOp::Eq.spec_holds(reverse_order(ord)),
        CompareOp::Ne.spec_holds(ord) == CompareOp::Ne.spec_holds(reverse_order(ord)),
        ord is Some ==> CompareOp::Ne.spec_holds(ord) == !CompareOp::Eq.spec_holds(ord),
        ord is Some ==> CompareOp::Le.spec_holds(ord) == (CompareOp::Lt.spec_holds(ord)
            || CompareOp::Eq.spec_holds(ord)),
{
}

/// The order of two texts seen from the other side is the order of the texts
/// swapped.
pub proof fn lemma_text_order_reverse(a: Seq<char>, b: Seq<char>)
    ensures
        reverse_order(Some(text_order(a, b))) == Some(text_order(b, a)),
{
    lemma_text_order_antisymmetric(a, b);
    lemma_text_order_antisymmetric(b, a);
}

/// Comparing texts with `>` is comparing them the other way round with `<`, and
/// likewise `>=` and `<=`; `=` and `<>` do not depend on the side.
pub proof fn lemma_compare_texts_swap(a: Seq<char>, b: Seq<char>)
    ensures
        CompareOp::Gt.spec_holds(Some(text_order(a, b))) == CompareOp::Lt.spec_holds(
            Some(text_order(b, a)),
        ),
        CompareOp::Ge.spec_holds(Some(text_order(a, b))) == CompareOp::Le.spec_holds(
            Some(text_order(b, a)),
        ),
        CompareOp::Eq.spec_holds(Some(text_order(a, b))) == CompareOp::Eq.spec_holds(
            Some(text_order(b, a)),
        ),
        CompareOp::Ne.spec_holds(Some(text_order(a, b))) == CompareOp::Ne.spec_holds(
            Some(text_order(b, a)),
        ),
{
    lemma_text_order_antisymmetric(a, b);
    lemma_text_order_antisymmetric(b, a);
}

} // verus!

verus! {

/// The operator texts: `<`, `<=`, `=`, `<>`, `>` and `>=` spell the six operators
/// in that order, and no other text spells one.
pub proof fn lemma_parse_table(op: Seq<char>)
    ensures
        (CompareOp::spec_parse(op) == Some(CompareOp::Lt)) <==> (op == seq!['<']),
        (CompareOp::spec_parse(op) == Some(CompareOp::Le)) <==> (op == seq!['<', '=']),
        (CompareOp::spec_parse(op) == Some(CompareOp::Eq)) <==> (op == seq!['=']),
        (CompareOp::spec_parse(op) == Some(CompareOp::Ne)) <==> (op == seq!['<', '>']),
        (CompareOp::spec_parse(op) == Some(CompareOp::Gt)) <==> (op == seq!['>']),
        (CompareOp::spec_parse(op) == Some(CompareOp::Ge)) <==> (op == seq!['>', '=']),
{
    assert(seq!['<'] != seq!['<', '='] && seq!['<'] != seq!['<', '>'] && seq!['<'] != seq![
        '>',
        '=',
    ]) by {
        assert(seq!['<'].len() == 1 && seq!['<', '='].len() == 2);
    }
    assert(seq!['<'] != seq!['='] && seq!['<'] != seq!['>'] && seq!['='] != seq!['>']) by {
        assert(seq!['<'][0] == '<' && seq!['='][0] == '=' && seq!['>'][0] == '>');
    }
    assert(seq!['<', '='] != seq!['<', '>'] && seq!['<', '='] != seq!['>', '=']
        && seq!['<', '>'] != seq!['>', '=']) by {
        assert(seq!['<', '='][1] == '=' && seq!['<', '>'][1] == '>');
        assert(seq!['<', '='][0] == '<' && seq!['>', '='][0] == '>');
        assert(seq!['<', '>'][0] == '<');
    }
    assert(seq!['='] != seq!['<', '='] && seq!['='] != seq!['<', '>'] && seq!['='] != seq![
        '>',
        '=',
    ] && seq!['>'] != seq!['<', '='] && seq!['>'] != seq!['<', '>'] && seq!['>'] != seq![
        '>',
        '=',
    ]) by {
        assert(seq!['='].len() == 1 && seq!['>'].len() == 1 && seq!['<', '>'].len() == 2
            && seq!['>', '='].len() == 2);
    }
}

/// What each operator means: `<` holds of values in increasing order only, `>`
/// of values in decreasing order only, `=` of equal values only, `<=` and `>=`
/// of equal values too, and `<>` of all values that are not equal, unordered ones
/// included; no other operator holds of unordered values.
pub proof fn lemma_holds_table(ord: Option<Order>)
    ensures
        CompareOp::Lt.spec_holds(ord) == (ord == Some(Order::Less)),
        CompareOp::Le.spec_holds(ord) == (ord == Some(Order::Less) || ord == Some(Order::Equal)),
        CompareOp::Eq.spec_holds(ord) == (ord == Some(Order::Equal)),
        CompareOp::Ne.spec_holds(ord) == (ord != Some(Order::Equal)),
        CompareOp::Gt.spec_holds(ord) == (ord == Some(Order::Greater)),
        CompareOp::Ge.spec_holds(ord) == (ord == Some(Order::Greater) || ord == Some(
            Order::Equal,
        )),
{
}

/// Comparing by an operator text: `<` is true of values in increasing order only
/// (so never of equal values), `<=` of increasing or equal ones, `=` of equal ones,
/// `<>` of all but equal ones, `>` of decreasing ones only, `>=` of decreasing or
/// equal ones; every other text is false.
pub proof fn lemma_compare_by_table(op: Seq<char>, ord: Option<Order>)
    ensures
        spec_compare_by(op, ord) == ((op == seq!['<'] && ord == Some(Order::Less)) || (op == seq![
            '<',
            '=',
        ] && (ord == Some(Order::Less) || ord == Some(Order::Equal))) || (op == seq!['=']
            && ord == Some(Order::Equal)) || (op == seq!['<', '>'] && ord != Some(Order::Equal))
            || (op == seq!['>'] && ord == Some(Order::Greater)) || (op == seq!['>', '=']
            && (ord == Some(Order::Greater) || ord == Some(Order::Equal)))),
{
    lemma_parse_table(op);
    lemma_holds_table(ord);
}

/// The order of texts is decided by their first difference: `a` comes before `b`
/// exactly when `a` is a proper prefix of `b`, or at the first position where they
/// differ `a` has the smaller character; they are equal exactly when they are the
/// same text.
pub proof fn lemma_text_order_first_difference(a: Seq<char>, b: Seq<char>)
    ensures
        (text_order(a, b) == Order::Less) <==> ((a.len() < b.len() && b.take(a.len() as int) == a)
            || exists|k: int|
            0 <= k < a.len() && k < b.len() && a.take(k) == b.take(k) && #[trigger] a[k] < b[k]),
        (text_order(a, b) == Order::Equal) <==> (a == b),
    decreases a.len(),
{
    lemma_text_order_antisymmetric(a, b);
    if a.len() == 0 {
        if b.len() > 0 {
            assert(b.take(0) =~= a);
        }
    } else if b.len() == 0 {
    } else if a[0] < b[0] {
        assert(a.take(0) =~= b.take(0));
        assert(a[0] < b[0]);
    } else if a[0] > b[0] {
        assert(!(a.len() < b.len() && b.take(a.len() as int) == a)) by {
            if a.len() < b.len() && b.take(a.len() as int) == a {
                assert(b.take(a.len() as int)[0] == b[0]);
            }
        }
        assert forall|k: int|
            0 <= k < a.len() && k < b.len() && a.take(k) == b.take(k) implies !(#[trigger] a[k]
            < b[k]) by {
            if k > 0 {
                assert(a.take(k)[0] == a[0] && b.take(k)[0] == b[0]);
            }
        }
    } else {
        let a1 = a.drop_first();
        let b1 = b.drop_first();
        lemma_text_order_first_difference(a1, b1);
        // prefix case
        if a.len() < b.len() && b.take(a.len() as int) == a {
            assert(b1.take(a1.len() as int) =~= a1) by {
                assert forall|q: int| 0 <= q < a1.len() implies #[trigger] b1.take(a1.len() as int)[q] == a1[q] by {
                    assert(b.take(a.len() as int)[q + 1] == a[q + 1]);
                }
            }
        }
        if a1.len() < b1.len() && b1.take(a1.len() as int) == a1 {
            assert(b.take(a.len() as int) =~= a) by {
                assert forall|q: int| 0 <= q < a.len() implies #[trigger] b.take(a.len() as int)[q] == a[q] by {
                    if q > 0 {
                        assert(b1.take(a1.len() as int)[q - 1] == a1[q - 1]);
                    }
                }
            }
        }
        // first difference case
        if exists|k: int|
            0 <= k < a.len() && k < b.len() && a.take(k) == b.take(k) && #[trigger] a[k] < b[k] {
            let k = choose|k: int|
                0 <= k < a.len() && k < b.len() && a.take(k) == b.take(k) && #[trigger] a[k] < b[k];
            assert(k > 0);
            assert(a1.take(k - 1) =~= b1.take(k - 1)) by {
                assert forall|q: int| 0 <= q < k - 1 implies #[trigger] a1.take(k - 1)[q] == b1.take(k - 1)[q] by {
                    assert(a.take(k)[q + 1] == b.take(k)[q + 1]);
                }
            }
            assert(a1[k - 1] < b1[k - 1]);
        }
        if exists|k: int|
            0 <= k < a1.len() && k < b1.len() && a1.take(k) == b1.take(k) && #[trigger] a1[k] < b1[k] {
            let k = choose|k: int|
                0 <= k < a1.len() && k < b1.len() && a1.take(k) == b1.take(k) && #[trigger] a1[k]
                    < b1[k];
            assert(a.take(k + 1) =~= b.take(k + 1)) by {
                assert forall|q: int| 0 <= q < k + 1 implies #[trigger] a.take(k + 1)[q] == b.take(k + 1)[q] by {
                    if q > 0 {
                        assert(a1.take(k)[q - 1] == b1.take(k)[q - 1]);
                    }
                }
            }
            assert(a[k + 1] < b[k + 1]);
        }
    }
}

} // verus!
