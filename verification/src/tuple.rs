//! Tuples: coordinates in a cube given by one member role per dimension role.
use vstd::prelude::*;
use vstd::std_specs::cmp::PartialEqSpecImpl;
use crate::mdd::{MemberRole, MemberRoleView};

verus! {

/// The values of a list of member roles.
pub open spec fn roles_view(v: Seq<MemberRole>) -> Seq<MemberRoleView> {
    v.map_values(|m: MemberRole| m@)
}

/// The first position in `s` of a member role of dimension role `g`, if any.
pub open spec fn find_dim_role(s: Seq<MemberRoleView>, g: u64) -> Option<int>
    decreases s.len(),
{
    if s.len() == 0 {
        None
    } else {
        match find_dim_role(s.drop_last(), g) {
            Some(i) => Some(i),
            None => if s.last().dim_role_gid() == g {
                Some(s.len() - 1)
            } else {
                None
            },
        }
    }
}

/// A position that [`find_dim_role`] gives lies in the list and holds a member
/// role of the dimension role looked for, and none before it does.
pub proof fn lemma_find_dim_role(s: Seq<MemberRoleView>, g: u64)
    ensures
        find_dim_role(s, g) matches Some(i) ==> {
            &&& 0 <= i < s.len()
            &&& s[i].dim_role_gid() == g
            &&& forall|k: int| 0 <= k < i ==> s[k].dim_role_gid() != g
        },
        find_dim_role(s, g) is None ==> forall|k: int| 0 <= k < s.len() ==> s[k].dim_role_gid() != g,
    decreases s.len(),
{
    if s.len() > 0 {
        lemma_find_dim_role(s.drop_last(), g);
        assert forall|k: int| 0 <= k < s.len() - 1 implies s.drop_last()[k] == s[k] by {}
    }
}

/// Puts member role `r` into coordinate `acc`: it replaces the member role of the
/// same dimension role, or is appended when `acc` has none.
pub open spec fn merge_role(acc: Seq<MemberRoleView>, r: MemberRoleView) -> Seq<MemberRoleView> {
    match find_dim_role(acc, r.dim_role_gid()) {
        Some(i) => acc.update(i, r),
        None => acc.push(r),
    }
}

/// The coordinate `left` overridden by `right`: the member roles of `right` are
/// put into `left` in order, each replacing the one of its dimension role.
pub open spec fn merge_seq(left: Seq<MemberRoleView>, right: Seq<MemberRoleView>) -> Seq<
    MemberRoleView,
>
    decreases right.len(),
{
    if right.len() == 0 {
        left
    } else {
        merge_role(merge_seq(left, right.drop_last()), right.last())
    }
}

/// A coordinate: a list of member roles.
#[derive(Debug)]
pub struct TupleVector {
    pub member_roles: Vec<MemberRole>,
}

impl View for TupleVector {
    type V = Seq<MemberRoleView>;

    open spec fn view(&self) -> Seq<MemberRoleView> {
        roles_view(self.member_roles@)
    }
}

/// Copies a list of member roles.
pub fn copy_member_roles(v: &Vec<MemberRole>) -> (r: Vec<MemberRole>)
    ensures
        roles_view(r@) == roles_view(v@),
{
    let mut r: Vec<MemberRole> = Vec::new();
    let mut i: usize = 0;
    while i < v.len()
        invariant
            i <= v.len(),
            r@.len() == i,
            roles_view(r@) == roles_view(v@).take(i as int),
        decreases v.len() - i,
    {
        let ghost before = r@;
        let c = v[i].clone();
        r.push(c);
        assert(r@ == before.push(c));
        assert forall|k: int| 0 <= k <= i implies #[trigger] roles_view(r@)[k] == roles_view(v@)[k] by {
            if k < i {
                assert(roles_view(before)[k] == roles_view(v@).take(i as int)[k]);
            }
        }
        i = i + 1;
        assert(roles_view(r@) =~= roles_view(v@).take(i as int));
    }
    assert(roles_view(v@).take(v.len() as int) =~= roles_view(v@));
    r
}

impl Clone for TupleVector {
    fn clone(&self) -> (res: Self)
        ensures
            res@ == self@,
    {
        TupleVector { member_roles: copy_member_roles(&self.member_roles) }
    }
}

/// Whether two lists of member roles are equal.
pub fn member_roles_equal(a: &Vec<MemberRole>, b: &Vec<MemberRole>) -> (res: bool)
    ensures
        res == (roles_view(a@) == roles_view(b@)),
{
    if a.len() != b.len() {
        assert(roles_view(a@).len() != roles_view(b@).len());
        return false;
    }
    let mut i: usize = 0;
    while i < a.len()
        invariant
            a.len() == b.len(),
            i <= a.len(),
            forall|k: int| 0 <= k < i ==> roles_view(a@)[k] == roles_view(b@)[k],
        decreases a.len() - i,
    {
        if a[i] != b[i] {
            assert(roles_view(a@)[i as int] != roles_view(b@)[i as int]);
            return false;
        }
        i = i + 1;
    }
    assert(roles_view(a@) =~= roles_view(b@));
    true
}

impl PartialEq for TupleVector {
    fn eq(&self, other: &Self) -> (res: bool) {
        member_roles_equal(&self.member_roles, &other.member_roles)
    }
}

impl PartialEqSpecImpl for TupleVector {
    open spec fn obeys_eq_spec() -> bool {
        true
    }

    open spec fn eq_spec(&self, other: &Self) -> bool {
        self@ == other@
    }
}

/// The first position in `roles` of a member role of dimension role `g`, if any.
fn position_of_dim_role(roles: &Vec<MemberRole>, g: u64) -> (pos: Option<usize>)
    ensures
        match pos {
            Some(i) => find_dim_role(roles_view(roles@), g) == Some(i as int),
            None => find_dim_role(roles_view(roles@), g) is None,
        },
{
    let ghost s = roles_view(roles@);
    let mut found: Option<usize> = None;
    let mut i: usize = 0;
    while i < roles.len()
        invariant
            i <= roles.len(),
            s == roles_view(roles@),
            match found {
                Some(k) => find_dim_role(s.take(i as int), g) == Some(k as int),
                None => find_dim_role(s.take(i as int), g) is None,
            },
        decreases roles.len() - i,
    {
        assert(s.take(i + 1).drop_last() =~= s.take(i as int));
        if found.is_none() && roles[i].get_dim_role_gid() == g {
            found = Some(i);
        }
        i = i + 1;
    }
    assert(s.take(roles.len() as int) =~= s);
    found
}

impl TupleVector {
    /// This coordinate overridden by `other`: each member role of `other`, in
    /// order, replaces the member role of the same dimension role here, or is
    /// appended when there is none.
    pub fn merge(&self, other: &TupleVector) -> (res: TupleVector)
        ensures
            res@ == merge_seq(self@, other@),
    {
        let mut roles = copy_member_roles(&self.member_roles);
        let mut j: usize = 0;
        while j < other.member_roles.len()
            invariant
                j <= other.member_roles.len(),
                roles_view(roles@) == merge_seq(self@, other@.take(j as int)),
            decreases other.member_roles.len() - j,
        {
            let r = &other.member_roles[j];
            let ghost before = roles_view(roles@);
            assert(other@.take(j + 1).drop_last() =~= other@.take(j as int));
            assert(other@.take(j + 1).last() == r@);
            let pos = position_of_dim_role(&roles, r.get_dim_role_gid());
            proof {
                lemma_find_dim_role(before, r@.dim_role_gid());
            }
            match pos {
                Some(i) => {
                    roles.set(i, r.clone());
                    assert(roles_view(roles@) =~= before.update(i as int, r@));
                },
                None => {
                    roles.push(r.clone());
                    assert(roles_view(roles@) =~= before.push(r@));
                },
            }
            j = j + 1;
        }
        assert(other@.take(other.member_roles.len() as int) =~= other@);
        TupleVector { member_roles: roles }
    }
}

} // verus!

verus! {

/// Some member role of `s` belongs to dimension role `g`.
pub open spec fn has_dim_role(s: Seq<MemberRoleView>, g: u64) -> bool {
    exists|k: int| 0 <= k < s.len() && #[trigger] s[k].dim_role_gid() == g
}

/// No two member roles of `s` belong to the same dimension role.
pub open spec fn distinct_dim_roles(s: Seq<MemberRoleView>) -> bool {
    forall|i: int, j: int|
        0 <= i < s.len() && 0 <= j < s.len() && i != j ==> #[trigger] s[i].dim_role_gid()
            != #[trigger] s[j].dim_role_gid()
}

/// What putting one member role into a coordinate does: the coordinate keeps its
/// length or grows by one, the new member role is in it, no member role of another
/// dimension role moves or changes, and its dimension roles are the old ones and
/// the new member role's.
proof fn lemma_merge_role(acc: Seq<MemberRoleView>, r: MemberRoleView)
    ensures
        ({
            let res = merge_role(acc, r);
            &&& acc.len() <= res.len() <= acc.len() + 1
            &&& exists|k: int| 0 <= k < res.len() && res[k] == r
            &&& forall|k: int|
                0 <= k < acc.len() && acc[k].dim_role_gid() != r.dim_role_gid() ==> res[k]
                    == acc[k]
            &&& forall|g: u64| has_dim_role(res, g) <==> (has_dim_role(acc, g) || g == r.dim_role_gid())
            &&& distinct_dim_roles(acc) ==> distinct_dim_roles(res)
        }),
{
    let res = merge_role(acc, r);
    lemma_find_dim_role(acc, r.dim_role_gid());
    match find_dim_role(acc, r.dim_role_gid()) {
        Some(i) => {
            assert(res[i] == r);
            assert forall|g: u64| has_dim_role(res, g) <==> (has_dim_role(acc, g) || g
                == r.dim_role_gid()) by {
                if has_dim_role(res, g) {
                    let k = choose|k: int| 0 <= k < res.len() && #[trigger] res[k].dim_role_gid() == g;
                    if k != i {
                        assert(acc[k].dim_role_gid() == g);
                    }
                }
                if has_dim_role(acc, g) {
                    let k = choose|k: int| 0 <= k < acc.len() && #[trigger] acc[k].dim_role_gid() == g;
                    if k == i {
                        assert(res[i].dim_role_gid() == g);
                    } else {
                        assert(res[k].dim_role_gid() == g);
                    }
                }
                if g == r.dim_role_gid() {
                    assert(res[i].dim_role_gid() == g);
                }
            }
        },
        None => {
            assert(res[acc.len() as int] == r);
            assert forall|g: u64| has_dim_role(res, g) <==> (has_dim_role(acc, g) || g
                == r.dim_role_gid()) by {
                if has_dim_role(res, g) {
                    let k = choose|k: int| 0 <= k < res.len() && #[trigger] res[k].dim_role_gid() == g;
                    if k < acc.len() {
                        assert(acc[k].dim_role_gid() == g);
                    }
                }
                if has_dim_role(acc, g) {
                    let k = choose|k: int| 0 <= k < acc.len() && #[trigger] acc[k].dim_role_gid() == g;
                    assert(res[k].dim_role_gid() == g);
                }
                if g == r.dim_role_gid() {
                    assert(res[acc.len() as int].dim_role_gid() == g);
                }
            }
        },
    }
}

/// Overriding a coordinate by the empty tuple leaves it as it is.
pub proof fn lemma_merge_empty(left: Seq<MemberRoleView>)
    ensures
        merge_seq(left, Seq::empty()) == left,
{
}

/// The dimension roles of a merged coordinate are those of both coordinates.
pub proof fn lemma_merge_dim_roles(left: Seq<MemberRoleView>, right: Seq<MemberRoleView>, g: u64)
    ensures
        has_dim_role(merge_seq(left, right), g) <==> (has_dim_role(left, g) || has_dim_role(
            right,
            g,
        )),
    decreases right.len(),
{
    if right.len() > 0 {
        let prev = merge_seq(left, right.drop_last());
        lemma_merge_dim_roles(left, right.drop_last(), g);
        lemma_merge_role(prev, right.last());
        if has_dim_role(right.drop_last(), g) {
            let k = choose|k: int|
                0 <= k < right.drop_last().len() && #[trigger] right.drop_last()[k].dim_role_gid()
                    == g;
            assert(right[k].dim_role_gid() == g);
        }
        if has_dim_role(right, g) {
            let k = choose|k: int| 0 <= k < right.len() && #[trigger] right[k].dim_role_gid() == g;
            if k < right.len() - 1 {
                assert(right.drop_last()[k].dim_role_gid() == g);
            }
        }
    }
}

/// Merging keeps a coordinate free of two member roles of one dimension role.
pub proof fn lemma_merge_distinct(left: Seq<MemberRoleView>, right: Seq<MemberRoleView>)
    requires
        distinct_dim_roles(left),
    ensures
        distinct_dim_roles(merge_seq(left, right)),
    decreases right.len(),
{
    if right.len() > 0 {
        lemma_merge_distinct(left, right.drop_last());
        lemma_merge_role(merge_seq(left, right.drop_last()), right.last());
    }
}

/// A member role of `left` whose dimension role `right` does not name keeps its
/// place in the merged coordinate, which is at least as long as `left`.
pub proof fn lemma_merge_keeps_left(left: Seq<MemberRoleView>, right: Seq<MemberRoleView>, i: int)
    requires
        0 <= i < left.len(),
        !has_dim_role(right, left[i].dim_role_gid()),
    ensures
        merge_seq(left, right).len() >= left.len(),
        merge_seq(left, right)[i] == left[i],
    decreases right.len(),
{
    if right.len() > 0 {
        assert(!has_dim_role(right.drop_last(), left[i].dim_role_gid())) by {
            if has_dim_role(right.drop_last(), left[i].dim_role_gid()) {
                let k = choose|k: int|
                    0 <= k < right.drop_last().len() && #[trigger] right.drop_last()[k].dim_role_gid()
                        == left[i].dim_role_gid();
                assert(right[k].dim_role_gid() == left[i].dim_role_gid());
            }
        }
        lemma_merge_keeps_left(left, right.drop_last(), i);
        lemma_merge_role(merge_seq(left, right.drop_last()), right.last());
        assert(right[right.len() - 1] == right.last());
    }
}

/// When `right` names each dimension role once, every member role of `right` is
/// in the merged coordinate: the overriding tuple wins.
pub proof fn lemma_merge_right_wins(left: Seq<MemberRoleView>, right: Seq<MemberRoleView>, j: int)
    requires
        distinct_dim_roles(right),
        0 <= j < right.len(),
    ensures
        exists|k: int| 0 <= k < merge_seq(left, right).len() && merge_seq(left, right)[k] == right[j],
    decreases right.len(),
{
    let prev = merge_seq(left, right.drop_last());
    lemma_merge_role(prev, right.last());
    if j < right.len() - 1 {
        assert(distinct_dim_roles(right.drop_last())) by {
            assert forall|a: int, b: int|
                0 <= a < right.drop_last().len() && 0 <= b < right.drop_last().len() && a != b
                implies #[trigger] right.drop_last()[a].dim_role_gid()
                != #[trigger] right.drop_last()[b].dim_role_gid() by {
                assert(right[a].dim_role_gid() != right[b].dim_role_gid());
            }
        }
        lemma_merge_right_wins(left, right.drop_last(), j);
        let k = choose|k: int| 0 <= k < prev.len() && prev[k] == right.drop_last()[j];
        assert(right.drop_last()[j] == right[j]);
        assert(right[j].dim_role_gid() != right[right.len() - 1].dim_role_gid());
        assert(merge_seq(left, right)[k] == right[j]);
    } else {
        assert(right[j] == right.last());
        assert(merge_seq(left, right) == merge_role(prev, right.last()));
    }
}

} // verus!

verus! {

/// When `right` names each dimension role once, a member role of `left` whose
/// dimension role `right` names is replaced in place, at the same position, by
/// the member role of `right` of that dimension role.
pub proof fn lemma_merge_replaces_in_place(
    left: Seq<MemberRoleView>,
    right: Seq<MemberRoleView>,
    i: int,
    j: int,
)
    requires
        distinct_dim_roles(left),
        distinct_dim_roles(right),
        0 <= i < left.len(),
        0 <= j < right.len(),
        right[j].dim_role_gid() == left[i].dim_role_gid(),
    ensures
        merge_seq(left, right).len() >= left.len(),
        merge_seq(left, right)[i] == right[j],
    decreases right.len(),
{
    let prev = merge_seq(left, right.drop_last());
    let r = right.last();
    lemma_merge_role(prev, r);
    lemma_merge_distinct(left, right.drop_last());
    assert(distinct_dim_roles(right.drop_last())) by {
        assert forall|a: int, b: int|
            0 <= a < right.drop_last().len() && 0 <= b < right.drop_last().len() && a != b
            implies #[trigger] right.drop_last()[a].dim_role_gid()
            != #[trigger] right.drop_last()[b].dim_role_gid() by {
            assert(right[a].dim_role_gid() != right[b].dim_role_gid());
        }
    }
    if j < right.len() - 1 {
        assert(right.drop_last()[j] == right[j]);
        lemma_merge_replaces_in_place(left, right.drop_last(), i, j);
        assert(right[j].dim_role_gid() != right[right.len() - 1].dim_role_gid());
        assert(prev[i].dim_role_gid() != r.dim_role_gid());
    } else {
        // right.last() names left[i]'s dimension role, which no earlier member of
        // right names: it is still at position i before this last step
        assert(right[j] == r);
        assert(!has_dim_role(right.drop_last(), left[i].dim_role_gid())) by {
            if has_dim_role(right.drop_last(), left[i].dim_role_gid()) {
                let k = choose|k: int|
                    0 <= k < right.drop_last().len() && #[trigger] right.drop_last()[k].dim_role_gid()
                        == left[i].dim_role_gid();
                assert(right[k].dim_role_gid() == right[j].dim_role_gid());
            }
        }
        lemma_merge_keeps_left(left, right.drop_last(), i);
        lemma_find_dim_role(prev, r.dim_role_gid());
        match find_dim_role(prev, r.dim_role_gid()) {
            Some(p) => {
                if p != i {
                    assert(prev[p].dim_role_gid() == prev[i].dim_role_gid());
                }
            },
            None => {
                assert(prev[i].dim_role_gid() == r.dim_role_gid());
            },
        }
    }
}

/// When no dimension role of `right` occurs in `left` and `right` names each
/// dimension role once, the merge is `left` followed by `right`.
pub proof fn lemma_merge_disjoint_appends(left: Seq<MemberRoleView>, right: Seq<MemberRoleView>)
    requires
        distinct_dim_roles(right),
        forall|j: int| 0 <= j < right.len() ==> !has_dim_role(left, #[trigger] right[j].dim_role_gid()),
    ensures
        merge_seq(left, right) == left + right,
    decreases right.len(),
{
    if right.len() > 0 {
        let rd = right.drop_last();
        assert(distinct_dim_roles(rd)) by {
            assert forall|a: int, b: int|
                0 <= a < rd.len() && 0 <= b < rd.len() && a != b implies #[trigger] rd[a].dim_role_gid()
                != #[trigger] rd[b].dim_role_gid() by {
                assert(right[a].dim_role_gid() != right[b].dim_role_gid());
            }
        }
        assert forall|j: int| 0 <= j < rd.len() implies !has_dim_role(left, #[trigger] rd[j].dim_role_gid()) by {
            assert(rd[j] == right[j]);
        }
        lemma_merge_disjoint_appends(left, rd);
        let prev = left + rd;
        let r = right.last();
        lemma_find_dim_role(prev, r.dim_role_gid());
        assert(find_dim_role(prev, r.dim_role_gid()) is None) by {
            match find_dim_role(prev, r.dim_role_gid()) {
                Some(p) => {
                    if p < left.len() {
                        assert(left[p].dim_role_gid() == r.dim_role_gid());
                        assert(!has_dim_role(left, right[right.len() - 1].dim_role_gid()));
                    } else {
                        assert(rd[p - left.len()] == right[p - left.len()]);
                        assert(right[p - left.len()].dim_role_gid() != right[right.len() - 1].dim_role_gid());
                    }
                },
                None => {},
            }
        }
        assert(prev.push(r) =~= left + right);
    }
}

/// When every dimension role of `right` already occurs in `left`, the merge keeps
/// the length of `left`.
pub proof fn lemma_merge_covered_keeps_len(left: Seq<MemberRoleView>, right: Seq<MemberRoleView>)
    requires
        forall|j: int| 0 <= j < right.len() ==> has_dim_role(left, #[trigger] right[j].dim_role_gid()),
    ensures
        merge_seq(left, right).len() == left.len(),
    decreases right.len(),
{
    if right.len() > 0 {
        let rd = right.drop_last();
        assert forall|j: int| 0 <= j < rd.len() implies has_dim_role(left, #[trigger] rd[j].dim_role_gid()) by {
            assert(rd[j] == right[j]);
        }
        lemma_merge_covered_keeps_len(left, rd);
        let prev = merge_seq(left, rd);
        let r = right.last();
        assert(has_dim_role(left, right[right.len() - 1].dim_role_gid()));
        lemma_merge_dim_roles(left, rd, r.dim_role_gid());
        lemma_find_dim_role(prev, r.dim_role_gid());
        if find_dim_role(prev, r.dim_role_gid()) is None {
            let k = choose|k: int| 0 <= k < prev.len() && #[trigger] prev[k].dim_role_gid() == r.dim_role_gid();
            assert(prev[k].dim_role_gid() == r.dim_role_gid());
        }
    }
}

} // verus!
