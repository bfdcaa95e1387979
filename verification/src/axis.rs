//! Sets of tuples, query axes, and the coordinates that a query's axes span.
use vstd::prelude::*;
use vstd::std_specs::cmp::PartialEqSpecImpl;
use crate::mdd::MemberRoleView;
use crate::tuple::{TupleVector, merge_seq};

verus! {

/// The values of a list of tuples.
pub open spec fn tuples_view(v: Seq<TupleVector>) -> Seq<Seq<MemberRoleView>> {
    v.map_values(|t: TupleVector| t@)
}

/// A set of tuples, in order (the set that an MDX set expression gives).
#[derive(Debug)]
pub struct TupleSet {
    pub tuples: Vec<TupleVector>,
}

impl View for TupleSet {
    type V = Seq<Seq<MemberRoleView>>;

    open spec fn view(&self) -> Seq<Seq<MemberRoleView>> {
        tuples_view(self.tuples@)
    }
}

/// Copies a list of tuples.
pub fn copy_tuples(v: &Vec<TupleVector>) -> (r: Vec<TupleVector>)
    ensures
        tuples_view(r@) == tuples_view(v@),
{
    let mut r: Vec<TupleVector> = Vec::new();
    let mut i: usize = 0;
    while i < v.len()
        invariant
            i <= v.len(),
            r@.len() == i,
            tuples_view(r@) == tuples_view(v@).take(i as int),
        decreases v.len() - i,
    {
        let ghost before = r@;
        let c = v[i].clone();
        r.push(c);
        assert(r@ == before.push(c));
        assert forall|k: int| 0 <= k <= i implies #[trigger] tuples_view(r@)[k] == tuples_view(
            v@,
        )[k] by {
            if k < i {
                assert(tuples_view(before)[k] == tuples_view(v@).take(i as int)[k]);
            }
        }
        i = i + 1;
        assert(tuples_view(r@) =~= tuples_view(v@).take(i as int));
    }
    assert(tuples_view(v@).take(v.len() as int) =~= tuples_view(v@));
    r
}

impl Clone for TupleSet {
    fn clone(&self) -> (res: Self)
        ensures
            res@ == self@,
    {
        TupleSet { tuples: copy_tuples(&self.tuples) }
    }
}

/// Whether two lists of tuples are equal.
pub fn tuples_equal(a: &Vec<TupleVector>, b: &Vec<TupleVector>) -> (res: bool)
    ensures
        res == (tuples_view(a@) == tuples_view(b@)),
{
    if a.len() != b.len() {
        assert(tuples_view(a@).len() != tuples_view(b@).len());
        return false;
    }
    let mut i: usize = 0;
    while i < a.len()
        invariant
            a.len() == b.len(),
            i <= a.len(),
            forall|k: int| 0 <= k < i ==> tuples_view(a@)[k] == tuples_view(b@)[k],
        decreases a.len() - i,
    {
        if a[i] != b[i] {
            assert(tuples_view(a@)[i as int] != tuples_view(b@)[i as int]);
            return false;
        }
        i = i + 1;
    }
    assert(tuples_view(a@) =~= tuples_view(b@));
    true
}

impl PartialEq for TupleSet {
    fn eq(&self, other: &Self) -> (res: bool) {
        tuples_equal(&self.tuples, &other.tuples)
    }
}

impl PartialEqSpecImpl for TupleSet {
    open spec fn obeys_eq_spec() -> bool {
        true
    }

    open spec fn eq_spec(&self, other: &Self) -> bool {
        self@ == other@
    }
}

/// One axis of a query: the set laid out along it and the axis' position.
#[derive(Debug)]
pub struct Axis {
    pub set: TupleSet,
    pub pos_num: u32,
}

/// The mathematical value of an [`Axis`].
pub struct AxisView {
    pub set: Seq<Seq<MemberRoleView>>,
    pub pos_num: u32,
}

impl View for Axis {
    type V = AxisView;

    open spec fn view(&self) -> AxisView {
        AxisView { set: self.set@, pos_num: self.pos_num }
    }
}

/// The tuple lists of a list of axes.
pub open spec fn axes_sets(axes: Seq<Axis>) -> Seq<Seq<Seq<MemberRoleView>>> {
    axes.map_values(|a: Axis| a@.set)
}

/// Every tuple of `acc` merged with every tuple of `right`, in row-major order:
/// the tuples made from `acc[0]` first, each in the order of `right`.
pub open spec fn cross(acc: Seq<Seq<MemberRoleView>>, right: Seq<Seq<MemberRoleView>>) -> Seq<
    Seq<MemberRoleView>,
>
    decreases acc.len(),
{
    if acc.len() == 0 {
        Seq::empty()
    } else {
        cross(acc.drop_last(), right) + right.map_values(
            |r: Seq<MemberRoleView>| merge_seq(acc.last(), r),
        )
    }
}

/// The cartesian product of the tuple lists of a non-empty list of axes: the
/// first axis' tuples when there is one axis, and otherwise the product of all
/// but the last crossed with the last.
pub open spec fn product(sets: Seq<Seq<Seq<MemberRoleView>>>) -> Seq<Seq<MemberRoleView>>
    decreases sets.len(),
{
    if sets.len() == 0 {
        Seq::empty()
    } else if sets.len() == 1 {
        sets[0]
    } else {
        cross(product(sets.drop_last()), sets.last())
    }
}

/// The coordinates that a query spans: for one axis, its tuples; for more, every
/// combination of one tuple per axis, each put into the query's slice tuple.
pub open spec fn coordinates(sets: Seq<Seq<Seq<MemberRoleView>>>, slice: Seq<MemberRoleView>) -> Seq<
    Seq<MemberRoleView>,
> {
    if sets.len() == 1 {
        sets[0]
    } else {
        product(sets).map_values(|t: Seq<MemberRoleView>| merge_seq(slice, t))
    }
}

/// `acc` crossed with `right`, where `acc` is a list of tuples.
fn cross_tuples(acc: &Vec<TupleVector>, right: &Vec<TupleVector>) -> (res: Vec<TupleVector>)
    ensures
        tuples_view(res@) == cross(tuples_view(acc@), tuples_view(right@)),
{
    let ghost a = tuples_view(acc@);
    let ghost b = tuples_view(right@);
    let mut res: Vec<TupleVector> = Vec::new();
    let mut i: usize = 0;
    while i < acc.len()
        invariant
            i <= acc.len(),
            a == tuples_view(acc@),
            b == tuples_view(right@),
            tuples_view(res@) == cross(a.take(i as int), b),
        decreases acc.len() - i,
    {
        let ghost start = tuples_view(res@);
        let ghost row = |r: Seq<MemberRoleView>| merge_seq(a[i as int], r);
        let mut j: usize = 0;
        while j < right.len()
            invariant
                i < acc.len(),
                j <= right.len(),
                a == tuples_view(acc@),
                b == tuples_view(right@),
                row == (|r: Seq<MemberRoleView>| merge_seq(a[i as int], r)),
                tuples_view(res@) == start + b.take(j as int).map_values(row),
            decreases right.len() - j,
        {
            let ghost before = res@;
            let t = acc[i].merge(&right[j]);
            res.push(t);
            assert(res@ == before.push(t));
            assert(tuples_view(res@) =~= tuples_view(before).push(t@));
            assert(b.take(j + 1).map_values(row) =~= b.take(j as int).map_values(row).push(row(b[j as int])));
            j = j + 1;
        }
        assert(b.take(right.len() as int) =~= b);
        assert(a.take(i + 1).drop_last() =~= a.take(i as int));
        assert(a.take(i + 1).last() == a[i as int]);
        i = i + 1;
    }
    assert(a.take(acc.len() as int) =~= a);
    res
}

impl Axis {
    /// The coordinates that the query's axes span, in row-major order (the last
    /// axis varies fastest). With one axis these are its tuples as they are; with
    /// more, each combination is put into `query_slice_tuple`, whose member roles
    /// the combination's override. The axes must not be empty.
    pub fn axis_vec_cartesian_product(axes: &Vec<Axis>, query_slice_tuple: &TupleVector) -> (res:
        Vec<TupleVector>)
        requires
            axes.len() > 0,
        ensures
            tuples_view(res@) == coordinates(axes_sets(axes@), query_slice_tuple@),
            res@.len() == count_combinations(axes_sets(axes@)),
            axes.len() == 1 ==> tuples_view(res@) == axes@[0]@.set,
            axes.len() == 2 ==> forall|i: int, j: int|
                #![trigger axes@[0]@.set[i], axes@[1]@.set[j]]
                0 <= i < axes@[0]@.set.len() && 0 <= j < axes@[1]@.set.len() ==> tuples_view(
                    res@,
                )[i * axes@[1]@.set.len() + j] == merge_seq(
                    query_slice_tuple@,
                    merge_seq(axes@[0]@.set[i], axes@[1]@.set[j]),
                ),
    {
        let ghost sets = axes_sets(axes@);
        proof {
            lemma_coordinates_len(sets, query_slice_tuple@);
            if axes.len() == 1 {
                lemma_product_single(sets, query_slice_tuple@);
                assert(sets[0] == axes@[0]@.set);
            }
            if axes.len() == 2 {
                assert(sets =~= seq![axes@[0]@.set, axes@[1]@.set]);
                assert forall|i: int, j: int|
                    #![trigger axes@[0]@.set[i], axes@[1]@.set[j]]
                    0 <= i < axes@[0]@.set.len() && 0 <= j < axes@[1]@.set.len() implies coordinates(
                        sets,
                        query_slice_tuple@,
                    )[i * axes@[1]@.set.len() + j] == merge_seq(
                        query_slice_tuple@,
                        merge_seq(axes@[0]@.set[i], axes@[1]@.set[j]),
                    ) by {
                    lemma_coordinates_two_axes(axes@[0]@.set, axes@[1]@.set, query_slice_tuple@, i, j);
                }
            }
        }
        if axes.len() == 1 {
            return copy_tuples(&axes[0].set.tuples);
        }
        let mut finished = copy_tuples(&axes[0].set.tuples);
        assert(sets.take(1).len() == 1);
        assert(product(sets.take(1)) == sets[0]);
        let mut k: usize = 1;
        while k < axes.len()
            invariant
                1 <= k <= axes.len(),
                sets == axes_sets(axes@),
                tuples_view(finished@) == product(sets.take(k as int)),
            decreases axes.len() - k,
        {
            finished = cross_tuples(&finished, &axes[k].set.tuples);
            assert(sets.take(k + 1).drop_last() =~= sets.take(k as int));
            assert(sets.take(k + 1).last() == sets[k as int]);
            k = k + 1;
        }
        assert(sets.take(axes.len() as int) =~= sets);
        let ghost prod = tuples_view(finished@);
        let ghost put = |t: Seq<MemberRoleView>| merge_seq(query_slice_tuple@, t);
        let mut res: Vec<TupleVector> = Vec::new();
        let mut i: usize = 0;
        while i < finished.len()
            invariant
                i <= finished.len(),
                prod == tuples_view(finished@),
                put == (|t: Seq<MemberRoleView>| merge_seq(query_slice_tuple@, t)),
                tuples_view(res@) == prod.take(i as int).map_values(put),
            decreases finished.len() - i,
        {
            let ghost before = res@;
            let t = query_slice_tuple.merge(&finished[i]);
            res.push(t);
            assert(res@ == before.push(t));
            assert(tuples_view(res@) =~= tuples_view(before).push(t@));
            assert(prod.take(i + 1).map_values(put) =~= prod.take(i as int).map_values(put).push(put(prod[i as int])));
            i = i + 1;
        }
        assert(prod.take(finished.len() as int) =~= prod);
        res
    }
}

} // verus!

verus! {

/// The number of combinations of a list of tuple lists: the product of their
/// lengths.
pub open spec fn count_combinations(sets: Seq<Seq<Seq<MemberRoleView>>>) -> nat
    decreases sets.len(),
{
    if sets.len() == 0 {
        1
    } else {
        count_combinations(sets.drop_last()) * sets.last().len()
    }
}

/// Crossing `acc` with `right` gives `acc.len() * right.len()` tuples.
pub proof fn lemma_cross_len(acc: Seq<Seq<MemberRoleView>>, right: Seq<Seq<MemberRoleView>>)
    ensures
        cross(acc, right).len() == acc.len() * right.len(),
    decreases acc.len(),
{
    if acc.len() > 0 {
        lemma_cross_len(acc.drop_last(), right);
        assert((acc.len() - 1) * right.len() + right.len() == acc.len() * right.len())
            by (nonlinear_arith);
    }
}

/// In the cross of `acc` and `right`, the tuple at row `i`, column `j` (position
/// `i * right.len() + j`) is `acc[i]` overridden by `right[j]`.
pub proof fn lemma_cross_index(
    acc: Seq<Seq<MemberRoleView>>,
    right: Seq<Seq<MemberRoleView>>,
    i: int,
    j: int,
)
    requires
        0 <= i < acc.len(),
        0 <= j < right.len(),
    ensures
        0 <= i * right.len() + j < cross(acc, right).len(),
        cross(acc, right)[i * right.len() + j] == merge_seq(acc[i], right[j]),
    decreases acc.len(),
{
    let n = right.len() as int;
    let prev = cross(acc.drop_last(), right);
    lemma_cross_len(acc, right);
    lemma_cross_len(acc.drop_last(), right);
    assert(0 <= i * n + j < acc.len() * n) by (nonlinear_arith)
        requires
            0 <= i < acc.len(),
            0 <= j < n,
    ;
    if i < acc.len() - 1 {
        assert(i * n + j < (acc.len() - 1) * n) by (nonlinear_arith)
            requires
                0 <= i < acc.len() - 1,
                0 <= j < n,
        ;
        lemma_cross_index(acc.drop_last(), right, i, j);
        assert(acc.drop_last()[i] == acc[i]);
    } else {
        assert(i * n == (acc.len() - 1) * n);
        assert(prev.len() == i * n);
    }
}

/// The product of a non-empty list of tuple lists holds one tuple for every
/// combination of one tuple from each list.
pub proof fn lemma_product_len(sets: Seq<Seq<Seq<MemberRoleView>>>)
    requires
        sets.len() > 0,
    ensures
        product(sets).len() == count_combinations(sets),
    decreases sets.len(),
{
    if sets.len() == 1 {
        assert(sets.drop_last().len() == 0);
        assert(count_combinations(sets.drop_last()) == 1);
        assert(sets.last() == sets[0]);
        assert(count_combinations(sets) == count_combinations(sets.drop_last()) * sets.last().len());
    } else {
        lemma_product_len(sets.drop_last());
        lemma_cross_len(product(sets.drop_last()), sets.last());
    }
}

/// A query with axes spans as many coordinates as there are combinations of one
/// tuple per axis.
pub proof fn lemma_coordinates_len(sets: Seq<Seq<Seq<MemberRoleView>>>, slice: Seq<MemberRoleView>)
    requires
        sets.len() > 0,
    ensures
        coordinates(sets, slice).len() == count_combinations(sets),
{
    lemma_product_len(sets);
}

/// With two or more axes, the coordinate at row `i`, column `j` is the slice tuple
/// overridden by the combination of the `i`-th tuple of the product of all axes but
/// the last with the `j`-th tuple of the last axis.
pub proof fn lemma_coordinates_index(
    sets: Seq<Seq<Seq<MemberRoleView>>>,
    slice: Seq<MemberRoleView>,
    i: int,
    j: int,
)
    requires
        sets.len() >= 2,
        0 <= i < product(sets.drop_last()).len(),
        0 <= j < sets.last().len(),
    ensures
        0 <= i * sets.last().len() + j < coordinates(sets, slice).len(),
        coordinates(sets, slice)[i * sets.last().len() + j] == merge_seq(
            slice,
            merge_seq(product(sets.drop_last())[i], sets.last()[j]),
        ),
{
    lemma_cross_index(product(sets.drop_last()), sets.last(), i, j);
}

/// The product of a single tuple list is that list, in its own order, and so
/// are the coordinates of a query with one axis.
pub proof fn lemma_product_single(sets: Seq<Seq<Seq<MemberRoleView>>>, slice: Seq<MemberRoleView>)
    requires
        sets.len() == 1,
    ensures
        product(sets) == sets[0],
        coordinates(sets, slice) == sets[0],
{
}

/// Adding an axis crosses the product so far with the new axis: the tuple at row
/// `i`, column `j` is the `i`-th combination so far overridden by the `j`-th tuple
/// of the new axis.
pub proof fn lemma_product_push(
    sets: Seq<Seq<Seq<MemberRoleView>>>,
    t: Seq<Seq<MemberRoleView>>,
    i: int,
    j: int,
)
    requires
        sets.len() >= 1,
        0 <= i < product(sets).len(),
        0 <= j < t.len(),
    ensures
        product(sets.push(t)).len() == product(sets).len() * t.len(),
        0 <= i * t.len() + j < product(sets.push(t)).len(),
        product(sets.push(t))[i * t.len() + j] == merge_seq(product(sets)[i], t[j]),
{
    assert(sets.push(t).drop_last() =~= sets);
    assert(sets.push(t).last() == t);
    lemma_cross_len(product(sets), t);
    lemma_cross_index(product(sets), t, i, j);
}

/// With two axes `a` (rows) and `b` (columns), a query spans `|a| * |b|`
/// coordinates, and the one at position `i * |b| + j` is the slice tuple
/// overridden by `a[i]` overridden by `b[j]`: the first axis in its own order,
/// each of its tuples with every tuple of the second axis in that axis' order.
pub proof fn lemma_coordinates_two_axes(
    a: Seq<Seq<MemberRoleView>>,
    b: Seq<Seq<MemberRoleView>>,
    slice: Seq<MemberRoleView>,
    i: int,
    j: int,
)
    requires
        0 <= i < a.len(),
        0 <= j < b.len(),
    ensures
        coordinates(seq![a, b], slice).len() == a.len() * b.len(),
        0 <= i * b.len() + j < a.len() * b.len(),
        coordinates(seq![a, b], slice)[i * b.len() + j] == merge_seq(slice, merge_seq(a[i], b[j])),
{
    let sets = seq![a, b];
    assert(sets.drop_last() =~= seq![a]);
    assert(sets.last() == b);
    lemma_product_single(seq![a], slice);
    lemma_cross_len(a, b);
    lemma_cross_index(a, b, i, j);
}

} // verus!
