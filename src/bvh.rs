use vstd::prelude::*;
use crate::permutation::{all_indices, indices, indices_below, swap_entries};
use crate::random::random_below;

verus! {

/// Number of coordinate axes a split may run along.
pub const AXES: usize = 3;

/// The sort key of `item` along `axis`: its rank among the primitives by the
/// minimum corner of their bounding boxes on that axis.
pub open spec fn key(keys: Seq<Vec<u64>>, axis: usize, item: usize) -> u64 {
    keys[axis as int]@[item as int]
}

/// `keys` holds one rank table per axis, each covering `n` primitives.
pub open spec fn keys_cover(keys: Seq<Vec<u64>>, n: nat) -> bool {
    &&& keys.len() == AXES
    &&& forall|a: int| 0 <= a < AXES ==> (#[trigger] keys[a])@.len() == n
}

/// `items` is in non-decreasing order of its key along `axis`.
pub open spec fn sorted_along(keys: Seq<Vec<u64>>, axis: usize, items: Seq<usize>) -> bool {
    forall|i: int, j: int|
        0 <= i <= j < items.len() ==> key(keys, axis, #[trigger] items[i]) <= key(
            keys,
            axis,
            #[trigger] items[j],
        )
}

/// No item of `lo` has a larger key along `axis` than any item of `hi`.
pub open spec fn ordered_across(
    keys: Seq<Vec<u64>>,
    axis: usize,
    lo: Seq<usize>,
    hi: Seq<usize>,
) -> bool {
    forall|i: int, j: int|
        0 <= i < lo.len() && 0 <= j < hi.len() ==> key(keys, axis, #[trigger] lo[i]) <= key(
            keys,
            axis,
            #[trigger] hi[j],
        )
}

/// The shape of a bounding-volume hierarchy over a list of primitives, which
/// are named by their index in that list.
pub enum BvhLayout {
    /// One primitive.
    Leaf(usize),
    /// An interior node whose primitives were sorted along `axis` before they
    /// were split between its children; `right` is absent for a single primitive.
    Node { axis: usize, left: Box<BvhLayout>, right: Option<Box<BvhLayout>> },
}

impl BvhLayout {
    /// The primitives below this node, left to right.
    pub open spec fn items(self) -> Seq<usize>
        decreases self,
    {
        match self {
            BvhLayout::Leaf(i) => seq![i],
            BvhLayout::Node { axis, left, right } => match right {
                Some(r) => left.items() + r.items(),
                None => left.items(),
            },
        }
    }

    pub open spec fn is_leaf(self) -> bool {
        self is Leaf
    }

    /// The hierarchy is split as a median split does it: one primitive sits
    /// alone on the left, two become two leaves, and more are halved, the
    /// left half taking the smaller keys along the node's axis.
    pub open spec fn well_split(self, keys: Seq<Vec<u64>>) -> bool
        decreases self,
    {
        match self {
            BvhLayout::Leaf(_) => true,
            BvhLayout::Node { axis, left, right } => {
                &&& axis < AXES
                &&& match right {
                    None => left.is_leaf(),
                    Some(r) => {
                        &&& left.is_leaf() == r.is_leaf()
                        &&& !left.is_leaf() ==> {
                            &&& left.items().len() + r.items().len() >= 3
                            &&& left.items().len() == (left.items().len() + r.items().len()) / 2
                        }
                        &&& ordered_across(keys, axis, left.items(), r.items())
                        &&& left.well_split(keys)
                        &&& r.well_split(keys)
                    },
                }
            },
        }
    }

    /// Builds the layout over primitives `0..n`, where `keys[a][i]` orders
    /// primitive `i` along axis `a`. Each node draws its axis at random,
    /// sorts its primitives by their keys along it, and splits them at the
    /// median.
    pub fn build(keys: &Vec<Vec<u64>>) -> (r: BvhLayout)
        requires
            keys@.len() == AXES,
            keys_cover(keys@, keys@[0]@.len()),
            keys@[0]@.len() > 0,
        ensures
            r is Node,
            r.items().to_multiset() == all_indices(keys@[0]@.len()).to_multiset(),
            r.well_split(keys@),
    {
        let items = indices(keys[0].len());
        Self::build_from(items, keys)
    }

    fn build_from(items: Vec<usize>, keys: &Vec<Vec<u64>>) -> (r: BvhLayout)
        requires
            items@.len() > 0,
            keys@.len() == AXES,
            keys_cover(keys@, keys@[0]@.len()),
            indices_below(items@, keys@[0]@.len()),
        ensures
            r is Node,
            r.items().to_multiset() == items@.to_multiset(),
            r.well_split(keys@),
        decreases items@.len(),
    {
        let axis = random_below(AXES);
        let mut items = items;
        sort_along(&mut items, &keys[axis]);
        let n = items.len();
        if n == 1 {
            let r = BvhLayout::Node { axis, left: Box::new(BvhLayout::Leaf(items[0])), right: None };
            reveal_with_fuel(BvhLayout::items, 2);
            reveal_with_fuel(BvhLayout::well_split, 2);
            assert(r.items() =~= items@);
            r
        } else if n == 2 {
            let r = BvhLayout::Node {
                axis,
                left: Box::new(BvhLayout::Leaf(items[0])),
                right: Some(Box::new(BvhLayout::Leaf(items[1]))),
            };
            reveal_with_fuel(BvhLayout::items, 2);
            reveal_with_fuel(BvhLayout::well_split, 2);
            assert(key(keys@, axis, items@[0]) <= key(keys@, axis, items@[1]));
            assert(r.items() =~= items@);
            r
        } else {
            let ghost sorted = items@;
            let mid = n / 2;
            let upper = items.split_off(mid);
            assert(sorted =~= items@ + upper@);
            let left = Self::build_from(items, keys);
            let right = Self::build_from(upper, keys);
            proof {
                broadcast use vstd::seq_lib::group_to_multiset_ensures;

                lemma_split_ordered(keys@, axis, sorted, mid as int, left.items(), right.items());
                vstd::seq_lib::lemma_multiset_commutative(items@, upper@);
                vstd::seq_lib::lemma_multiset_commutative(left.items(), right.items());
                assert(left.items().to_multiset().len() == items@.to_multiset().len());
                assert(right.items().to_multiset().len() == upper@.to_multiset().len());
            }
            BvhLayout::Node { axis, left: Box::new(left), right: Some(Box::new(right)) }
        }
    }
}

/// Splitting a sorted sequence at `mid` leaves every item of the first part
/// (in any order) no larger than every item of the second.
proof fn lemma_split_ordered(
    keys: Seq<Vec<u64>>,
    axis: usize,
    sorted: Seq<usize>,
    mid: int,
    lo: Seq<usize>,
    hi: Seq<usize>,
)
    requires
        0 <= mid <= sorted.len(),
        sorted_along(keys, axis, sorted),
        lo.to_multiset() == sorted.subrange(0, mid).to_multiset(),
        hi.to_multiset() == sorted.subrange(mid, sorted.len() as int).to_multiset(),
    ensures
        ordered_across(keys, axis, lo, hi),
{
    broadcast use vstd::seq_lib::group_to_multiset_ensures;

    assert forall|i: int, j: int| 0 <= i < lo.len() && 0 <= j < hi.len() implies key(
        keys,
        axis,
        #[trigger] lo[i],
    ) <= key(keys, axis, #[trigger] hi[j]) by {
        let a = lo[i];
        let b = hi[j];
        assert(lo.contains(a));
        assert(hi.contains(b));
        let lower = sorted.subrange(0, mid);
        assert(lo.to_multiset().count(a) > 0);
        assert(lower.to_multiset().count(a) > 0);
        assert(lower.contains(a));
        let upper = sorted.subrange(mid, sorted.len() as int);
        assert(hi.to_multiset().count(b) > 0);
        assert(upper.to_multiset().count(b) > 0);
        assert(upper.contains(b));
        let ka = choose|k: int| 0 <= k < lower.len() && lower[k] == a;
        let kb = choose|k: int| 0 <= k < upper.len() && upper[k] == b;
        assert(sorted[ka] == a);
        assert(sorted[mid + kb] == b);
    }
}

/// Sorts `items` by `key[item]`, keeping the order of equal keys.
fn sort_along(items: &mut Vec<usize>, key: &Vec<u64>)
    requires
        indices_below(old(items)@, key@.len()),
    ensures
        final(items)@.to_multiset() == old(items)@.to_multiset(),
        final(items)@.len() == old(items)@.len(),
        indices_below(final(items)@, key@.len()),
        forall|i: int, j: int|
            0 <= i <= j < final(items)@.len() ==> key@[#[trigger] final(items)@[i] as int]
                <= key@[#[trigger] final(items)@[j] as int],
{
    let n = items.len();
    let mut i: usize = 1;
    if n == 0 {
        return;
    }
    while i < n
        invariant
            1 <= i <= n,
            items@.len() == n,
            items@.to_multiset() == old(items)@.to_multiset(),
            indices_below(items@, key@.len()),
            forall|a: int, b: int|
                0 <= a <= b < i ==> key@[#[trigger] items@[a] as int] <= key@[#[trigger] items@[b] as int],
        decreases n - i,
    {
        let mut j: usize = i;
        while j > 0 && key[items[j - 1]] > key[items[j]]
            invariant
                0 <= j <= i < n,
                items@.len() == n,
                items@.to_multiset() == old(items)@.to_multiset(),
                indices_below(items@, key@.len()),
                forall|a: int, b: int|
                    0 <= a <= b <= i && a != j && b != j ==> key@[#[trigger] items@[a] as int]
                        <= key@[#[trigger] items@[b] as int],
                forall|b: int| j < b <= i ==> key@[items@[j as int] as int] <= key@[#[trigger] items@[b] as int],
            decreases j,
        {
            swap_entries(items, j - 1, j);
            j = j - 1;
        }
        i = i + 1;
    }
}

} // verus!
