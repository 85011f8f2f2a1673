use vstd::prelude::*;

verus! {

/// The indices `0..n`, each once.
pub open spec fn all_indices(n: nat) -> Seq<usize> {
    Seq::new(n, |i: int| i as usize)
}

/// Every entry of `items` is below `n`.
pub open spec fn indices_below(items: Seq<usize>, n: nat) -> bool {
    forall|k: int| 0 <= k < items.len() ==> (#[trigger] items[k]) < n
}

/// The vector `[0, 1, ..., n - 1]`.
pub fn indices(n: usize) -> (r: Vec<usize>)
    ensures
        r@ == all_indices(n as nat),
{
    let mut items: Vec<usize> = Vec::new();
    let mut i: usize = 0;
    while i < n
        invariant
            0 <= i <= n,
            items@ == all_indices(i as nat),
        decreases n - i,
    {
        items.push(i);
        i = i + 1;
        assert(items@ =~= all_indices(i as nat));
    }
    items
}

/// Exchanging two entries keeps the multiset of a sequence.
proof fn lemma_swap_multiset(s: Seq<usize>, i: int, j: int)
    requires
        0 <= i < s.len(),
        0 <= j < s.len(),
    ensures
        s.update(i, s[j]).update(j, s[i]).to_multiset() == s.to_multiset(),
{
    broadcast use vstd::seq_lib::group_to_multiset_ensures;
    broadcast use vstd::multiset::group_multiset_axioms;

    let t = s.update(i, s[j]);
    assert(t[j] == s[j]);
    assert(t.to_multiset() =~= s.to_multiset().insert(s[j]).remove(s[i]));
    assert(t.update(j, s[i]).to_multiset() =~= t.to_multiset().insert(s[i]).remove(s[j]));
    assert(t.update(j, s[i]).to_multiset() =~= s.to_multiset());
}

/// Exchanges entries `i` and `j` of `v`.
pub fn swap_entries(v: &mut Vec<usize>, i: usize, j: usize)
    requires
        i < old(v)@.len(),
        j < old(v)@.len(),
    ensures
        final(v)@ == old(v)@.update(i as int, old(v)@[j as int]).update(j as int, old(v)@[i as int]),
        final(v)@.to_multiset() == old(v)@.to_multiset(),
{
    let x = v[i];
    let y = v[j];
    v.set(i, y);
    v.set(j, x);
    proof {
        lemma_swap_multiset(old(v)@, i as int, j as int);
    }
}

/// A sequence with the multiset of `0..n` holds only entries below `n`.
pub proof fn lemma_permutation_bounded(p: Seq<usize>, n: nat)
    requires
        p.to_multiset() == all_indices(n).to_multiset(),
    ensures
        p.len() == n,
        indices_below(p, n),
{
    broadcast use vstd::seq_lib::group_to_multiset_ensures;

    assert(p.to_multiset().len() == p.len());
    assert(all_indices(n).to_multiset().len() == all_indices(n).len());
    assert forall|k: int| 0 <= k < p.len() implies (#[trigger] p[k]) < n by {
        assert(p.contains(p[k]));
        assert(p.to_multiset().count(p[k]) > 0);
        assert(all_indices(n).contains(p[k]));
    }
}

} // verus!
