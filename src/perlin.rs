use vstd::prelude::*;
use crate::permutation::{all_indices, indices, lemma_permutation_bounded, swap_entries};
use crate::random::random_below;

verus! {

/// Number of lattice points along each axis before the noise pattern repeats.
pub const LATTICE_SIZE: usize = 256;

/// `p` holds each of `0..LATTICE_SIZE` exactly once.
pub open spec fn is_lattice_permutation(p: Seq<usize>) -> bool {
    p.to_multiset() == all_indices(LATTICE_SIZE as nat).to_multiset()
}

/// The index of the random value at lattice point `(i, j, k)`: the three
/// permuted coordinates combined by exclusive or.
pub open spec fn lattice_index(
    px: Seq<usize>,
    py: Seq<usize>,
    pz: Seq<usize>,
    i: usize,
    j: usize,
    k: usize,
) -> usize {
    px[i as int % LATTICE_SIZE as int] ^ py[j as int % LATTICE_SIZE as int] ^ pz[k as int
        % LATTICE_SIZE as int]
}

/// Reorders `perm` uniformly at random: from the last position down, each
/// entry is exchanged with one drawn from the positions up to its own.
pub fn permute(perm: &mut Vec<usize>)
    ensures
        final(perm)@.to_multiset() == old(perm)@.to_multiset(),
        final(perm)@.len() == old(perm)@.len(),
{
    let mut i: usize = perm.len();
    while i > 0
        invariant
            i <= perm@.len(),
            perm@.len() == old(perm)@.len(),
            perm@.to_multiset() == old(perm)@.to_multiset(),
        decreases i,
    {
        i = i - 1;
        let target = random_below(i + 1);
        swap_entries(perm, i, target);
    }
}

/// The random permutation tables that hash integer lattice points for
/// Perlin noise, one per axis.
pub struct LatticeHash {
    perm_x: Vec<usize>,
    perm_y: Vec<usize>,
    perm_z: Vec<usize>,
}

impl View for LatticeHash {
    type V = (Seq<usize>, Seq<usize>, Seq<usize>);

    closed spec fn view(&self) -> Self::V {
        (self.perm_x@, self.perm_y@, self.perm_z@)
    }
}

impl LatticeHash {
    /// Each table is a permutation of `0..LATTICE_SIZE`.
    pub open spec fn wf(&self) -> bool {
        &&& is_lattice_permutation(self@.0)
        &&& is_lattice_permutation(self@.1)
        &&& is_lattice_permutation(self@.2)
    }

    /// A fresh random permutation of `0..LATTICE_SIZE`.
    pub fn generate_perm() -> (r: Vec<usize>)
        ensures
            is_lattice_permutation(r@),
    {
        let mut perm = indices(LATTICE_SIZE);
        permute(&mut perm);
        perm
    }

    /// Three independent random tables.
    pub fn new() -> (r: Self)
        ensures
            r.wf(),
    {
        LatticeHash {
            perm_x: Self::generate_perm(),
            perm_y: Self::generate_perm(),
            perm_z: Self::generate_perm(),
        }
    }

    /// The index, below `LATTICE_SIZE`, of the random value at lattice point
    /// `(i, j, k)`; coordinates wrap around every `LATTICE_SIZE` points.
    pub fn index(&self, i: usize, j: usize, k: usize) -> (r: usize)
        requires
            self.wf(),
        ensures
            r == lattice_index(self@.0, self@.1, self@.2, i, j, k),
            r < LATTICE_SIZE,
    {
        proof {
            lemma_permutation_bounded(self@.0, LATTICE_SIZE as nat);
            lemma_permutation_bounded(self@.1, LATTICE_SIZE as nat);
            lemma_permutation_bounded(self@.2, LATTICE_SIZE as nat);
            assert(i & 255 == i % 256) by (bit_vector);
            assert(j & 255 == j % 256) by (bit_vector);
            assert(k & 255 == k % 256) by (bit_vector);
        }
        let a = self.perm_x[i & 255];
        let b = self.perm_y[j & 255];
        let c = self.perm_z[k & 255];
        proof {
            assert(a ^ b ^ c < 256) by (bit_vector)
                requires
                    a < 256 && b < 256 && c < 256,
            ;
        }
        a ^ b ^ c
    }
}

} // verus!
