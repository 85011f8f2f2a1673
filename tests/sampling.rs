use rtracer::perlin::{permute, LatticeHash, LATTICE_SIZE};
use rtracer::permutation::indices;
use rtracer::render::{may_scatter, pixel_coords, MAX_DEPTH};

#[test]
fn generated_tables_are_permutations() {
    for _ in 0..5 {
        let mut p = LatticeHash::generate_perm();
        assert_eq!(p.len(), LATTICE_SIZE);
        p.sort();
        assert_eq!(p, (0..LATTICE_SIZE).collect::<Vec<_>>());
    }
}

#[test]
fn permute_keeps_the_entries() {
    let mut v = vec![4, 4, 9, 1, 0, 7];
    permute(&mut v);
    v.sort();
    assert_eq!(v, vec![0, 1, 4, 4, 7, 9]);
    let mut empty: Vec<usize> = Vec::new();
    permute(&mut empty);
    assert!(empty.is_empty());
}

#[test]
fn lattice_index_is_below_size_and_wraps() {
    let h = LatticeHash::new();
    for i in 0..600usize {
        let r = h.index(i, 3 * i, 7 * i);
        assert!(r < LATTICE_SIZE);
        assert_eq!(r, h.index(i + 256, 3 * i + 512, 7 * i + 256 * 3));
    }
    assert_eq!(h.index(usize::MAX, 0, 0), h.index(255, 0, 0));
}

#[test]
fn indices_counts_up() {
    assert_eq!(indices(0), Vec::<usize>::new());
    assert_eq!(indices(4), vec![0, 1, 2, 3]);
}

#[test]
fn depth_cutoff_is_fifty() {
    assert_eq!(MAX_DEPTH, 50);
    assert!(may_scatter(0));
    assert!(may_scatter(49));
    assert!(!may_scatter(50));
    assert!(!may_scatter(51));
}

#[test]
fn pixel_coords_walk_rows() {
    let c = pixel_coords(3, 2);
    assert_eq!(c, vec![(0, 0), (1, 0), (2, 0), (0, 1), (1, 1), (2, 1)]);
    assert!(pixel_coords(0, 5).is_empty());
    assert!(pixel_coords(5, 0).is_empty());
    assert_eq!(pixel_coords(200, 100).len(), 20000);
}
