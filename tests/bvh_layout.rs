use rtracer::bvh::BvhLayout;

fn leaves(node: &BvhLayout, out: &mut Vec<usize>) {
    match node {
        BvhLayout::Leaf(i) => out.push(*i),
        BvhLayout::Node { left, right, .. } => {
            leaves(left, out);
            if let Some(r) = right {
                leaves(r, out);
            }
        }
    }
}

fn check_split(node: &BvhLayout, keys: &Vec<Vec<u64>>) -> usize {
    match node {
        BvhLayout::Leaf(_) => 1,
        BvhLayout::Node { axis, left, right } => {
            assert!(*axis < 3);
            let mut lo = Vec::new();
            leaves(left, &mut lo);
            match right {
                None => {
                    assert!(matches!(**left, BvhLayout::Leaf(_)));
                    1
                }
                Some(r) => {
                    let mut hi = Vec::new();
                    leaves(r, &mut hi);
                    let n = lo.len() + hi.len();
                    if n <= 2 {
                        assert!(matches!(**left, BvhLayout::Leaf(_)));
                        assert!(matches!(**r, BvhLayout::Leaf(_)));
                    } else {
                        assert_eq!(lo.len(), n / 2);
                    }
                    for a in &lo {
                        for b in &hi {
                            assert!(keys[*axis][*a] <= keys[*axis][*b]);
                        }
                    }
                    check_split(left, keys) + check_split(r, keys)
                }
            }
        }
    }
}

fn keys_for(n: usize) -> Vec<Vec<u64>> {
    let x: Vec<u64> = (0..n as u64).map(|i| (i * 7) % 5).collect();
    let y: Vec<u64> = (0..n as u64).rev().collect();
    let z: Vec<u64> = (0..n as u64).map(|i| i / 2).collect();
    vec![x, y, z]
}

#[test]
fn single_primitive_is_a_lone_left_leaf() {
    let keys = vec![vec![0], vec![0], vec![0]];
    let layout = BvhLayout::build(&keys);
    match layout {
        BvhLayout::Node { left, right, .. } => {
            assert!(matches!(*left, BvhLayout::Leaf(0)));
            assert!(right.is_none());
        }
        BvhLayout::Leaf(_) => panic!("the root must be a node"),
    }
}

#[test]
fn two_primitives_become_two_leaves_in_key_order() {
    let keys = vec![vec![5, 1], vec![5, 1], vec![5, 1]];
    let layout = BvhLayout::build(&keys);
    match layout {
        BvhLayout::Node { left, right, .. } => {
            assert!(matches!(*left, BvhLayout::Leaf(1)));
            assert!(matches!(right.as_deref(), Some(BvhLayout::Leaf(0))));
        }
        BvhLayout::Leaf(_) => panic!("the root must be a node"),
    }
}

#[test]
fn every_primitive_appears_once() {
    for n in 1..40 {
        let keys = keys_for(n);
        let layout = BvhLayout::build(&keys);
        let mut seen = Vec::new();
        leaves(&layout, &mut seen);
        seen.sort();
        assert_eq!(seen, (0..n).collect::<Vec<_>>());
    }
}

#[test]
fn nodes_split_at_the_median_by_key() {
    for n in 1..40 {
        let keys = keys_for(n);
        let layout = BvhLayout::build(&keys);
        assert_eq!(check_split(&layout, &keys), n);
    }
}

#[test]
fn equal_keys_keep_list_order_within_a_pair() {
    let keys = vec![vec![3, 3], vec![3, 3], vec![3, 3]];
    let layout = BvhLayout::build(&keys);
    let mut seen = Vec::new();
    leaves(&layout, &mut seen);
    assert_eq!(seen, vec![0, 1]);
}
