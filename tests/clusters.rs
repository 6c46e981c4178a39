use learners::{
    assign_points, group_by_cluster, initial_sources, nearest_cluster, SeededDraws, INIT_SEED,
};

#[test]
fn nearest_cluster_picks_smallest_key() {
    assert_eq!(nearest_cluster(&vec![9, 4, 7]), 1);
    assert_eq!(nearest_cluster(&vec![5]), 0);
    assert_eq!(nearest_cluster(&vec![8, 6, 2]), 2);
}

#[test]
fn nearest_cluster_ties_go_to_first() {
    assert_eq!(nearest_cluster(&vec![3, 1, 1, 2]), 1);
    assert_eq!(nearest_cluster(&vec![4, 4, 4]), 0);
}

#[test]
fn group_by_cluster_rebuilds_lists_in_order() {
    let groups = group_by_cluster(&vec![1, 0, 1, 2, 1], 4);
    assert_eq!(groups, vec![vec![1], vec![0, 2, 4], vec![3], vec![]]);
}

#[test]
fn group_by_cluster_with_no_points() {
    let groups = group_by_cluster(&vec![], 3);
    assert_eq!(groups, vec![Vec::<usize>::new(), vec![], vec![]]);
}

#[test]
fn assign_points_uses_nearest_cluster() {
    let keys = vec![vec![5, 2, 9], vec![1, 1, 3], vec![7, 8, 0], vec![4, 3, 3]];
    let groups = assign_points(&keys, 3);
    assert_eq!(groups, vec![vec![1], vec![0, 3], vec![2]]);
}

#[test]
fn assign_points_keeps_every_point() {
    // five blobs of one hundred points, three clusters
    let mut keys = Vec::new();
    for blob in 0..5u64 {
        for j in 0..100u64 {
            keys.push(vec![(blob * 37 + j) % 11, (blob * 13 + j * 7) % 5, (blob + j) % 3]);
        }
    }
    let groups = assign_points(&keys, 3);
    assert_eq!(groups.len(), 3);
    assert_eq!(groups.iter().map(|g| g.len()).sum::<usize>(), 500);
}

#[test]
fn initial_sources_are_in_range() {
    assert_eq!(INIT_SEED, 3);
    let sources = initial_sources(500, 5);
    assert_eq!(sources.len(), 5);
    for (a, b) in sources.iter() {
        assert!(*a < 500);
        assert!(*b < 500);
    }
    let one = initial_sources(1, 4);
    assert_eq!(one, vec![(0, 0); 4]);
}

#[test]
fn initial_sources_are_reproducible() {
    let first = initial_sources(500, 3);
    let second = initial_sources(500, 3);
    assert_eq!(first, second);
    assert!(initial_sources(500, 0).is_empty());
}

#[test]
fn initial_sources_draws_vary() {
    let sources = initial_sources(1000, 10);
    let mut distinct = Vec::new();
    for (a, b) in sources.iter() {
        for v in [*a, *b] {
            if !distinct.contains(&v) {
                distinct.push(v);
            }
        }
    }
    assert!(distinct.len() > 1);
    assert!(sources.iter().all(|(a, b)| *a != 1000 && *b != 1000));
}

#[test]
fn seeded_draws_stay_below_bound() {
    let mut draws = SeededDraws::new(INIT_SEED);
    for bound in [1u64, 2, 7, 500, 1000] {
        let v = draws.draw_below(bound);
        assert!(v < bound);
    }
    let mut single = SeededDraws::new(9);
    assert_eq!(single.draw_below(1), 0);
}

#[test]
fn seeded_draws_repeat_with_same_seed_and_bounds() {
    let mut a = SeededDraws::new(3);
    let mut b = SeededDraws::new(3);
    let xs: Vec<u64> = (0..20).map(|_| a.draw_below(500)).collect();
    let ys: Vec<u64> = (0..20).map(|_| b.draw_below(500)).collect();
    assert_eq!(xs, ys);
    assert!(xs.iter().any(|v| *v != xs[0]));
}

#[test]
fn initial_sources_follow_seeded_draws() {
    let mut draws = SeededDraws::new(INIT_SEED);
    let expected: Vec<(usize, usize)> = (0..4)
        .map(|_| {
            let a = draws.draw_below(500) as usize;
            let b = draws.draw_below(500) as usize;
            (a, b)
        })
        .collect();
    assert_eq!(initial_sources(500, 4), expected);
}
