use learners::pair_map;

#[test]
fn update_weights_test() {
    let rate = 2.0;
    let t1 = pair_map(&vec![1.0], &vec![-0.25], |w: &f64, g: &f64| w - g * rate);
    assert_eq!(1.5, t1[0]);
    let t2 = pair_map(&vec![1.0, 3.0], &vec![-0.25, 0.25], |w: &f64, g: &f64| w - g * rate);
    assert_eq!(2.5, t2[1]);
}

#[test]
fn pair_map_keeps_length() {
    let w = vec![3.0, 7.0, -1.0];
    let g = vec![2.0, 5.0, 0.5];
    let r = pair_map(&w, &g, |w: &f64, g: &f64| w - g * 0.1);
    assert_eq!(r.len(), w.len());
    assert_eq!(r, vec![3.0 - 0.2, 7.0 - 0.5, -1.0 - 0.05]);
    let empty: Vec<f64> = pair_map(&vec![], &vec![], |w: &f64, g: &f64| w - g);
    assert!(empty.is_empty());
}

#[test]
fn std_deviation_test() {}
