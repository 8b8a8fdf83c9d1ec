use pathtrace::scene::nearest_hit;

#[test]
fn empty_scene_has_no_hit() {
    assert_eq!(nearest_hit(&vec![]), None);
}

#[test]
fn all_missed_has_no_hit() {
    assert_eq!(nearest_hit(&vec![None, None, None]), None);
}

#[test]
fn nearest_is_minimum_key() {
    let keys = vec![Some(40), None, Some(7), Some(12), None];
    assert_eq!(nearest_hit(&keys), Some(2));
}

#[test]
fn equal_keys_keep_first_primitive() {
    let keys = vec![None, Some(9), Some(3), Some(3)];
    assert_eq!(nearest_hit(&keys), Some(2));
}

#[test]
fn single_hit_is_found() {
    assert_eq!(nearest_hit(&vec![None, None, Some(u64::MAX)]), Some(2));
}

#[test]
fn float_distances_order_by_bits() {
    let ts: Vec<f64> = vec![5.25, 0.5, 1000.0, 0.0015];
    let keys: Vec<Option<u64>> = ts.iter().map(|t| Some(t.to_bits())).collect();
    assert_eq!(nearest_hit(&keys), Some(3));
}
