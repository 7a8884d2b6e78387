use path_tracer::scene::closest_hit;

#[test]
fn empty_scene_misses() {
    assert_eq!(closest_hit(&Vec::new()), None);
}

#[test]
fn all_objects_missed() {
    assert_eq!(closest_hit(&vec![None, None, None]), None);
}

#[test]
fn nearest_hit_wins() {
    assert_eq!(closest_hit(&vec![Some(30), None, Some(7), Some(12)]), Some(2));
    assert_eq!(closest_hit(&vec![None, Some(5)]), Some(1));
    assert_eq!(closest_hit(&vec![Some(0), Some(u32::MAX)]), Some(0));
}

#[test]
fn equal_hits_keep_the_first_object() {
    assert_eq!(closest_hit(&vec![Some(9), Some(4), Some(4), Some(4)]), Some(1));
}

#[test]
fn keys_of_positive_parameters_order_as_the_parameters() {
    let ts: [f32; 3] = [2.5, 0.75, 1.0];
    let hits: Vec<Option<u32>> = ts.iter().map(|t| Some(t.to_bits())).collect();
    assert_eq!(closest_hit(&hits), Some(1));
}
