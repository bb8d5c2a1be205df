use raytracer::intersect::closest_hit;

#[test]
fn no_candidates_no_hit() {
    let candidates: Vec<(usize, u64)> = Vec::new();
    assert_eq!(closest_hit(&candidates), None);
}

#[test]
fn picks_smallest_key() {
    let candidates = vec![(0usize, 10u64), (1, 4), (2, 7)];
    assert_eq!(closest_hit(&candidates), Some(1));
}

#[test]
fn equal_closest_hits_go_to_the_first_sphere() {
    // Two spheres whose nearest roots tie exactly: the one met first in
    // the scan wins, whatever comes after.
    let candidates = vec![(0usize, 5u64), (1, 5), (1, 9)];
    assert_eq!(closest_hit(&candidates), Some(0));
}

#[test]
fn distance_keys_encoded_from_ray_parameters() {
    // A unit sphere at the origin seen from (0,0,-5) along (0,0,1) is hit
    // at ray parameters 4 and 6; encoding the parameters as their bit
    // patterns keeps their order, so the search returns the nearer root.
    let candidates = vec![
        (0usize, 6.0f64.to_bits()),
        (0, 4.0f64.to_bits()),
        (1, 5.5f64.to_bits()),
    ];
    assert_eq!(closest_hit(&candidates), Some(1));
}
