use lumen_ray::renderer::bounce::{reflection_depth, traces, MAX_BOUNCES};

#[test]
fn rays_stop_at_the_bounce_limit() {
    assert!(traces(0));
    assert!(traces(MAX_BOUNCES - 1));
    assert!(!traces(MAX_BOUNCES));
    assert!(!traces(u32::MAX));
}

#[test]
fn reflective_hit_goes_one_level_deeper() {
    assert_eq!(reflection_depth(0, true), Some(1));
    assert_eq!(reflection_depth(MAX_BOUNCES - 1, true), Some(MAX_BOUNCES));
    assert_eq!(reflection_depth(2, false), None);
}

#[test]
fn mirror_chain_stops_after_max_bounces() {
    // Two facing mirrors: every traced ray hits a reflective surface.
    let mut depth = 0;
    let mut shaded = 0;
    while traces(depth) {
        shaded += 1;
        depth = reflection_depth(depth, true).unwrap();
    }
    assert_eq!(shaded, MAX_BOUNCES);
    assert_eq!(shaded, 4);
}
