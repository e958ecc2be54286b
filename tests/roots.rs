use lumen_ray::renderer::roots::forward_root;

fn root(t0: f32, t1: f32) -> Option<f32> {
    forward_root(t0, t1, &|a: f32, b: f32| a > b, &|t: f32| t < 0.0)
}

#[test]
fn nearer_root_in_front() {
    assert_eq!(root(2.0, 4.0), Some(2.0));
    assert_eq!(root(4.0, 2.0), Some(2.0));
    assert_eq!(root(3.0, 3.0), Some(3.0));
}

#[test]
fn origin_inside_takes_farther_root() {
    assert_eq!(root(-1.0, 1.0), Some(1.0));
    assert_eq!(root(1.0, -1.0), Some(1.0));
    assert_eq!(root(0.0, 5.0), Some(0.0));
}

#[test]
fn both_roots_behind_miss() {
    assert_eq!(root(-1.0, -3.0), None);
}
