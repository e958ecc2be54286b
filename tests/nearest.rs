use lumen_ray::renderer::nearest::nearest_hit;
use lumen_ray::scene::ObjectType;

fn scan(spheres: &[Option<f32>], planes: &[Option<f32>]) -> Option<(ObjectType, usize, f32)> {
    nearest_hit(spheres.len(), planes.len(), &|i: usize| spheres[i], &|i: usize| planes[i], &|a: f32, b: f32| a < b)
        .map(|h| (h.kind, h.index, h.distance))
}

#[test]
fn nearest_of_spheres_and_planes() {
    assert_eq!(scan(&[Some(5.0), None], &[Some(3.0)]), Some((ObjectType::Plane, 0, 3.0)));
    assert_eq!(scan(&[Some(5.0), Some(1.5)], &[Some(3.0), Some(2.0)]), Some((ObjectType::Sphere, 1, 1.5)));
    assert_eq!(scan(&[Some(9.0)], &[Some(8.0), Some(7.0), Some(7.5)]), Some((ObjectType::Plane, 1, 7.0)));
}

#[test]
fn all_misses_give_none() {
    assert_eq!(scan(&[None, None], &[None]), None);
    assert_eq!(scan(&[], &[]), None);
}

#[test]
fn ties_keep_the_earlier_candidate() {
    assert_eq!(scan(&[Some(2.0), Some(2.0)], &[Some(2.0)]), Some((ObjectType::Sphere, 0, 2.0)));
    assert_eq!(scan(&[None], &[Some(4.0), Some(4.0)]), Some((ObjectType::Plane, 0, 4.0)));
}
