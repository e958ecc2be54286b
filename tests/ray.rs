use glam::{vec3, vec3a};
use lumen_ray::engine::ray::Ray as EngineRay;
use lumen_ray::renderer::components::{PlaneRenderComponent, SkyBoxComponent, TransformComponent};
use lumen_ray::renderer::ray::Ray;

#[test]
fn ray_new_keeps_origin_and_direction() {
    let r = Ray::new(vec3(0.0, 0.0, -5.0), vec3(0.0, 0.0, 1.0));
    assert_eq!(r.origin, vec3(0.0, 0.0, -5.0));
    assert_eq!(r.direction, vec3(0.0, 0.0, 1.0));
}

#[test]
fn engine_ray_starts_without_hit() {
    let r = EngineRay::new(vec3a(1.0, 2.0, 3.0), vec3a(0.0, 1.0, 0.0));
    assert_eq!(r.position, vec3a(1.0, 2.0, 3.0));
    assert_eq!(r.direction, vec3a(0.0, 1.0, 0.0));
    assert_eq!(r.hit, u32::MAX);
}

#[test]
fn components_hold_their_values() {
    let t = TransformComponent { position: vec3(1.0, 2.0, 3.0) };
    assert_eq!(t.position.y, 2.0);
    let p = PlaneRenderComponent {
        normal: vec3(0.0, 1.0, 0.0),
        tangent: vec3(1.0, 0.0, 0.0),
        bitangent: vec3(0.0, 0.0, -1.0),
    };
    assert_eq!(p.normal, vec3(0.0, 1.0, 0.0));
    assert_eq!(SkyBoxComponent {}, SkyBoxComponent {});
}
