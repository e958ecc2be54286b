use lumen_ray::renderer::shadow::{light_share, LightShare};

// occluders given by their squared distance from the point; the light is 4.0 away (squared)
fn share(occluder: Option<f32>) -> LightShare {
    light_share(occluder, &|d2: f32| d2 > 4.0)
}

#[test]
fn nothing_hit_is_lit() {
    assert_eq!(share(None), LightShare::Lit);
}

#[test]
fn occluder_before_light_shadows() {
    assert_eq!(share(Some(1.0)), LightShare::Shadowed);
    assert_eq!(share(Some(4.0)), LightShare::Shadowed);
}

#[test]
fn hit_beyond_light_is_lit() {
    assert_eq!(share(Some(9.0)), LightShare::Lit);
}
