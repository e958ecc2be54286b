use lumen_ray::renderer::bounce::MAX_BOUNCES;
use lumen_ray::renderer::trace::trace;
use std::cell::Cell;

#[test]
fn miss_resolves_to_exactly_the_sky() {
    let casts = Cell::new(0);
    let cast = |_r: u32| -> Option<u32> {
        casts.set(casts.get() + 1);
        None
    };
    let colour = trace(&cast, &|_h: u32| true, &|_r: u32, _h: u32| 10u32, &|r: u32, _h: u32| r, &|_r, _h, a, b| a + b, 7u32, 0, 0);
    assert_eq!(colour, 7);
    assert_eq!(casts.get(), 1);
}

#[test]
fn bounce_limit_resolves_to_sky_without_casting() {
    let cast = |_r: u32| -> Option<u32> { panic!("no ray is cast at the bounce limit") };
    let colour = trace(&cast, &|_h: u32| true, &|_r: u32, _h: u32| 10u32, &|r: u32, _h: u32| r, &|_r, _h, a, b| a + b, 7u32, 0, MAX_BOUNCES);
    assert_eq!(colour, 7);
}

#[test]
fn matte_hit_is_local_shading_only() {
    let bounced = Cell::new(false);
    let bounce = |r: u32, _h: u32| {
        bounced.set(true);
        r
    };
    let colour = trace(&|_r: u32| Some(3u32), &|_h: u32| false, &|_r: u32, h: u32| 10 * h, &bounce, &|_r, _h, a, b| a + b, 7u32, 0, 0);
    assert_eq!(colour, 30);
    assert!(!bounced.get());
}

#[test]
fn mirror_corridor_closed_form() {
    // every ray hits a mirror: colour = local + w * (local + w * (... + w * sky))
    let local = 0.5f32;
    let w = 0.5f32;
    let sky = 0.2f32;
    let depths = Cell::new(0u32);
    let bounce = |r: u32, _h: u32| {
        depths.set(depths.get() + 1);
        r + 1
    };
    let colour = trace(
        &|_r: u32| Some(0u32),
        &|_h: u32| true,
        &|_r: u32, _h: u32| local,
        &bounce,
        &|_r: u32, _h: u32, a: f32, b: f32| a + w * b,
        sky,
        0u32,
        0,
    );
    let mut expected = sky;
    for _ in 0..MAX_BOUNCES {
        expected = local + w * expected;
    }
    assert_eq!(depths.get(), MAX_BOUNCES);
    assert!((colour - expected).abs() < 1e-6);
    assert!((colour - 0.95).abs() < 1e-6);
}
