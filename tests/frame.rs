use lumen_ray::renderer::texel::texel_offset;
use lumen_ray::renderer::frame::{
    frame_len, pixel_coords, pixel_index, pixel_screen_point, screen_point, shade_row, ScreenPoint,
};

#[test]
fn frame_len_is_width_times_height() {
    assert_eq!(frame_len(800, 600), Some(480_000));
    assert_eq!(frame_len(0, 600), Some(0));
}

#[test]
fn frame_len_overflow_is_none() {
    assert_eq!(frame_len(usize::MAX, 2), None);
}

#[test]
fn pixel_coords_row_major() {
    assert_eq!(pixel_coords(0, 800), (0, 0));
    assert_eq!(pixel_coords(799, 800), (799, 0));
    assert_eq!(pixel_coords(800, 800), (0, 1));
    assert_eq!(pixel_coords(1603, 800), (3, 2));
}

#[test]
fn pixel_index_round_trip() {
    for i in 0..(7 * 5) {
        let (x, y) = pixel_coords(i, 7);
        assert_eq!(pixel_index(x, y, 7), i);
    }
    assert_eq!(pixel_index(3, 2, 800), 1603);
}

#[test]
fn screen_point_of_centre_is_zero() {
    let p = screen_point(400, 300, 800, 600);
    assert_eq!(p, ScreenPoint { u_num: 0, v_num: 0, den: 1200 });
}

#[test]
fn screen_point_of_corner() {
    // u = (0 - 400) / 600 = -800 / 1200, v = (0 - 300) / 600 = -600 / 1200
    let p = screen_point(0, 0, 800, 600);
    assert_eq!(p, ScreenPoint { u_num: -800, v_num: -600, den: 1200 });
    let u = p.u_num as f32 / p.den as f32;
    assert!((u - (0.0 - 0.5 * 800.0) / 600.0).abs() < 1e-6);
}

#[test]
fn pixel_screen_point_matches_coords() {
    // slot 1603 of an 800 × 600 frame is (3, 2)
    let p = pixel_screen_point(1603, 800, 600);
    assert_eq!(p, ScreenPoint { u_num: 6 - 800, v_num: 4 - 600, den: 1200 });
}

#[test]
fn texel_offset_wraps_both_ways() {
    // a 4 × 2 image: texel (1, 1) starts at 4 * (1 * 4 + 1)
    assert_eq!(texel_offset(1, 1, 4, 2), 20);
    assert_eq!(texel_offset(5, 3, 4, 2), 20);
    assert_eq!(texel_offset(-3, -1, 4, 2), 20);
    assert_eq!(texel_offset(0, 0, 1, 1), 0);
    assert_eq!(texel_offset(-7, 12, 1, 1), 0);
}

#[test]
fn shade_row_gives_each_pixel_its_own_point() {
    let row = shade_row(1, 3, 2, &|p: ScreenPoint| (p.u_num, p.v_num, p.den));
    assert_eq!(row, vec![(-3, 0, 4), (-1, 0, 4), (1, 0, 4)]);
    let empty = shade_row(0, 0, 5, &|p: ScreenPoint| p.den);
    assert!(empty.is_empty());
}
