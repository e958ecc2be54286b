//! Layout of the frame buffer: one slot per pixel, row-major, `i = x + y * width`,
//! and the screen-space position of each pixel.
use vstd::prelude::*;
use vstd::arithmetic::div_mod::{lemma_fundamental_div_mod, lemma_fundamental_div_mod_converse};
use vstd::arithmetic::mul::{lemma_mul_inequality, lemma_mul_is_commutative};

verus! {

/// The pixel column and row of slot `i` in a frame `width` pixels wide.
pub open spec fn coords_of(i: int, width: int) -> (int, int) {
    (i % width, i / width)
}

/// The slot of the pixel at column `x`, row `y` in a frame `width` pixels wide.
pub open spec fn index_of(x: int, y: int, width: int) -> int {
    x + y * width
}

/// The number of slots of a `width × height` frame, or `None` where it does not fit in `usize`.
pub fn frame_len(width: usize, height: usize) -> (r: Option<usize>)
    ensures
        r == (if width * height <= usize::MAX { Some((width * height) as usize) } else { None }),
{
    width.checked_mul(height)
}

/// The column and row of slot `i` in a frame `width` pixels wide.
pub fn pixel_coords(i: usize, width: usize) -> (r: (usize, usize))
    requires
        width > 0,
    ensures
        (r.0 as int, r.1 as int) == coords_of(i as int, width as int),
        r.0 < width,
        index_of(r.0 as int, r.1 as int, width as int) == i,
{
    proof {
        lemma_fundamental_div_mod(i as int, width as int);
        lemma_mul_is_commutative(width as int, i as int / width as int);
    }
    (i % width, i / width)
}

/// The slot of the pixel at column `x`, row `y` of a frame `width` pixels wide.
pub fn pixel_index(x: usize, y: usize, width: usize) -> (r: usize)
    requires
        x < width,
        index_of(x as int, y as int, width as int) <= usize::MAX,
    ensures
        r == index_of(x as int, y as int, width as int),
        coords_of(r as int, width as int) == (x as int, y as int),
{
    proof {
        lemma_pixel_round_trip(x as int, y as int, width as int);
    }
    x + y * width
}

/// Every pixel of a row `width` wide is found again at its own column and row from its slot.
pub proof fn lemma_pixel_round_trip(x: int, y: int, width: int)
    requires
        0 <= x < width,
        0 <= y,
    ensures
        coords_of(index_of(x, y, width), width) == (x, y),
{
    lemma_fundamental_div_mod_converse(x + y * width, width, y, x);
}

/// The screen-space position of a pixel as exact fractions over a common denominator:
/// `u = u_num / den`, `v = v_num / den`.
#[derive(Clone, Copy, PartialEq, Eq, Structural, Debug)]
pub struct ScreenPoint {
    pub u_num: i64,
    pub v_num: i64,
    pub den: i64,
}

/// The screen-space position of pixel `(x, y)` of a `width × height` frame.
pub open spec fn screen_point_of(x: int, y: int, width: int, height: int) -> ScreenPoint {
    ScreenPoint {
        u_num: (2 * x - width) as i64,
        v_num: (2 * y - height) as i64,
        den: (2 * height) as i64,
    }
}

/// The screen-space position of pixel `(x, y)` of a `width × height` frame, measured from the
/// frame's centre in units of its height: `u = (x - width / 2) / height` and
/// `v = (y - height / 2) / height`, both written over the denominator `2 * height`.
pub fn screen_point(x: usize, y: usize, width: usize, height: usize) -> (r: ScreenPoint)
    requires
        x <= i64::MAX / 2,
        y <= i64::MAX / 2,
        width <= i64::MAX / 2,
        height <= i64::MAX / 2,
    ensures
        r.u_num == 2 * x - width,
        r.v_num == 2 * y - height,
        r.den == 2 * height,
        r == screen_point_of(x as int, y as int, width as int, height as int),
{
    ScreenPoint {
        u_num: 2 * (x as i64) - width as i64,
        v_num: 2 * (y as i64) - height as i64,
        den: 2 * (height as i64),
    }
}

/// The screen-space position of the pixel in slot `i` of a `width × height` frame.
pub fn pixel_screen_point(i: usize, width: usize, height: usize) -> (r: ScreenPoint)
    requires
        width > 0,
        i < width * height,
        width <= i64::MAX / 2,
        height <= i64::MAX / 2,
    ensures
        r.u_num == 2 * coords_of(i as int, width as int).0 - width,
        r.v_num == 2 * coords_of(i as int, width as int).1 - height,
        r.den == 2 * height,
{
    let (x, y) = pixel_coords(i, width);
    proof {
        if y >= height {
            lemma_mul_inequality(height as int, y as int, width as int);
            assert(height * width == width * height) by (nonlinear_arith);
            assert(y * width == width * y) by (nonlinear_arith);
        }
    }
    screen_point(x, y, width, height)
}

/// The colours of row `y` of a `width × height` frame: the pixel in column `x` gets what
/// `shade` gives for that pixel's own screen-space position, and for nothing else.
pub fn shade_row<T, F: Fn(ScreenPoint) -> T>(y: usize, width: usize, height: usize, shade: &F) -> (r:
    Vec<T>)
    requires
        y <= i64::MAX / 2,
        width <= i64::MAX / 2,
        height <= i64::MAX / 2,
        forall|p: ScreenPoint| shade.requires((p,)),
    ensures
        r@.len() == width,
        forall|x: int|
            0 <= x < width ==> shade.ensures(
                (screen_point_of(x, y as int, width as int, height as int),),
                #[trigger] r@[x],
            ),
{
    let mut row: Vec<T> = Vec::with_capacity(width);
    let mut x: usize = 0;
    while x < width
        invariant
            x <= width <= i64::MAX / 2,
            y <= i64::MAX / 2,
            height <= i64::MAX / 2,
            forall|p: ScreenPoint| shade.requires((p,)),
            row@.len() == x,
            forall|k: int|
                0 <= k < x ==> shade.ensures(
                    (screen_point_of(k, y as int, width as int, height as int),),
                    #[trigger] row@[k],
                ),
        decreases width - x,
    {
        let colour = shade(screen_point(x, y, width, height));
        row.push(colour);
        x = x + 1;
    }
    row
}

} // verus!
