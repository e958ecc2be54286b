//! Where a texture sample is read: texel coordinates wrap around the image (repeat
//! addressing), and each texel is four channels, stored row by row.
use vstd::prelude::*;
use vstd::arithmetic::mul::lemma_mul_inequality;

verus! {

/// The number of channels per texel (red, green, blue, alpha).
pub const CHANNELS: usize = 4;

/// `a` wrapped into `0 .. n`.
pub open spec fn wrap(a: int, n: int) -> int {
    a % n
}

/// The offset of the first channel of texel `(tx, ty)`, after wrapping, in a `width × height`
/// image.
pub open spec fn texel_offset_of(tx: int, ty: int, width: int, height: int) -> int {
    4 * (wrap(ty, height) * width + wrap(tx, width))
}

/// `a` wrapped into `0 .. n`.
fn wrap_coord(a: i64, n: u32) -> (r: u32)
    requires
        n > 0,
    ensures
        r == wrap(a as int, n as int),
        r < n,
{
    match a.checked_rem_euclid(n as i64) {
        Some(rem) => rem as u32,
        None => 0,
    }
}

/// The offset of the first channel of texel `(tx, ty)` in a `width × height` image, with both
/// coordinates wrapped into the image; the texel's four channels lie within the image data.
pub fn texel_offset(tx: i64, ty: i64, width: u32, height: u32) -> (r: usize)
    requires
        width > 0,
        height > 0,
        4 * (width as int) * (height as int) <= usize::MAX,
    ensures
        r == texel_offset_of(tx as int, ty as int, width as int, height as int),
        r + CHANNELS <= 4 * (width as int) * (height as int),
{
    let x = wrap_coord(tx, width);
    let y = wrap_coord(ty, height);
    proof {
        lemma_mul_inequality(y as int + 1, height as int, width as int);
        assert((y as int + 1) * width == y * width + width) by (nonlinear_arith);
        assert(4 * (width as int) * (height as int) == 4 * ((height as int) * (width as int)))
            by (nonlinear_arith);
    }
    CHANNELS * (y as usize * width as usize + x as usize)
}

} // verus!
