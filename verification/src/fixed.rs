//! Fixed-point coordinates.
//!
//! Positions are whole numbers of sub-pixels, `SUBPIXELS` to the pixel, and
//! velocities are sub-pixels per millisecond. A position saturates at the ends
//! of the `i64` range instead of wrapping.

use vstd::prelude::*;

verus! {

/// Sub-pixels in one pixel.
pub const SUBPIXELS: i64 = 1000;

/// The value in the `i64` range that is nearest to `v`.
pub open spec fn clamp_position(v: int) -> int {
    if v > i64::MAX as int {
        i64::MAX as int
    } else if v < i64::MIN as int {
        i64::MIN as int
    } else {
        v
    }
}

/// Where a point that starts at `x` is after moving with velocity `v` for `dt`
/// milliseconds.
pub open spec fn displaced(x: int, v: int, dt: nat) -> int {
    clamp_position(x + v * dt)
}

/// `x` sub-pixels in whole pixels, rounded to the nearest pixel, halves away
/// from zero.
pub open spec fn round_half_away(x: int) -> int {
    if x >= 0 {
        (x + SUBPIXELS / 2) / (SUBPIXELS as int)
    } else {
        -((-x + SUBPIXELS / 2) / (SUBPIXELS as int))
    }
}

/// The value in the `i32` range that is nearest to `v`.
pub open spec fn clamp_pixel(v: int) -> int {
    if v > i32::MAX as int {
        i32::MAX as int
    } else if v < i32::MIN as int {
        i32::MIN as int
    } else {
        v
    }
}

/// The pixel at which a point at `x` sub-pixels is drawn.
pub open spec fn pixel_of(x: int) -> int {
    clamp_pixel(round_half_away(x))
}

/// The position, in sub-pixels, of the pixel `px`.
pub open spec fn subpixels_of(px: int) -> int {
    px * SUBPIXELS
}

/// The product of a velocity and a time of less than 2^64 milliseconds fits
/// in `i128`, and so does its sum with a position.
proof fn lemma_product_bounds(v: int, dt: int)
    by (nonlinear_arith)
    requires
        -0x8000_0000_0000_0000 <= v < 0x8000_0000_0000_0000,
        0 <= dt < 0x1_0000_0000_0000_0000,
    ensures
        -0x7fff_ffff_ffff_ffff_8000_0000_0000_0000 <= v * dt,
        v * dt <= 0x7fff_ffff_ffff_fffe_8000_0000_0000_0001,
{
}

/// A velocity other than zero carries a point out of the range of positions
/// in 2^64 milliseconds, wherever it starts.
proof fn lemma_product_far(v: int, dt: int)
    by (nonlinear_arith)
    requires
        v != 0,
        dt >= 0x1_0000_0000_0000_0000,
    ensures
        v > 0 ==> v * dt >= 0x1_0000_0000_0000_0000,
        v < 0 ==> v * dt <= -0x1_0000_0000_0000_0000,
{
}

/// Moving for `a` and then for `b` milliseconds at one velocity ends where
/// moving for `a + b` milliseconds does, saturation included.
pub proof fn lemma_displaced_split(x: int, v: int, a: nat, b: nat)
    requires
        i64::MIN <= x <= i64::MAX,
    ensures
        displaced(displaced(x, v, a), v, b) == displaced(x, v, a + b),
{
    assert(v * (a + b) == v * a + v * b) by (nonlinear_arith);
    assert(v >= 0 ==> v * a >= 0 && v * b >= 0) by (nonlinear_arith);
    assert(v <= 0 ==> v * a <= 0 && v * b <= 0) by (nonlinear_arith);
}

/// The position `x` after `dt` milliseconds at velocity `v`.
pub fn displace(x: i64, v: i64, dt: u128) -> (r: i64)
    ensures
        r == displaced(x as int, v as int, dt as nat),
{
    if v == 0 || dt == 0 {
        assert(v * dt == 0) by (nonlinear_arith)
            requires
                v == 0 || dt == 0,
        ;
        return x;
    }
    if dt > u64::MAX as u128 {
        proof {
            lemma_product_far(v as int, dt as int);
        }
        return if v > 0 {
            i64::MAX
        } else {
            i64::MIN
        };
    }
    proof {
        lemma_product_bounds(v as int, dt as int);
    }
    let product: i128 = (v as i128) * (dt as i128);
    let sum: i128 = (x as i128) + product;
    if sum > i64::MAX as i128 {
        i64::MAX
    } else if sum < i64::MIN as i128 {
        i64::MIN
    } else {
        sum as i64
    }
}

/// The position `x` moved by `delta` sub-pixels.
pub fn nudge(x: i64, delta: i64) -> (r: i64)
    ensures
        r == clamp_position(x + delta),
{
    let sum: i128 = (x as i128) + (delta as i128);
    if sum > i64::MAX as i128 {
        i64::MAX
    } else if sum < i64::MIN as i128 {
        i64::MIN
    } else {
        sum as i64
    }
}

/// The pixel at which a point at `x` sub-pixels is drawn.
pub fn round_to_pixel(x: i64) -> (r: i32)
    ensures
        r == pixel_of(x as int),
{
    if x >= 0 {
        let whole: i64 = x / SUBPIXELS;
        let rest: i64 = x % SUBPIXELS;
        let rounded: i64 = if rest >= SUBPIXELS / 2 {
            whole + 1
        } else {
            whole
        };
        if rounded > i32::MAX as i64 {
            i32::MAX
        } else {
            rounded as i32
        }
    } else {
        let size: i128 = -(x as i128);
        let whole: i128 = size / (SUBPIXELS as i128);
        let rest: i128 = size % (SUBPIXELS as i128);
        let rounded: i128 = if rest >= (SUBPIXELS as i128) / 2 {
            whole + 1
        } else {
            whole
        };
        if rounded > -(i32::MIN as i128) {
            i32::MIN
        } else {
            (-rounded) as i32
        }
    }
}

/// The position, in sub-pixels, of the pixel `px`.
pub fn pixel_position(px: i32) -> (r: i64)
    ensures
        r == subpixels_of(px as int),
        pixel_of(r as int) == px,
{
    (px as i64) * SUBPIXELS
}

} // verus!
