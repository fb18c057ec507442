//! Conversion of sizes from logical units of the user interface to physical
//! pixels of a framebuffer.
//!
//! The user interface measures in single-precision floating point. The
//! conversion works on the bits of those numbers and is exact: each physical
//! extent is the product of the logical extent and the pixel ratio, rounded
//! to the nearest whole pixel, and never less than one pixel.

use vstd::prelude::*;
use vstd::arithmetic::div_mod::{lemma_basic_div, lemma_fundamental_div_mod, lemma_mod_pos_bound};
use vstd::arithmetic::power2::{
    lemma2_to64, lemma2_to64_rest, lemma_pow2_pos, lemma_pow2_strictly_increases,
    lemma_pow2_unfold, pow2,
};
use vstd::bits::{lemma_u64_shl_is_mul, lemma_u64_shr_is_div};
use crate::binary32::Binary32;
use crate::geometry::PhysicalSize;

verus! {

/// A size in logical units, as the user interface measures it.
#[derive(Clone, Copy, Debug, PartialEq, Eq, Structural)]
pub struct Vec2 {
    pub x: Binary32,
    pub y: Binary32,
}

/// The whole number nearest to `significand * 2^exponent`, a half counting
/// upwards.
pub open spec fn round_scaled(significand: nat, exponent: int) -> nat {
    if exponent >= 0 {
        significand * pow2(exponent as nat)
    } else {
        (significand + pow2((-exponent - 1) as nat)) / pow2((-exponent) as nat)
    }
}

/// `round_scaled` gives the nearest whole number: where the value has a
/// fraction, the result is no more than half a unit above it and less than
/// half a unit below it, counted in units of `2^exponent`; where it has none,
/// the result is the value itself.
pub proof fn lemma_round_scaled_is_nearest(significand: nat, exponent: int)
    ensures
        exponent >= 0 ==> round_scaled(significand, exponent) == significand * pow2(
            exponent as nat,
        ),
        exponent < 0 ==> ({
            let unit = pow2((-exponent) as nat);
            let rounded = round_scaled(significand, exponent);
            &&& 2 * significand - unit < 2 * (rounded * unit)
            &&& 2 * (rounded * unit) <= 2 * significand + unit
        }),
{
    if exponent < 0 {
        let shift = (-exponent) as nat;
        let unit = pow2(shift) as int;
        let half = pow2((shift - 1) as nat) as int;
        let rounded = round_scaled(significand, exponent) as int;
        lemma_pow2_unfold(shift);
        lemma_pow2_pos(shift);
        lemma_fundamental_div_mod(significand + half, unit);
        lemma_mod_pos_bound(significand + half, unit);
        assert(unit * rounded == rounded * unit) by (nonlinear_arith);
    }
}

/// A count of pixels held between one and the largest extent there is.
pub open spec fn clamp_pixels(pixels: nat) -> u32 {
    if pixels < 1 {
        1
    } else if pixels > u32::MAX {
        u32::MAX
    } else {
        pixels as u32
    }
}

/// The physical extent for a logical extent and a pixel ratio: the rounded
/// product, and at least one pixel.
///
/// For numbers above zero this is `max(1, round(points * ratio))`, held at
/// `u32::MAX` where the product is larger. A product that is not a number,
/// or not above zero, gives one pixel.
pub open spec fn scaled_extent(points: Binary32, ratio: Binary32) -> u32 {
    if points.is_nan() || ratio.is_nan() {
        1
    } else if (points.is_infinite() && ratio.is_zero()) || (points.is_zero()
        && ratio.is_infinite()) {
        1
    } else if points.is_negative() != ratio.is_negative() {
        1
    } else if points.is_infinite() || ratio.is_infinite() {
        u32::MAX
    } else {
        clamp_pixels(
            round_scaled(
                points.significand() * ratio.significand(),
                points.exponent() + ratio.exponent(),
            ),
        )
    }
}

/// The physical size for a logical size and a pixel ratio.
pub open spec fn physical_size(logical: Vec2, pixel_ratio: Binary32) -> PhysicalSize {
    PhysicalSize {
        width: scaled_extent(logical.x, pixel_ratio),
        height: scaled_extent(logical.y, pixel_ratio),
    }
}

/// Whatever the logical size and the pixel ratio, and so for every size and
/// ratio above zero, no extent of the physical size is zero.
pub proof fn lemma_physical_size_is_drawable(logical: Vec2, pixel_ratio: Binary32)
    ensures
        physical_size(logical, pixel_ratio).is_drawable(),
        logical.x.is_positive() && logical.y.is_positive() && pixel_ratio.is_positive()
            ==> physical_size(logical, pixel_ratio).width >= 1 && physical_size(
            logical,
            pixel_ratio,
        ).height >= 1,
{
}

/// For a size and a ratio above zero each extent is the rounded product of
/// the logical extent and the ratio, held between one and `u32::MAX`.
pub proof fn lemma_positive_extent_is_rounded_product(points: Binary32, ratio: Binary32)
    requires
        points.is_positive(),
        ratio.is_positive(),
    ensures
        scaled_extent(points, ratio) == clamp_pixels(
            round_scaled(
                points.significand() * ratio.significand(),
                points.exponent() + ratio.exponent(),
            ),
        ),
{
}

/// Rounds `significand * 2^exponent` to whole pixels and holds the result
/// between one and `u32::MAX`.
fn round_to_pixels(significand: u64, exponent: i32) -> (pixels: u32)
    requires
        significand < 0x1_0000_0000_0000,
        -298 <= exponent <= 208,
    ensures
        pixels == clamp_pixels(round_scaled(significand as nat, exponent as int)),
{
    proof {
        lemma2_to64();
        lemma2_to64_rest();
    }
    if significand == 0 {
        proof {
            if exponent >= 0 {
                assert(0 * pow2(exponent as nat) == 0) by (nonlinear_arith);
            } else {
                let shift = (-exponent) as nat;
                lemma_pow2_unfold(shift);
                lemma_pow2_pos((shift - 1) as nat);
                lemma_basic_div(pow2((shift - 1) as nat) as int, pow2(shift) as int);
            }
        }
        1
    } else if exponent >= 0 {
        if exponent >= 32 || significand > 0xffff_ffff {
            proof {
                let power = pow2(exponent as nat);
                lemma_pow2_pos(exponent as nat);
                if exponent > 32 {
                    lemma_pow2_strictly_increases(32, exponent as nat);
                }
                assert(significand * power > 0xffff_ffff) by (nonlinear_arith)
                    requires
                        significand >= 1,
                        power >= 1,
                        power >= 0x1_0000_0000 || significand > 0xffff_ffff,
                ;
            }
            u32::MAX
        } else {
            let shift: u64 = exponent as u64;
            proof {
                let power = pow2(shift as nat);
                if shift < 31 {
                    lemma_pow2_strictly_increases(shift as nat, 31);
                }
                assert(significand * power <= 0xffff_ffff * 0x8000_0000) by (nonlinear_arith)
                    requires
                        significand <= 0xffff_ffff,
                        power <= 0x8000_0000,
                ;
                lemma_u64_shl_is_mul(significand, shift);
            }
            let scaled: u64 = significand << shift;
            if scaled > 0xffff_ffff {
                u32::MAX
            } else {
                proof {
                    lemma_pow2_pos(shift as nat);
                    assert(significand * pow2(shift as nat) >= 1) by (nonlinear_arith)
                        requires
                            significand >= 1,
                            pow2(shift as nat) >= 1,
                    ;
                }
                scaled as u32
            }
        }
    } else {
        let shift: u64 = (-exponent) as u64;
        if shift >= 49 {
            proof {
                let below = (shift - 1) as nat;
                if below > 48 {
                    lemma_pow2_strictly_increases(48, below);
                }
                lemma_pow2_unfold(shift as nat);
                lemma_basic_div((significand + pow2(below)) as int, pow2(shift as nat) as int);
            }
            1
        } else {
            let below: u64 = shift - 1;
            proof {
                if below < 47 {
                    lemma_pow2_strictly_increases(below as nat, 47);
                }
                lemma_u64_shl_is_mul(1, below);
            }
            let half: u64 = 1u64 << below;
            let rounded: u64 = (significand + half) >> shift;
            proof {
                lemma_u64_shr_is_div((significand + half) as u64, shift);
            }
            if rounded == 0 {
                1
            } else if rounded > 0xffff_ffff {
                u32::MAX
            } else {
                rounded as u32
            }
        }
    }
}

/// The physical extent for a logical extent and a pixel ratio: the rounded
/// product, and at least one pixel.
pub fn scale_extent(points: Binary32, ratio: Binary32) -> (pixels: u32)
    ensures
        pixels == scaled_extent(points, ratio),
        pixels >= 1,
{
    let points_exponent = points.exponent_bits();
    let points_fraction = points.fraction_bits();
    let ratio_exponent = ratio.exponent_bits();
    let ratio_fraction = ratio.fraction_bits();
    let points_nan = points_exponent == 255 && points_fraction != 0;
    let ratio_nan = ratio_exponent == 255 && ratio_fraction != 0;
    let points_infinite = points_exponent == 255 && points_fraction == 0;
    let ratio_infinite = ratio_exponent == 255 && ratio_fraction == 0;
    let points_zero = points_exponent == 0 && points_fraction == 0;
    let ratio_zero = ratio_exponent == 0 && ratio_fraction == 0;
    if points_nan || ratio_nan {
        1
    } else if (points_infinite && ratio_zero) || (points_zero && ratio_infinite) {
        1
    } else if points.sign_bit() != ratio.sign_bit() {
        1
    } else if points_infinite || ratio_infinite {
        u32::MAX
    } else {
        let points_significand: u64 = if points_exponent == 0 {
            points_fraction as u64
        } else {
            0x80_0000 + points_fraction as u64
        };
        let ratio_significand: u64 = if ratio_exponent == 0 {
            ratio_fraction as u64
        } else {
            0x80_0000 + ratio_fraction as u64
        };
        let points_power: i32 = if points_exponent == 0 {
            -149
        } else {
            points_exponent as i32 - 150
        };
        let ratio_power: i32 = if ratio_exponent == 0 {
            -149
        } else {
            ratio_exponent as i32 - 150
        };
        assert(points_significand * ratio_significand < 0x1_0000_0000_0000) by (nonlinear_arith)
            requires
                points_significand < 0x100_0000,
                ratio_significand < 0x100_0000,
        ;
        round_to_pixels(points_significand * ratio_significand, points_power + ratio_power)
    }
}

/// Converts a size in logical units to physical pixels for a device pixel
/// ratio. Each extent is the product of the logical extent and the ratio,
/// rounded to the nearest pixel; no extent is ever zero.
pub fn to_physical(logical: Vec2, pixel_ratio: Binary32) -> (size: PhysicalSize)
    ensures
        size == physical_size(logical, pixel_ratio),
        size.is_drawable(),
{
    PhysicalSize {
        width: scale_extent(logical.x, pixel_ratio),
        height: scale_extent(logical.y, pixel_ratio),
    }
}

} // verus!
