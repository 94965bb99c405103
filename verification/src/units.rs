//! Fixed-point units shared by every quantity of the overlay state.
//!
//! Sizes, opacities, colour channels and hues are whole numbers of thousandths:
//! a thickness of `2500` is two and a half pixels, an alpha of `350` is 35
//! percent, a hue of `120_000` is 120 degrees.

use vstd::prelude::*;

verus! {

/// Number of fixed-point steps in one whole unit (pixel, degree, or full channel).
pub const UNIT: u32 = 1000;

/// Thinnest stroke and smallest eraser, in thousandths of a pixel.
pub const MIN_STROKE_THICKNESS: i64 = 1_000;

/// Thickest stroke and largest eraser, in thousandths of a pixel.
pub const MAX_STROKE_THICKNESS: i64 = 50_000;

/// Lowest marker opacity and lowest marker alpha, in thousandths.
pub const MIN_MARKER_OPACITY: i64 = 50;

/// Highest marker opacity and highest marker alpha, in thousandths.
pub const MAX_MARKER_OPACITY: i64 = 900;

/// Smallest font size, in thousandths of a pixel.
pub const MIN_FONT_SIZE: i64 = 8_000;

/// Largest font size, in thousandths of a pixel.
pub const MAX_FONT_SIZE: i64 = 72_000;

/// Restricts `value` to the closed interval from `low` to `high`.
pub open spec fn clamp_spec(value: int, low: int, high: int) -> int {
    if value < low {
        low
    } else if value > high {
        high
    } else {
        value
    }
}

/// Restricts `value` to the closed interval from `low` to `high`.
pub fn clamp(value: i64, low: i64, high: i64) -> (clamped: i64)
    requires
        low <= high,
    ensures
        clamped == clamp_spec(value as int, low as int, high as int),
{
    if value < low {
        low
    } else if value > high {
        high
    } else {
        value
    }
}

/// Restricts a value of any size to the closed interval from `low` to `high`.
pub fn clamp_wide(value: i128, low: i64, high: i64) -> (clamped: i64)
    requires
        low <= high,
    ensures
        clamped == clamp_spec(value as int, low as int, high as int),
{
    if value < low as i128 {
        low
    } else if value > high as i128 {
        high
    } else {
        value as i64
    }
}

/// A clamped value lies within the bounds, is the value itself where that
/// already does, and is otherwise the nearer bound.
pub proof fn lemma_clamp_saturates(value: int, low: int, high: int)
    requires
        low <= high,
    ensures
        low <= clamp_spec(value, low, high) <= high,
        low <= value <= high ==> clamp_spec(value, low, high) == value,
        value < low ==> clamp_spec(value, low, high) == low,
        value > high ==> clamp_spec(value, low, high) == high,
        clamp_spec(clamp_spec(value, low, high), low, high) == clamp_spec(value, low, high),
{
}

} // verus!
