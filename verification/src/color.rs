//! Colours and the hue circle.
//!
//! A colour channel runs from `0` to `UNIT`; a hue is an angle in thousandths
//! of a degree and wraps after `FULL_TURN`.

use vstd::prelude::*;

verus! {

/// Thousandths of a degree in one full turn of the hue circle.
pub const FULL_TURN: u32 = 360_000;

/// Thousandths of a degree in one of the six sectors of the hue circle.
pub const SECTOR: u32 = 60_000;

/// Path length, in thousandths of a pixel, after which any hue step measured
/// in thousandths of a degree per pixel has come round to where it started.
pub const HUE_PERIOD: u128 = 360_000_000;

/// An RGBA colour; each channel is in thousandths of full intensity.
#[derive(Clone, Copy, Debug, PartialEq, Eq, Structural)]
pub struct Color {
    pub r: u32,
    pub g: u32,
    pub b: u32,
    pub a: u32,
}

/// The hue reached from `start` after travelling `distance` thousandths of a
/// pixel at `step` thousandths of a degree per pixel, wrapped into one turn.
pub open spec fn hue_after_spec(start: nat, distance: nat, step: nat) -> nat {
    (start + distance * step / 1000) % 360_000
}

/// A path that is longer by a whole number of hue periods ends on the same hue.
pub proof fn lemma_hue_period(start: nat, distance: nat, step: nat)
    ensures
        hue_after_spec(start, distance, step) == hue_after_spec(
            start,
            distance % 360_000_000,
            step,
        ),
{
    let turns = distance / 360_000_000;
    let rest = distance % 360_000_000;
    let whole = turns * step;
    let part = rest * step;
    assert(distance * step == whole * 360_000_000 + part) by (nonlinear_arith)
        requires
            distance == turns * 360_000_000 + rest,
            whole == turns * step,
            part == rest * step,
    ;
    assert((whole * 360_000_000 + part) / 1000 == whole * 360_000 + part / 1000);
    assert((start + whole * 360_000 + part / 1000) % 360_000 == (start + part / 1000) % 360_000);
}

/// The hue reached from `start` after travelling `distance` thousandths of a
/// pixel at `step` thousandths of a degree per pixel, wrapped into one turn.
pub fn hue_after(start: u32, distance: u128, step: u32) -> (hue: u32)
    ensures
        hue == hue_after_spec(start as nat, distance as nat, step as nat),
        hue < FULL_TURN,
{
    let rest: u128 = distance % HUE_PERIOD;
    assert(rest * step <= 360_000_000 * 0x1_0000_0000) by (nonlinear_arith)
        requires
            rest <= 360_000_000,
            step <= 0x1_0000_0000,
    ;
    let travelled: u128 = rest * (step as u128) / 1000;
    let hue: u128 = (start as u128 + travelled) % (FULL_TURN as u128);
    proof {
        lemma_hue_period(start as nat, distance as nat, step as nat);
    }
    hue as u32
}

impl Color {
    /// The fully saturated, fully bright, opaque colour at `hue` thousandths of
    /// a degree on the hue circle. The circle is cut into six sectors; within a
    /// sector one channel is full, one is off, and the third rises or falls
    /// linearly.
    pub open spec fn from_hue_spec(hue: nat) -> Color {
        let wrapped = hue % 360_000;
        let sector = wrapped / 60_000;
        let rise = ((wrapped % 60_000) * 1000 / 60_000) as u32;
        let fall = (1000 - rise) as u32;
        if sector == 0 {
            Color { r: 1000, g: rise, b: 0, a: 1000 }
        } else if sector == 1 {
            Color { r: fall, g: 1000, b: 0, a: 1000 }
        } else if sector == 2 {
            Color { r: 0, g: 1000, b: rise, a: 1000 }
        } else if sector == 3 {
            Color { r: 0, g: fall, b: 1000, a: 1000 }
        } else if sector == 4 {
            Color { r: rise, g: 0, b: 1000, a: 1000 }
        } else {
            Color { r: 1000, g: 0, b: fall, a: 1000 }
        }
    }

    /// The fully saturated, fully bright, opaque colour at `hue` thousandths of
    /// a degree on the hue circle; hues past a full turn wrap around.
    pub fn from_hue(hue: u64) -> (color: Color)
        ensures
            color == Color::from_hue_spec(hue as nat),
    {
        let wrapped: u32 = (hue % (FULL_TURN as u64)) as u32;
        let sector: u32 = wrapped / SECTOR;
        let rise: u32 = (wrapped % SECTOR) * 1000 / SECTOR;
        let fall: u32 = 1000 - rise;
        if sector == 0 {
            Color { r: 1000, g: rise, b: 0, a: 1000 }
        } else if sector == 1 {
            Color { r: fall, g: 1000, b: 0, a: 1000 }
        } else if sector == 2 {
            Color { r: 0, g: 1000, b: rise, a: 1000 }
        } else if sector == 3 {
            Color { r: 0, g: fall, b: 1000, a: 1000 }
        } else if sector == 4 {
            Color { r: rise, g: 0, b: 1000, a: 1000 }
        } else {
            Color { r: 1000, g: 0, b: fall, a: 1000 }
        }
    }

    /// This colour with its alpha channel replaced by `alpha`.
    pub open spec fn with_alpha_spec(self, alpha: u32) -> Color {
        Color { r: self.r, g: self.g, b: self.b, a: alpha }
    }

    /// This colour with its alpha channel replaced by `alpha`.
    pub fn with_alpha(self, alpha: u32) -> (color: Color)
        ensures
            color == self.with_alpha_spec(alpha),
    {
        Color { r: self.r, g: self.g, b: self.b, a: alpha }
    }
}

/// Gives every colour of `colors` the alpha `alpha`.
pub fn with_alpha_all(colors: Vec<Color>, alpha: u32) -> (tinted: Vec<Color>)
    ensures
        tinted@ == colors@.map_values(|color: Color| color.with_alpha_spec(alpha)),
{
    let mut tinted: Vec<Color> = Vec::new();
    let mut index: usize = 0;
    while index < colors.len()
        invariant
            index <= colors.len(),
            tinted.len() == index,
            forall|k: int| 0 <= k < index ==> #[trigger] tinted[k] == colors[k].with_alpha_spec(alpha),
        decreases colors.len() - index,
    {
        tinted.push(colors[index].with_alpha(alpha));
        index = index + 1;
    }
    tinted
}

/// A rainbow colour is opaque and fully saturated: its strongest channel is
/// full, its weakest is off, and no channel exceeds full intensity.
pub proof fn lemma_from_hue_saturated(hue: nat)
    ensures
        ({
            let c = Color::from_hue_spec(hue);
            &&& c.a == 1000
            &&& c.r <= 1000 && c.g <= 1000 && c.b <= 1000
            &&& c.r == 1000 || c.g == 1000 || c.b == 1000
            &&& c.r == 0 || c.g == 0 || c.b == 0
        }),
{
}

/// The colour of a hue depends only on its position within the turn.
pub proof fn lemma_from_hue_wraps(hue: nat)
    ensures
        Color::from_hue_spec(hue + 360_000) == Color::from_hue_spec(hue),
        Color::from_hue_spec(hue % 360_000) == Color::from_hue_spec(hue),
{
}

} // verus!
