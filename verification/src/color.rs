//! Colors and channel arithmetic: the 8-bit RGB triple stored in the pixel
//! buffer, the global brightness scaler, the per-channel fade step and the
//! percentage brightness factor used by the sparkle generator.

use vstd::prelude::*;

verus! {

/// One LED's color: 8-bit red, green and blue channel intensities.
#[derive(Clone, Copy, PartialEq, Eq, Structural, Debug)]
pub struct Rgb {
    pub r: u8,
    pub g: u8,
    pub b: u8,
}

impl Rgb {
    pub fn new(r: u8, g: u8, b: u8) -> (c: Rgb)
        ensures
            c == (Rgb { r, g, b }),
    {
        Rgb { r, g, b }
    }

    /// An unlit pixel.
    pub fn off() -> (c: Rgb)
        ensures
            c == spec_off(),
    {
        Rgb { r: 0, g: 0, b: 0 }
    }
}

pub open spec fn spec_off() -> Rgb {
    Rgb { r: 0, g: 0, b: 0 }
}

/// The brightness scaler as a mathematical function: floor(v * 25 / 255).
pub open spec fn spec_scale(v: u8) -> int {
    (v * 25) / 255
}

/// Dim a full-scale channel value under the fixed global brightness ratio
/// of 25/255 (about 10%). Animations author colors at nominal full scale
/// and pass them through this once, at color construction time.
pub fn scale_brightness(value: u8) -> (out: u8)
    ensures
        out == spec_scale(value),
{
    ((value as u16 * 25) / 255) as u8
}

/// The brightness scaler is monotonically non-decreasing.
pub proof fn lemma_scale_monotonic(v1: u8, v2: u8)
    requires
        v1 <= v2,
    ensures
        spec_scale(v1) <= spec_scale(v2),
{
    vstd::arithmetic::div_mod::lemma_div_is_ordered((v1 * 25) as int, (v2 * 25) as int, 255);
}

/// One fade step of a channel toward its target: exactly 5 toward it when
/// it is further away than that, onto it when it is within reach.
pub open spec fn spec_step_toward(c: u8, t: u8) -> u8 {
    if c < t {
        if t - c <= 5 {
            t
        } else {
            (c + 5) as u8
        }
    } else if c > t {
        if c - t <= 5 {
            t
        } else {
            (c - 5) as u8
        }
    } else {
        c
    }
}

/// Move a channel one step toward its target: by 5 while the target is
/// further away than that, and onto the target once it is within reach, so
/// a fade lands on the target instead of stepping past it.
pub fn step_toward(current: u8, target: u8) -> (out: u8)
    ensures
        out == spec_step_toward(current, target),
{
    if current < target {
        if target - current <= 5 {
            target
        } else {
            current + 5
        }
    } else if current > target {
        if current - target <= 5 {
            target
        } else {
            current - 5
        }
    } else {
        current
    }
}

/// A fade step moves by at most 5, strictly toward the target, and a
/// channel already at its target stays there.
pub proof fn lemma_step_toward_moves(c: u8, t: u8)
    ensures
        c == t ==> spec_step_toward(c, t) == c,
        c < t ==> c < spec_step_toward(c, t) && spec_step_toward(c, t) <= c + 5,
        c > t ==> c - 5 <= spec_step_toward(c, t) < c,
{
}

/// A fade step never overshoots past the target: from either side it stops
/// at the target at the latest.
pub proof fn lemma_step_toward_no_overshoot(c: u8, t: u8)
    ensures
        c <= t ==> spec_step_toward(c, t) <= t,
        c >= t ==> spec_step_toward(c, t) >= t,
{
}

/// A channel after the sparkle brightness factor (a percentage) is applied.
pub open spec fn spec_apply_brightness(c: u8, f: u8) -> u8 {
    (((c * f) / 100) as u8)
}

/// Scale a channel by a percentage brightness factor, rounding down.
pub fn apply_brightness(channel: u8, factor: u8) -> (out: u8)
    requires
        factor <= 100,
    ensures
        out == spec_apply_brightness(channel, factor),
{
    proof {
        assert(channel * factor <= 255 * 100) by (nonlinear_arith)
            requires
                channel <= 255,
                factor <= 100,
        ;
        vstd::arithmetic::div_mod::lemma_div_is_ordered(
            (channel * factor) as int,
            255int * 100,
            100,
        );
    }
    ((channel as u16 * factor as u16) / 100) as u8
}

/// The nominal colors the animations draw with, already passed through the
/// global brightness scaler.
pub open spec fn spec_tree_green() -> Rgb {
    Rgb { r: 0, g: 25, b: 0 }
}

pub open spec fn spec_star_yellow() -> Rgb {
    Rgb { r: 25, g: 25, b: 0 }
}

pub open spec fn spec_sparkle_star() -> Rgb {
    Rgb { r: 25, g: 21, b: 0 }
}

pub open spec fn spec_sky_white() -> Rgb {
    Rgb { r: 25, g: 25, b: 25 }
}

/// The green used for the tree rows and twinkle pixels.
pub fn tree_green() -> (c: Rgb)
    ensures
        c == spec_tree_green(),
{
    Rgb::new(0, scale_brightness(255), 0)
}

/// The yellow used when the tree-top star blinks or twinkles.
pub fn star_yellow() -> (c: Rgb)
    ensures
        c == spec_star_yellow(),
{
    Rgb::new(scale_brightness(255), scale_brightness(255), 0)
}

/// The warm yellow the star holds during the sparkle phase.
pub fn sparkle_star() -> (c: Rgb)
    ensures
        c == spec_sparkle_star(),
{
    Rgb::new(scale_brightness(255), scale_brightness(220), 0)
}

/// The white used for the starfield strip.
pub fn sky_white() -> (c: Rgb)
    ensures
        c == spec_sky_white(),
{
    Rgb::new(scale_brightness(255), scale_brightness(255), scale_brightness(255))
}

} // verus!
