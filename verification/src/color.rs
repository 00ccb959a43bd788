//! The color model: an exact fixed-point HSV→RGB conversion shared by all
//! simulations, and byte-scaling helpers for gray levels.
//!
//! Hues are in microdegrees (`0..360_000_000`); saturation, value and
//! intensity are in thousandths (`0..=1000`); the intermediate chroma,
//! blend and match values are in millionths.

use vstd::prelude::*;
use crate::types::RGB;
use vstd::arithmetic::div_mod::lemma_div_is_ordered;
use vstd::arithmetic::div_mod::lemma_div_multiples_vanish;
use vstd::arithmetic::div_mod::lemma_div_pos_is_pos;
use vstd::arithmetic::div_mod::lemma_mod_division_less_than_divisor;

verus! {

/// Microdegrees in the full hue circle.
pub const HUE_FULL: u64 = 360_000_000;

/// Microdegrees in one 60-degree hue sextant.
pub const HUE_SEXTANT: u64 = 60_000_000;

/// Scale a byte-sized component by a factor in thousandths, rounding to
/// the nearest integer.
pub open spec fn spec_scale_byte(component: int, milli: int) -> int {
    (component * milli + 500) / 1000
}

/// Scale a byte-sized component by a factor in thousandths, rounding to
/// the nearest integer.
pub fn scale_byte(component: u32, milli: u32) -> (b: u8)
    requires
        component <= 255,
        milli <= 1000,
    ensures
        b == spec_scale_byte(component as int, milli as int),
{
    proof {
        assert(component * milli <= 255 * 1000) by (nonlinear_arith)
            requires
                component <= 255,
                milli <= 1000,
        ;
        lemma_div_is_ordered(component * milli + 500, 255_500int, 1000);
        lemma_div_pos_is_pos(component * milli + 500, 1000);
    }
    ((component * milli + 500) / 1000) as u8
}

/// The gray level of an intensity in thousandths: `255 * intensity`,
/// rounded to the nearest byte.
pub open spec fn spec_brightness_byte(milli: int) -> int {
    spec_scale_byte(255, milli)
}

/// The gray level of an intensity in thousandths.
pub fn brightness_byte(milli: u32) -> (b: u8)
    requires
        milli <= 1000,
    ensures
        b == spec_brightness_byte(milli as int),
{
    scale_byte(255, milli)
}

/// The triangular hue ramp `1 - |((h / 60°) mod 2) - 1|`, scaled so that
/// both the hue and the result are in microdegrees: it rises from 0 to
/// 60_000_000 over one sextant and falls back over the next.
pub open spec fn spec_hue_ramp(h: int) -> int {
    let u = h % 120_000_000;
    if u <= 60_000_000 {
        u
    } else {
        120_000_000 - u
    }
}

/// Chroma in millionths: saturation times value, both in thousandths.
pub open spec fn spec_chroma(s: int, v: int) -> int {
    s * v
}

/// The secondary component `x = chroma * ramp`, in millionths.
pub open spec fn spec_hue_blend(h: int, s: int, v: int) -> int {
    spec_chroma(s, v) * spec_hue_ramp(h) / 60_000_000
}

/// The pre-offset `(r, g, b)` triple, in millionths, that hue sextant `k`
/// selects from chroma, blend and zero.
pub open spec fn spec_sextant_triple(k: int, h: int, s: int, v: int) -> (int, int, int) {
    let c = spec_chroma(s, v);
    let x = spec_hue_blend(h, s, v);
    if k == 0 {
        (c, x, 0)
    } else if k == 1 {
        (x, c, 0)
    } else if k == 2 {
        (0, c, x)
    } else if k == 3 {
        (0, x, c)
    } else if k == 4 {
        (x, 0, c)
    } else {
        (c, 0, x)
    }
}

/// Round a component in millionths to a byte: `round(p * 255)`.
pub open spec fn spec_round_byte(p: int) -> int {
    (p * 255 + 500_000) / 1_000_000
}

/// The converted triple as computed inside hue sextant `k`: the match
/// value `m = v - chroma` is added to each selected component and the sum
/// is rounded to a byte.
pub open spec fn spec_hsv_in_sextant(k: int, h: int, s: int, v: int) -> (int, int, int) {
    let m = 1000 * v - spec_chroma(s, v);
    let t = spec_sextant_triple(k, h, s, v);
    (spec_round_byte(t.0 + m), spec_round_byte(t.1 + m), spec_round_byte(t.2 + m))
}

/// The HSV→RGB conversion: hue in microdegrees, saturation and value in
/// thousandths, each resulting component a byte.
pub open spec fn spec_hsv_to_rgb(h: int, s: int, v: int) -> (int, int, int) {
    spec_hsv_in_sextant(h / 60_000_000, h, s, v)
}

/// Round a non-negative component in millionths to a byte.
fn round_byte(p: u64) -> (b: u8)
    requires
        p <= 1_000_000,
    ensures
        b == spec_round_byte(p as int),
{
    proof {
        lemma_div_is_ordered(p * 255 + 500_000, 255_500_000int, 1_000_000);
        lemma_div_pos_is_pos(p * 255 + 500_000, 1_000_000);
    }
    ((p * 255 + 500_000) / 1_000_000) as u8
}

/// Convert a hue in microdegrees (below 360 degrees), a saturation and a
/// value in thousandths to an RGB color, by the standard
/// hue-chroma-match construction.
pub fn hsv_to_rgb(h: u64, s: u32, v: u32) -> (rgb: RGB<u8>)
    requires
        h < HUE_FULL,
        s <= 1000,
        v <= 1000,
    ensures
        ({
            let t = spec_hsv_to_rgb(h as int, s as int, v as int);
            rgb.r == t.0 && rgb.g == t.1 && rgb.b == t.2
        }),
{
    let s64: u64 = s as u64;
    let v64: u64 = v as u64;
    proof {
        assert(s64 * v64 <= 1000 * v64 <= 1_000_000) by (nonlinear_arith)
            requires
                s64 <= 1000,
                v64 <= 1000,
        ;
    }
    let c: u64 = s64 * v64;
    let u: u64 = h % 120_000_000;
    let ramp: u64 = if u <= 60_000_000 {
        u
    } else {
        120_000_000 - u
    };
    proof {
        assert(c * ramp <= c * 60_000_000 <= 60_000_000_000_000) by (nonlinear_arith)
            requires
                c <= 1_000_000,
                ramp <= 60_000_000,
        ;
    }
    let x: u64 = c * ramp / 60_000_000;
    proof {
        lemma_div_is_ordered((c * ramp) as int, c as int * 60_000_000, 60_000_000);
        lemma_div_multiples_vanish(c as int, 60_000_000);
        lemma_div_pos_is_pos((c * ramp) as int, 60_000_000);
    }
    assert(x <= c);
    let m: u64 = 1000 * v64 - c;
    let k: u64 = h / HUE_SEXTANT;
    proof {
        lemma_div_is_ordered(h as int, 359_999_999, 60_000_000);
        lemma_div_pos_is_pos(h as int, 60_000_000);
    }
    let (tr, tg, tb): (u64, u64, u64) = if k == 0 {
        (c, x, 0)
    } else if k == 1 {
        (x, c, 0)
    } else if k == 2 {
        (0, c, x)
    } else if k == 3 {
        (0, x, c)
    } else if k == 4 {
        (x, 0, c)
    } else {
        (c, 0, x)
    };
    RGB { r: round_byte(tr + m), g: round_byte(tg + m), b: round_byte(tb + m) }
}

/// Law: the conversion is continuous at the six sextant boundaries. For
/// every boundary hue `60° * k` (`k` from 1 to 6) and any saturation and
/// value, the formula of the sextant below the boundary, evaluated at the
/// boundary itself, yields exactly the triple of the sextant at (or, for
/// 360°, wrapped to) the boundary — so hue sweeps across 60°, 120°, 180°,
/// 240°, 300° and around 360°→0° without a jump.
pub proof fn lemma_hsv_sextant_continuity(k: int, s: int, v: int)
    requires
        1 <= k <= 6,
        0 <= s <= 1000,
        0 <= v <= 1000,
    ensures
        spec_hsv_in_sextant(k - 1, 60_000_000 * k, s, v) == spec_hsv_in_sextant(
            k % 6,
            (60_000_000 * k) % 360_000_000,
            s,
            v,
        ),
{
    let c = spec_chroma(s, v);
    lemma_div_multiples_vanish(c, 60_000_000);
    vstd::arithmetic::div_mod::lemma_div_of0(60_000_000);
    assert(0 <= c <= 1_000_000) by (nonlinear_arith)
        requires
            c == s * v,
            0 <= s <= 1000,
            0 <= v <= 1000,
    ;
    // At an odd boundary the ramp is full, so the blend equals the
    // chroma; at an even one the ramp is zero, and so is the blend.
    if k == 1 {
        assert(spec_hue_ramp(60_000_000) == 60_000_000);
        assert(spec_hue_blend(60_000_000, s, v) == c);
    } else if k == 2 {
        assert(spec_hue_ramp(120_000_000) == 0);
        assert(spec_hue_blend(120_000_000, s, v) == 0);
    } else if k == 3 {
        assert(spec_hue_ramp(180_000_000) == 60_000_000);
        assert(spec_hue_blend(180_000_000, s, v) == c);
    } else if k == 4 {
        assert(spec_hue_ramp(240_000_000) == 0);
        assert(spec_hue_blend(240_000_000, s, v) == 0);
    } else if k == 5 {
        assert(spec_hue_ramp(300_000_000) == 60_000_000);
        assert(spec_hue_blend(300_000_000, s, v) == c);
    } else {
        assert(spec_hue_ramp(360_000_000) == 0);
        assert(spec_hue_ramp(0) == 0);
        assert(spec_hue_blend(360_000_000, s, v) == 0);
        assert(spec_hue_blend(0, s, v) == 0);
        assert((60_000_000 * k) % 360_000_000 == 0);
    }
}

} // verus!
