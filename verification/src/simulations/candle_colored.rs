//! Candle flame: a color field driven by two deterministic, band-limited
//! flicker signals (sums of fixed-frequency sine waves of the elapsed
//! time). The layout is the board's own twelve-LED flame shape, read as
//! three fixed index groups: a black wick, two blue base LEDs left and
//! right of the candle's center line, and nine flame LEDs whose hue,
//! saturation and brightness follow their height inside a flickering
//! flame.
//!
//! The same elapsed time and intensity always paint the same colors:
//! nothing here draws randomness, so every tick is reproducible.

use vstd::prelude::*;
use crate::color::hsv_to_rgb;
use crate::color::spec_hsv_to_rgb;
use crate::fixedpoint::clamp_i64;
use crate::fixedpoint::emod_i64;
use crate::fixedpoint::lemma_tdiv2_range;
use crate::fixedpoint::lemma_tdiv_range;
use crate::fixedpoint::sgn_i64;
use crate::fixedpoint::spec_clamp;
use crate::fixedpoint::spec_sgn;
use crate::fixedpoint::spec_tdiv;
use crate::fixedpoint::spec_tdiv2;
use crate::fixedpoint::tdiv2_i64;
use crate::fixedpoint::tdiv_i64;
use crate::trig::sin_milli;
use crate::trig::spec_sin_milli;
use vstd::arithmetic::div_mod::lemma_div_is_ordered;
use crate::types::LED;
use crate::types::RGB;
use crate::types::Simulation;
use crate::types::layout_bounded;

verus! {

/// The x coordinate of the candle's center line: base LEDs react to the
/// horizontal flicker with opposite signs on its two sides.
pub const CANDLE_BASE_X: u64 = 107;

/// The y coordinate where the flame's gradient starts.
pub const FLAME_FLOOR_Y: i64 = 14;

/// The index of the wick LED, held black.
pub const WICK_LED: usize = 9;

/// The index of the blue base LED left of the center line.
pub const BLUE_LED_LEFT: usize = 0;

/// The index of the blue base LED right of the center line.
pub const BLUE_LED_RIGHT: usize = 8;

/// How many LEDs the candle layout has; the first twelve LEDs are
/// painted, any further ones are left alone.
pub const CANDLE_LED_COUNT: usize = 12;

/// The hue of the flame's blue base, in microdegrees.
pub const BLUE_HUE: u64 = 200_000_000;

/// The sine phase, in milliradians, of a wave at `k` radians per second
/// after `micros` microseconds. The time is reduced by the sine's period
/// first, which keeps the product exact in 64 bits.
pub open spec fn spec_phase(k: int, micros: int) -> int {
    (k * (micros % 6_282_000)) / 1000
}

/// The sine phase, in milliradians, of a wave at `k` radians per second.
pub fn phase(k: u64, micros: u64) -> (p: u64)
    requires
        k <= 200,
    ensures
        p == spec_phase(k as int, micros as int),
        p <= 1_300_000,
{
    let r: u64 = micros % 6_282_000;
    proof {
        assert(k * r <= 200 * 6_282_000) by (nonlinear_arith)
            requires
                k <= 200,
                r <= 6_282_000,
        ;
        lemma_div_is_ordered((k * r) as int, 1_256_400_000int, 1000);
        vstd::arithmetic::div_mod::lemma_div_pos_is_pos((k * r) as int, 1000);
    }
    k * r / 1000
}

/// The horizontal flicker in millionths: `1.5 (sin 2t + sin t
/// + 0.3 sin 12t + 0.1 sin 100t)` of the elapsed seconds `t`, a periodic
/// signal between -3.6 and 3.6.
pub open spec fn spec_horiz_flicker(micros: int) -> int {
    let s1 = spec_sin_milli(spec_phase(1, micros));
    let s2 = spec_sin_milli(spec_phase(2, micros));
    let s12 = spec_sin_milli(spec_phase(12, micros));
    let s100 = spec_sin_milli(spec_phase(100, micros));
    spec_tdiv(1500 * (10 * s2 + 10 * s1 + 3 * s12 + s100), 10_000)
}

/// The vertical flicker in millionths: `5 (0.4 sin t + 0.3 sin 2t
/// + sin 3t + 0.3 sin 8t + 0.05 sin 130t)` of the elapsed seconds `t`, a
/// periodic signal between -10.25 and 10.25.
pub open spec fn spec_vert_flicker(micros: int) -> int {
    let s1 = spec_sin_milli(spec_phase(1, micros));
    let s2 = spec_sin_milli(spec_phase(2, micros));
    let s3 = spec_sin_milli(spec_phase(3, micros));
    let s8 = spec_sin_milli(spec_phase(8, micros));
    let s130 = spec_sin_milli(spec_phase(130, micros));
    spec_tdiv(5 * (40 * s1 + 30 * s2 + 100 * s3 + 30 * s8 + 5 * s130), 100)
}

/// The flame's momentary height in millionths of a layout unit:
/// ten units plus the vertical flicker, scaled by the intensity.
pub open spec fn spec_flame_height(vert: int, intensity: int) -> int {
    spec_tdiv((vert + 10_000_000) * intensity, 1000)
}

/// The sign with which a LED at `x` reacts to the horizontal flicker:
/// positive when the LED's side of the center line and the flicker's
/// direction agree.
pub open spec fn spec_flicker_sign(x: int, horiz: int) -> int {
    spec_sgn((x - CANDLE_BASE_X) * horiz)
}

/// A blue base LED's brightness in millionths: a fixed 0.4, moved by two
/// percent of the horizontal flicker (away from or toward the LED's
/// side), half a percent of the vertical flicker, and three percent of
/// the intensity.
pub open spec fn spec_blue_brightness(horiz: int, vert: int, intensity: int, x: int) -> int {
    400_000 + spec_tdiv(2 * horiz * spec_flicker_sign(x, horiz), 100) + spec_tdiv(vert, 200)
        + 30 * intensity
}

/// A blue base LED's color: the fixed blue hue at full saturation, with
/// the flicker-modulated brightness as the HSV value.
pub open spec fn spec_blue_color(horiz: int, vert: int, intensity: int, x: int) -> (int, int, int) {
    spec_hsv_to_rgb(200_000_000, 1000, spec_tdiv(spec_blue_brightness(horiz, vert, intensity, x), 1000))
}

/// The hue (microdegrees), saturation (thousandths) and unclamped value
/// (millionths) of a flame LED at normalized height `vp` (thousandths of
/// the flame height above the flame floor).
///
/// The hue moves from orange toward yellow with height, never below 37
/// degrees. The saturation dips around two thirds of the way up — a
/// closed-form two-sine fit that paints a white hot spot there. The
/// value is full inside the flame and falls off sharply above its top.
/// For the hue and value terms the height is clamped to `[-1, 2]`
/// flame heights: outside that band the value term is so deep below
/// zero (or the hue constant) that the painted color is black either
/// way, and the clamp keeps the arithmetic inside 64 bits.
pub open spec fn spec_flame_base_hsv(vp: int) -> (int, int, int) {
    let vpb = spec_clamp(vp, -1000, 2000);
    let hue_raw = 15_000 * vpb + 35_000_000;
    let hue = if hue_raw >= 37_000_000 {
        hue_raw
    } else {
        37_000_000
    };
    let r = vp % 6_282_000;
    let sa = spec_sin_milli((11_896 * r) / 1000);
    let sb = spec_sin_milli((8_612 * r) / 1000);
    let sat_un = spec_tdiv(-247_097 * sa + 277_867 * sb, 1_000_000) + 531_100;
    let sat = spec_clamp(sat_un, 0, 1_000_000) / 1000;
    let val = if vpb <= 1000 {
        1_000_000
    } else {
        21_000_000 - 20_000 * vpb
    };
    (hue, sat, val)
}

/// A flame LED's color. A degenerate flame of height zero is black; any
/// other height places the LED at its normalized position inside the
/// flame, nudged sideways by the horizontal flicker, and converts the
/// resulting hue, saturation and clamped brightness.
pub open spec fn spec_flame_color(horiz: int, fh: int, x: int, y: int) -> (int, int, int) {
    if fh == 0 {
        (0, 0, 0)
    } else {
        let hc = spec_tdiv(100 * horiz * spec_flicker_sign(x, horiz), 1000);
        let vp = spec_tdiv2((y - FLAME_FLOOR_Y) * 1_000_000_000, fh);
        let base = spec_flame_base_hsv(vp + spec_tdiv(hc, 1000));
        let bright = spec_clamp(base.2 + hc, 0, 1_000_000);
        spec_hsv_to_rgb(base.0, base.1, bright / 1000)
    }
}

/// The color the candle paints on the LED at index `idx` (of the twelve
/// it knows) with coordinates `(x, y)`, at elapsed time `micros` and the
/// given intensity.
pub open spec fn spec_candle_color(x: int, y: int, idx: int, micros: int, intensity: int) -> (
    int,
    int,
    int,
) {
    let horiz = spec_horiz_flicker(micros);
    let vert = spec_vert_flicker(micros);
    if idx == WICK_LED {
        (0, 0, 0)
    } else if idx == BLUE_LED_LEFT || idx == BLUE_LED_RIGHT {
        spec_blue_color(horiz, vert, intensity, x)
    } else {
        spec_flame_color(horiz, spec_flame_height(vert, intensity), x, y)
    }
}

/// The candle pattern: only the last tick time is kept between frames;
/// the colors depend on the tick's own arguments alone.
#[derive(Debug)]
pub struct CandleColoredSim {
    last_tick: u64,
}

impl CandleColoredSim {
    /// The elapsed-time stamp of the previous tick.
    pub closed spec fn spec_last_tick(&self) -> u64 {
        self.last_tick
    }

    /// The horizontal flicker in millionths, between -3.6 and 3.6.
    pub fn get_horiz_flicker(micros: u64) -> (f: i64)
        ensures
            f == spec_horiz_flicker(micros as int),
            -3_600_000 <= f <= 3_600_000,
    {
        let s1 = sin_milli(phase(1, micros) as i64);
        let s2 = sin_milli(phase(2, micros) as i64);
        let s12 = sin_milli(phase(12, micros) as i64);
        let s100 = sin_milli(phase(100, micros) as i64);
        let inner: i64 = 10 * s2 + 10 * s1 + 3 * s12 + s100;
        let f = tdiv_i64(1500 * inner, 10_000);
        proof {
            lemma_tdiv_range(1500 * (inner as int), 10_000, 36_000_000_000);
        }
        f
    }

    /// The vertical flicker in millionths, between -10.25 and 10.25.
    pub fn get_vert_flicker(micros: u64) -> (f: i64)
        ensures
            f == spec_vert_flicker(micros as int),
            -10_250_000 <= f <= 10_250_000,
    {
        let s1 = sin_milli(phase(1, micros) as i64);
        let s2 = sin_milli(phase(2, micros) as i64);
        let s3 = sin_milli(phase(3, micros) as i64);
        let s8 = sin_milli(phase(8, micros) as i64);
        let s130 = sin_milli(phase(130, micros) as i64);
        let inner: i64 = 40 * s1 + 30 * s2 + 100 * s3 + 30 * s8 + 5 * s130;
        let f = tdiv_i64(5 * inner, 100);
        proof {
            lemma_tdiv_range(5 * (inner as int), 100, 1_025_000_000);
        }
        f
    }

    /// The flame profile at normalized height `vp` (thousandths): hue in
    /// microdegrees, saturation in thousandths, unclamped value in
    /// millionths.
    pub fn get_flame_base_hsv(vp: i64) -> (t: (u64, u32, i64))
        requires
            vp > i64::MIN,
        ensures
            t.0 == spec_flame_base_hsv(vp as int).0,
            t.1 == spec_flame_base_hsv(vp as int).1,
            t.2 == spec_flame_base_hsv(vp as int).2,
            37_000_000 <= t.0 <= 65_000_000,
            t.1 <= 1000,
            -19_000_000 <= t.2 <= 1_000_000,
    {
        let vpb = clamp_i64(vp, -1000, 2000);
        let hue_raw: i64 = 15_000 * vpb + 35_000_000;
        let hue: u64 = if hue_raw >= 37_000_000 {
            hue_raw as u64
        } else {
            37_000_000
        };
        let r: u64 = emod_i64(vp, 6_282_000) as u64;
        let sa = sin_milli((11_896 * r / 1000) as i64);
        let sb = sin_milli((8_612 * r / 1000) as i64);
        let sat_un: i64 = tdiv_i64(-247_097 * sa + 277_867 * sb, 1_000_000) + 531_100;
        proof {
            lemma_tdiv_range(-247_097 * (sa as int) + 277_867 * (sb as int), 1_000_000,
                524_964_000_000);
        }
        let sat: u32 = (clamp_i64(sat_un, 0, 1_000_000) as u64 / 1000) as u32;
        let val: i64 = if vpb <= 1000 {
            1_000_000
        } else {
            21_000_000 - 20_000 * vpb
        };
        (hue, sat, val)
    }
}

/// A blue base LED's color at the given flickers, intensity and x
/// coordinate.
fn blue_color(horiz: i64, vert: i64, intensity_mod: u32, x: u64) -> (c: RGB<u8>)
    requires
        -3_600_000 <= horiz <= 3_600_000,
        -10_250_000 <= vert <= 10_250_000,
        intensity_mod <= 1000,
        x <= 1_000_000,
    ensures
        ({
            let t = spec_blue_color(horiz as int, vert as int, intensity_mod as int, x as int);
            c.r == t.0 && c.g == t.1 && c.b == t.2
        }),
{
    proof {
        assert(-3_600_000_000_000 <= ((x as int) - 107) * horiz <= 3_600_000_000_000)
            by (nonlinear_arith)
            requires
                -107 <= (x as int) - 107 <= 1_000_000,
                -3_600_000 <= horiz <= 3_600_000,
        ;
    }
    let sign = sgn_i64((x as i64 - CANDLE_BASE_X as i64) * horiz);
    proof {
        assert(-7_200_000 <= 2 * horiz * sign <= 7_200_000) by (nonlinear_arith)
            requires
                -3_600_000 <= horiz <= 3_600_000,
                sign == 1 || sign == -1,
        ;
    }
    let th = tdiv_i64(2 * horiz * sign, 100);
    proof {
        lemma_tdiv_range(2 * (horiz as int) * (sign as int), 100, 7_200_000);
    }
    let tv = tdiv_i64(vert, 200);
    proof {
        lemma_tdiv_range(vert as int, 200, 10_250_000);
    }
    let bb: i64 = 400_000 + th + tv + 30 * (intensity_mod as i64);
    let v: u32 = ((bb as u64) / 1000) as u32;
    hsv_to_rgb(BLUE_HUE, 1000, v)
}

/// A flame LED's color at the given horizontal flicker, flame height and
/// coordinates.
fn flame_color(horiz: i64, fh: i64, x: u64, y: u64) -> (c: RGB<u8>)
    requires
        -3_600_000 <= horiz <= 3_600_000,
        -20_250_000 <= fh <= 20_250_000,
        x <= 1_000_000,
        y <= 1_000_000,
    ensures
        ({
            let t = spec_flame_color(horiz as int, fh as int, x as int, y as int);
            c.r == t.0 && c.g == t.1 && c.b == t.2
        }),
{
    if fh == 0 {
        return RGB { r: 0, g: 0, b: 0 };
    }
    proof {
        assert(-3_600_000_000_000 <= ((x as int) - 107) * horiz <= 3_600_000_000_000)
            by (nonlinear_arith)
            requires
                -107 <= (x as int) - 107 <= 1_000_000,
                -3_600_000 <= horiz <= 3_600_000,
        ;
    }
    let sign = sgn_i64((x as i64 - CANDLE_BASE_X as i64) * horiz);
    proof {
        assert(-360_000_000 <= 100 * horiz * sign <= 360_000_000) by (nonlinear_arith)
            requires
                -3_600_000 <= horiz <= 3_600_000,
                sign == 1 || sign == -1,
        ;
    }
    let hc = tdiv_i64(100 * horiz * sign, 1000);
    proof {
        lemma_tdiv_range(100 * (horiz as int) * (sign as int), 1000, 360_000_000);
    }
    let vp = tdiv2_i64((y as i64 - FLAME_FLOOR_Y) * 1_000_000_000, fh);
    proof {
        lemma_tdiv2_range(
            ((y as int) - 14) * 1_000_000_000,
            fh as int,
            1_000_000_000_000_000,
        );
        lemma_tdiv_range(hc as int, 1000, 360_000);
    }
    let vpin = vp + tdiv_i64(hc, 1000);
    let base = CandleColoredSim::get_flame_base_hsv(vpin);
    let bright = clamp_i64(base.2 + hc, 0, 1_000_000);
    hsv_to_rgb(base.0, base.1, ((bright as u64) / 1000) as u32)
}

impl Simulation for CandleColoredSim {
    open spec fn wf(&self) -> bool {
        true
    }

    fn new(_leds: &[LED]) -> (sim: Self)
        ensures
            sim.spec_last_tick() == 0,
    {
        CandleColoredSim { last_tick: 0 }
    }

    fn get_name(&self) -> (name: &'static str) {
        "Candle flame (colored)"
    }

    /// The first twelve LEDs are painted by their group — wick black,
    /// base blue, flame by the profile — each color the exact candle
    /// spec of the LED's coordinates, the elapsed time and the
    /// intensity; further LEDs, and everything on a layout shorter than
    /// twelve, stay untouched.
    #[verifier::rlimit(60)]
    fn tick(&mut self, leds: &mut Vec<LED>, micros: u64, intensity_mod: u32)
        ensures
            final(self).spec_last_tick() == micros,
            old(leds)@.len() >= 12 ==> {
                &&& forall|i: int|
                    0 <= i < 12 ==> {
                        let t = spec_candle_color(
                            old(leds)@[i].coords.0 as int,
                            old(leds)@[i].coords.1 as int,
                            i,
                            micros as int,
                            intensity_mod as int,
                        );
                        let c = (#[trigger] final(leds)@[i]).color;
                        c.r == t.0 && c.g == t.1 && c.b == t.2
                    }
                &&& forall|i: int|
                    12 <= i < old(leds)@.len() ==> #[trigger] final(leds)@[i] == old(leds)@[i]
            },
            old(leds)@.len() < 12 ==> final(leds)@ == old(leds)@,
    {
        self.last_tick = micros;
        if leds.len() < CANDLE_LED_COUNT {
            return ;
        }
        let horiz = CandleColoredSim::get_horiz_flicker(micros);
        let vert = CandleColoredSim::get_vert_flicker(micros);
        proof {
            assert(-20_250_000_000 <= ((vert as int) + 10_000_000) * (intensity_mod as int)
                <= 20_250_000_000) by (nonlinear_arith)
                requires
                    -10_250_000 <= vert <= 10_250_000,
                    0 <= intensity_mod <= 1000,
            ;
        }
        let fh = tdiv_i64((vert + 10_000_000) * (intensity_mod as i64), 1000);
        proof {
            lemma_tdiv_range(
                ((vert as int) + 10_000_000) * (intensity_mod as int),
                1000,
                20_250_000_000,
            );
        }

        let mut i: usize = 0;
        while i < CANDLE_LED_COUNT
            invariant
                leds@.len() == old(leds)@.len(),
                leds@.len() >= 12,
                i <= 12,
                layout_bounded(old(leds)@),
                intensity_mod <= 1000,
                horiz == spec_horiz_flicker(micros as int),
                -3_600_000 <= horiz <= 3_600_000,
                vert == spec_vert_flicker(micros as int),
                -10_250_000 <= vert <= 10_250_000,
                fh == spec_flame_height(vert as int, intensity_mod as int),
                -20_250_000 <= fh <= 20_250_000,
                forall|j: int| i <= j < leds@.len() ==> #[trigger] leds@[j] == old(leds)@[j],
                forall|j: int|
                    0 <= j < leds@.len() ==> (#[trigger] leds@[j]).coords == old(leds)@[j].coords,
                forall|j: int|
                    0 <= j < i ==> {
                        let t = spec_candle_color(
                            old(leds)@[j].coords.0 as int,
                            old(leds)@[j].coords.1 as int,
                            j,
                            micros as int,
                            intensity_mod as int,
                        );
                        let c = (#[trigger] leds@[j]).color;
                        c.r == t.0 && c.g == t.1 && c.b == t.2
                    },
            decreases 12 - i,
        {
            let coords = leds[i].coords;
            assert(old(leds)@[i as int].coords.0 <= 1_000_000 && old(leds)@[i as int].coords.1
                <= 1_000_000);
            let color = if i == WICK_LED {
                RGB { r: 0, g: 0, b: 0 }
            } else if i == BLUE_LED_LEFT || i == BLUE_LED_RIGHT {
                blue_color(horiz, vert, intensity_mod, coords.0 as u64)
            } else {
                flame_color(horiz, fh, coords.0 as u64, coords.1 as u64)
            };
            leds[i] = LED { color, coords };
            i += 1;
        }
    }
}

/// Law: the candle is deterministic. Two layouts whose LEDs sit at the
/// same coordinates are painted the same colors for the same elapsed
/// time and intensity — the color spec reads nothing but coordinates,
/// time and intensity, so repeated ticks from a reset state reproduce
/// their output bit for bit.
pub proof fn lemma_candle_deterministic(a: Seq<LED>, b: Seq<LED>, micros: u64, intensity_mod: u32)
    requires
        a.len() == b.len(),
        forall|i: int| 0 <= i < a.len() ==> (#[trigger] a[i]).coords == b[i].coords,
    ensures
        forall|i: int|
            0 <= i < a.len() ==> #[trigger] spec_candle_color(
                a[i].coords.0 as int,
                a[i].coords.1 as int,
                i,
                micros as int,
                intensity_mod as int,
            ) == spec_candle_color(
                b[i].coords.0 as int,
                b[i].coords.1 as int,
                i,
                micros as int,
                intensity_mod as int,
            ),
{
}

} // verus!
