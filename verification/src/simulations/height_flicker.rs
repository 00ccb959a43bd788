//! Vertical flicker band: a horizontal "burn line" random-walks up and
//! down the layout, pulled gently back toward the middle, and each LED's
//! brightness falls off with its distance from the line.
//!
//! The line's position is in thousandths of the pattern height. Each
//! tick draws one uniform random nudge; everything after the draw is an
//! exact function of the drawn value, so the clamping law below holds
//! whatever the generator returns.

use vstd::prelude::*;
use crate::color::scale_byte;
use crate::color::spec_scale_byte;
use crate::fixedpoint::clamp_i64;
use crate::fixedpoint::lemma_tdiv_range;
use crate::fixedpoint::spec_clamp;
use crate::fixedpoint::spec_tdiv;
use crate::fixedpoint::tdiv_i64;
use crate::simulations::elapsed;
use crate::simulations::spec_dt;
use crate::types::LED;
use crate::types::RGB;
use crate::types::Simulation;
use crate::types::layout_bounded;

verus! {

/// Ticks further apart than this many microseconds count as exactly this
/// far apart; it keeps every product below inside 64 bits, and a frame
/// pause this long saturates the walk anyway.
pub const MAX_STEP_MICROS: u64 = 10_000_000;

/// How far the line may walk per second, in thousandths of the height
/// per thousandths of a draw: half a height at rest, up to six and a
/// half at full intensity.
pub open spec fn spec_variance(intensity: int) -> int {
    6 * intensity + 500
}

/// One random nudge: the draw (in thousandths, centered on 500) times
/// the variance, scaled by the elapsed seconds.
pub open spec fn spec_nudge(draw: int, intensity: int, dtc: int) -> int {
    spec_tdiv((draw - 500) * spec_variance(intensity) * dtc, 1_000_000_000)
}

/// The centering bias: a fifth of the line's distance from the middle
/// per second of elapsed time.
pub open spec fn spec_center_bias(height: int, dtc: int) -> int {
    spec_tdiv((500 - height) * dtc, 5_000_000)
}

/// Where the line stands after one tick: nudge, then centering bias,
/// then a clamp into the layout, in thousandths of the pattern height.
pub open spec fn spec_step_height(height: int, draw: int, intensity: int, dt: int) -> int {
    let dtc = if dt > 10_000_000 {
        10_000_000int
    } else {
        dt
    };
    let h1 = height + spec_nudge(draw, intensity, dtc);
    let h2 = h1 + spec_center_bias(h1, dtc);
    spec_clamp(h2, 0, 1000)
}

/// A LED's brightness in thousandths: full more than two units below the
/// line, dark more than two units above it, and a linear falloff with
/// the distance in between (the asymmetry is intentional).
pub open spec fn spec_band_brightness(y: int, height: int, ph: int) -> int {
    let dist = 1000 * y - height * ph;
    if dist > 2000 {
        0
    } else if dist < -2000 {
        1000
    } else {
        1000 - (if dist >= 0 {
            dist
        } else {
            -dist
        }) / 2
    }
}

/// Law: whatever the draw, the intensity, the starting position and the
/// elapsed time — however many ticks have come before — the stepped
/// burn line lies in `0..=1000`: the walk can never leave the layout.
pub proof fn lemma_step_height_stays_clamped(height: int, draw: int, intensity: int, dt: int)
    ensures
        0 <= spec_step_height(height, draw, intensity, dt) <= 1000,
{
}

/// Relies on rand::random_range: a sample out of the handed range, here
/// `0..=1000`, so the result is at most 1000. Nothing more is assumed of
/// the draw.
#[verifier::external_body]
fn random_milli() -> (draw: u32)
    ensures
        draw <= 1000,
{
    rand::random_range(0u32..=1000u32)
}

/// Advance the burn line by one tick, given the random draw: the
/// returned position is the nudged, centered and clamped height, and in
/// particular never leaves `0..=1000`.
pub fn step_height(height: u32, draw: u32, intensity_mod: u32, dt: u64) -> (h: u32)
    requires
        height <= 1000,
        draw <= 1000,
        intensity_mod <= 1000,
    ensures
        h == spec_step_height(height as int, draw as int, intensity_mod as int, dt as int),
        h <= 1000,
{
    let dtc: i64 = if dt > MAX_STEP_MICROS {
        10_000_000
    } else {
        dt as i64
    };
    let vps: i64 = 6 * (intensity_mod as i64) + 500;
    proof {
        assert(-3_250_000 <= ((draw as int) - 500) * vps <= 3_250_000) by (nonlinear_arith)
            requires
                -500 <= (draw as int) - 500 <= 500,
                0 <= vps <= 6500,
        ;
        assert(-32_500_000_000_000 <= ((draw as int) - 500) * vps * dtc <= 32_500_000_000_000)
            by (nonlinear_arith)
            requires
                -3_250_000 <= ((draw as int) - 500) * vps <= 3_250_000,
                0 <= dtc <= 10_000_000,
        ;
    }
    let nudge: i64 = tdiv_i64(((draw as i64) - 500) * vps * dtc, 1_000_000_000);
    proof {
        lemma_tdiv_range(
            ((draw as int) - 500) * vps * dtc,
            1_000_000_000,
            32_500_000_000_000,
        );
    }
    let h1: i64 = (height as i64) + nudge;
    proof {
        assert(-330_000_000_000 <= (500 - h1) * dtc <= 330_000_000_000) by (nonlinear_arith)
            requires
                -33_000 <= 500 - h1 <= 33_000,
                0 <= dtc <= 10_000_000,
        ;
    }
    let bias: i64 = tdiv_i64((500 - h1) * dtc, 5_000_000);
    proof {
        lemma_tdiv_range((500 - h1) * dtc, 5_000_000, 330_000_000_000);
    }
    let h2: i64 = h1 + bias;
    clamp_i64(h2, 0, 1000) as u32
}

/// The flickering-band pattern: the last tick time, the line's position
/// in thousandths, and the layout's vertical span cached at
/// construction.
#[derive(Debug)]
pub struct HeightFlickerSim {
    last_tick: u64,
    current_height: u32,
    pattern_height: u64,
}

impl HeightFlickerSim {
    /// The elapsed-time stamp of the previous tick.
    pub closed spec fn spec_last_tick(&self) -> u64 {
        self.last_tick
    }

    /// The burn line's position in thousandths of the pattern height.
    pub closed spec fn spec_current_height(&self) -> u32 {
        self.current_height
    }

    /// The layout's vertical span, cached at construction.
    pub closed spec fn spec_pattern_height(&self) -> u64 {
        self.pattern_height
    }

    /// The burn line's position in thousandths; it never leaves
    /// `0..=1000`.
    pub fn current_height(&self) -> (h: u32)
        requires
            self.wf(),
        ensures
            h == self.spec_current_height(),
            h <= 1000,
    {
        self.current_height
    }
}

impl Simulation for HeightFlickerSim {
    closed spec fn wf(&self) -> bool {
        self.current_height <= 1000 && self.pattern_height <= 1_000_000
    }

    /// Cache the layout's vertical span and start the line in the
    /// middle; an empty layout counts as flat at height zero.
    fn new(leds: &[LED]) -> (sim: Self)
        ensures
            sim.spec_last_tick() == 0,
            sim.spec_current_height() == 500,
            leds@.len() == 0 ==> sim.spec_pattern_height() == 0,
            leds@.len() > 0 ==> {
                &&& exists|i: int, j: int|
                    0 <= i < leds@.len() && 0 <= j < leds@.len()
                        && sim.spec_pattern_height() == (#[trigger] leds@[i]).coords.1 - (
                    #[trigger] leds@[j]).coords.1
                &&& forall|i: int, j: int|
                    0 <= i < leds@.len() && 0 <= j < leds@.len()
                        ==> (#[trigger] leds@[i]).coords.1 - (#[trigger] leds@[j]).coords.1
                        <= sim.spec_pattern_height()
            },
    {
        let n = leds.len();
        let mut min_y: usize = 0;
        let mut max_y: usize = 0;
        if n > 0 {
            min_y = leds[0].coords.1;
            max_y = leds[0].coords.1;
            let mut i: usize = 1;
            while i < n
                invariant
                    1 <= i <= n,
                    n == leds@.len(),
                    layout_bounded(leds@),
                    min_y <= max_y,
                    exists|j: int| 0 <= j < i && min_y == (#[trigger] leds@[j]).coords.1,
                    forall|j: int| 0 <= j < i ==> min_y <= (#[trigger] leds@[j]).coords.1,
                    exists|j: int| 0 <= j < i && max_y == (#[trigger] leds@[j]).coords.1,
                    forall|j: int| 0 <= j < i ==> (#[trigger] leds@[j]).coords.1 <= max_y,
                decreases n - i,
            {
                let y = leds[i].coords.1;
                if y < min_y {
                    min_y = y;
                }
                if y > max_y {
                    max_y = y;
                }
                i += 1;
            }
        }
        proof {
            if leds@.len() > 0 {
                assert(leds@[choose|j: int|
                    0 <= j < leds@.len() && max_y == leds@[j].coords.1].coords.1 <= 1_000_000);
            }
        }
        HeightFlickerSim {
            last_tick: 0,
            current_height: 500,
            pattern_height: (max_y - min_y) as u64,
        }
    }

    fn get_name(&self) -> (name: &'static str) {
        "Height flicker"
    }

    /// Law: whatever the generator draws, the line's new position is the
    /// exact nudged-centered-clamped step for some draw in `0..=1000`,
    /// so it never leaves `0..=1000` across arbitrarily many ticks; and
    /// every LED is painted the fixed orange scaled by its distance from
    /// the line.
    fn tick(&mut self, leds: &mut Vec<LED>, micros: u64, intensity_mod: u32)
        ensures
            final(self).spec_last_tick() == micros,
            final(self).spec_pattern_height() == old(self).spec_pattern_height(),
            final(self).spec_current_height() <= 1000,
            exists|draw: int|
                0 <= draw <= 1000 && final(self).spec_current_height() == spec_step_height(
                    old(self).spec_current_height() as int,
                    draw,
                    intensity_mod as int,
                    spec_dt(micros as int, old(self).spec_last_tick() as int),
                ),
            forall|i: int|
                0 <= i < old(leds)@.len() ==> {
                    let b = spec_band_brightness(
                        old(leds)@[i].coords.1 as int,
                        final(self).spec_current_height() as int,
                        old(self).spec_pattern_height() as int,
                    );
                    let c = (#[trigger] final(leds)@[i]).color;
                    c.r == spec_scale_byte(255, b) && c.g == spec_scale_byte(30, b) && c.b == 0
                },
    {
        let draw = random_milli();
        let dt = elapsed(micros, self.last_tick);
        self.last_tick = micros;
        self.current_height = step_height(self.current_height, draw, intensity_mod, dt);

        let n = leds.len();
        let mut i: usize = 0;
        while i < n
            invariant
                n == leds@.len(),
                leds@.len() == old(leds)@.len(),
                i <= n,
                layout_bounded(old(leds)@),
                self.current_height <= 1000,
                self.pattern_height <= 1_000_000,
                self.pattern_height == old(self).spec_pattern_height(),
                forall|j: int| i <= j < n ==> #[trigger] leds@[j] == old(leds)@[j],
                forall|j: int|
                    0 <= j < n ==> (#[trigger] leds@[j]).coords == old(leds)@[j].coords,
                forall|j: int|
                    0 <= j < i ==> {
                        let b = spec_band_brightness(
                            old(leds)@[j].coords.1 as int,
                            self.current_height as int,
                            self.pattern_height as int,
                        );
                        let c = (#[trigger] leds@[j]).color;
                        c.r == spec_scale_byte(255, b) && c.g == spec_scale_byte(30, b) && c.b
                            == 0
                    },
            decreases n - i,
        {
            let coords = leds[i].coords;
            assert(old(leds)@[i as int].coords.1 <= 1_000_000);
            proof {
                assert((self.current_height as int) * (self.pattern_height as int)
                    <= 1_000_000_000) by (nonlinear_arith)
                    requires
                        self.current_height <= 1000,
                        self.pattern_height <= 1_000_000,
                ;
            }
            let dist: i64 = 1000 * (coords.1 as i64) - (self.current_height as i64) * (
            self.pattern_height as i64);
            let b: u32 = if dist > 2000 {
                0
            } else if dist < -2000 {
                1000
            } else {
                let ad: u64 = if dist >= 0 {
                    dist as u64
                } else {
                    (-dist) as u64
                };
                1000 - (ad / 2) as u32
            };
            let color = RGB { r: scale_byte(255, b), g: scale_byte(30, b), b: 0 };
            leds[i] = LED { color, coords };
            i += 1;
        }
        proof {
            // The drawn value witnesses the existential in the contract.
            assert(0 <= draw as int <= 1000 && self.current_height == spec_step_height(
                old(self).spec_current_height() as int,
                draw as int,
                intensity_mod as int,
                spec_dt(micros as int, old(self).spec_last_tick() as int),
            ));
        }
    }
}

} // verus!
