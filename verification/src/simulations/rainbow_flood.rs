//! Hue-rotating flood: a vertical rainbow band scrolls through the layout
//! at 120 degrees of hue per second, at full saturation, with the user
//! intensity as the HSV value.

use vstd::prelude::*;
use crate::color::hsv_to_rgb;
use crate::color::spec_hsv_to_rgb;
use crate::simulations::elapsed;
use crate::simulations::spec_dt;
use crate::types::LED;
use crate::types::Simulation;
use crate::types::layout_bounded;
use vstd::arithmetic::div_mod::lemma_fundamental_div_mod;
use vstd::arithmetic::div_mod::lemma_mod_multiples_vanish;
use vstd::arithmetic::div_mod::lemma_small_mod;

verus! {

/// A hue advanced by `dt` microseconds at 120 degrees per second (120
/// microdegrees per microsecond), wrapped into the hue circle.
pub open spec fn spec_advance_hue(hue: int, dt: int) -> int {
    (hue + 120 * dt) % 360_000_000
}

/// The vertical gradient term in microdegrees: the LED's height above the
/// layout's bottom, as a fraction of the pattern height, turned through a
/// full hue circle. A flat layout (pattern height zero) contributes
/// nothing, and a LED below the remembered bottom counts as sitting on
/// it.
pub open spec fn spec_flood_grad(y: int, min_y: int, ph: int) -> int {
    if ph == 0 {
        0
    } else {
        (if y >= min_y {
            y - min_y
        } else {
            0
        }) * 360_000_000 / ph
    }
}

/// The hue a LED at height `y` shows when the flood's base hue is `hue`.
pub open spec fn spec_local_hue(hue: int, y: int, min_y: int, ph: int) -> int {
    (hue + spec_flood_grad(y, min_y, ph)) % 360_000_000
}

/// The scrolling-rainbow pattern: the last tick time, the base hue in
/// microdegrees, and the layout's vertical extent cached at construction.
#[derive(Debug)]
pub struct RainbowFloodSim {
    last_tick: u64,
    hue: u64,
    pattern_height: u64,
    min_y: u64,
}

impl RainbowFloodSim {
    /// The elapsed-time stamp of the previous tick.
    pub closed spec fn spec_last_tick(&self) -> u64 {
        self.last_tick
    }

    /// The base hue in microdegrees.
    pub closed spec fn spec_hue(&self) -> u64 {
        self.hue
    }

    /// The layout's vertical span, cached at construction.
    pub closed spec fn spec_pattern_height(&self) -> u64 {
        self.pattern_height
    }

    /// The layout's lowest y coordinate, cached at construction.
    pub closed spec fn spec_min_y(&self) -> u64 {
        self.min_y
    }

    /// The base hue in microdegrees.
    pub fn hue(&self) -> (h: u64)
        ensures
            h == self.spec_hue(),
    {
        self.hue
    }
}

impl Simulation for RainbowFloodSim {
    closed spec fn wf(&self) -> bool {
        self.hue < 360_000_000 && self.pattern_height <= 1_000_000 && self.min_y <= 1_000_000
    }

    /// Cache the layout's lowest y coordinate and vertical span; an empty
    /// layout counts as flat at height zero.
    fn new(leds: &[LED]) -> (sim: Self)
        ensures
            sim.spec_last_tick() == 0,
            sim.spec_hue() == 0,
            leds@.len() == 0 ==> sim.spec_pattern_height() == 0 && sim.spec_min_y() == 0,
            leds@.len() > 0 ==> {
                &&& exists|i: int|
                    0 <= i < leds@.len() && sim.spec_min_y() == (#[trigger] leds@[i]).coords.1
                &&& forall|i: int|
                    0 <= i < leds@.len() ==> sim.spec_min_y() <= (#[trigger] leds@[i]).coords.1
                &&& exists|i: int|
                    0 <= i < leds@.len() && sim.spec_min_y() + sim.spec_pattern_height() == (
                    #[trigger] leds@[i]).coords.1
                &&& forall|i: int|
                    0 <= i < leds@.len() ==> (#[trigger] leds@[i]).coords.1 <= sim.spec_min_y()
                        + sim.spec_pattern_height()
            },
    {
        let n = leds.len();
        let mut min_y: usize = 0;
        let mut max_y: usize = 0;
        if n > 0 {
            min_y = leds[0].coords.1;
            max_y = leds[0].coords.1;
            let mut i: usize = 1;
            while i < n
                invariant
                    1 <= i <= n,
                    n == leds@.len(),
                    layout_bounded(leds@),
                    min_y <= max_y,
                    exists|j: int| 0 <= j < i && min_y == (#[trigger] leds@[j]).coords.1,
                    forall|j: int| 0 <= j < i ==> min_y <= (#[trigger] leds@[j]).coords.1,
                    exists|j: int| 0 <= j < i && max_y == (#[trigger] leds@[j]).coords.1,
                    forall|j: int| 0 <= j < i ==> (#[trigger] leds@[j]).coords.1 <= max_y,
                decreases n - i,
            {
                let y = leds[i].coords.1;
                if y < min_y {
                    min_y = y;
                }
                if y > max_y {
                    max_y = y;
                }
                i += 1;
            }
        }
        proof {
            if leds@.len() > 0 {
                assert(leds@[choose|j: int|
                    0 <= j < leds@.len() && max_y == leds@[j].coords.1].coords.1 <= 1_000_000);
            }
        }
        RainbowFloodSim {
            last_tick: 0,
            hue: 0,
            pattern_height: (max_y - min_y) as u64,
            min_y: min_y as u64,
        }
    }

    fn get_name(&self) -> (name: &'static str) {
        "Rainbow flood"
    }

    /// The base hue advances by the elapsed time since the previous tick,
    /// and every LED is painted with the full-saturation conversion of
    /// its local hue, with the user intensity as the HSV value.
    fn tick(&mut self, leds: &mut Vec<LED>, micros: u64, intensity_mod: u32)
        ensures
            final(self).spec_last_tick() == micros,
            final(self).spec_pattern_height() == old(self).spec_pattern_height(),
            final(self).spec_min_y() == old(self).spec_min_y(),
            final(self).spec_hue() == spec_advance_hue(
                old(self).spec_hue() as int,
                spec_dt(micros as int, old(self).spec_last_tick() as int),
            ),
            forall|i: int|
                0 <= i < old(leds)@.len() ==> {
                    let t = spec_hsv_to_rgb(
                        spec_local_hue(
                            final(self).spec_hue() as int,
                            old(leds)@[i].coords.1 as int,
                            old(self).spec_min_y() as int,
                            old(self).spec_pattern_height() as int,
                        ),
                        1000,
                        intensity_mod as int,
                    );
                    let c = (#[trigger] final(leds)@[i]).color;
                    c.r == t.0 && c.g == t.1 && c.b == t.2
                },
    {
        let dt = elapsed(micros, self.last_tick);
        self.last_tick = micros;
        let wide: u128 = (self.hue as u128) + 120u128 * (dt as u128);
        self.hue = (wide % 360_000_000u128) as u64;

        let n = leds.len();
        let mut i: usize = 0;
        while i < n
            invariant
                n == leds@.len(),
                leds@.len() == old(leds)@.len(),
                i <= n,
                layout_bounded(old(leds)@),
                intensity_mod <= 1000,
                self.hue < 360_000_000,
                self.pattern_height <= 1_000_000,
                self.hue == spec_advance_hue(
                    old(self).spec_hue() as int,
                    spec_dt(micros as int, old(self).spec_last_tick() as int),
                ),
                self.last_tick == micros,
                self.pattern_height == old(self).spec_pattern_height(),
                self.min_y == old(self).spec_min_y(),
                forall|j: int| i <= j < n ==> #[trigger] leds@[j] == old(leds)@[j],
                forall|j: int|
                    0 <= j < n ==> (#[trigger] leds@[j]).coords == old(leds)@[j].coords,
                forall|j: int|
                    0 <= j < i ==> {
                        let t = spec_hsv_to_rgb(
                            spec_local_hue(
                                self.hue as int,
                                old(leds)@[j].coords.1 as int,
                                self.min_y as int,
                                self.pattern_height as int,
                            ),
                            1000,
                            intensity_mod as int,
                        );
                        let c = (#[trigger] leds@[j]).color;
                        c.r == t.0 && c.g == t.1 && c.b == t.2
                    },
            decreases n - i,
        {
            let coords = leds[i].coords;
            let y: u64 = coords.1 as u64;
            assert(old(leds)@[i as int].coords.1 <= 1_000_000);
            let grad: u64 = if self.pattern_height == 0 {
                0
            } else {
                let dy: u64 = if y >= self.min_y {
                    y - self.min_y
                } else {
                    0
                };
                dy * 360_000_000 / self.pattern_height
            };
            let local: u64 = (self.hue + grad) % 360_000_000;
            let color = hsv_to_rgb(local, 1000, intensity_mod);
            leds[i] = LED { color, coords };
            i += 1;
        }
    }
}

/// Law: advancing the hue by any stretch of time whose accumulated hue
/// motion is a whole number of full circles brings it back exactly, and
/// with it every LED's local hue — the flood is periodic in the
/// accumulated rotation.
pub proof fn lemma_full_cycle_returns_hue(hue: int, dt: int)
    requires
        0 <= hue < 360_000_000,
        0 <= dt,
        (120 * dt) % 360_000_000 == 0,
    ensures
        spec_advance_hue(hue, dt) == hue,
        forall|y: int, min_y: int, ph: int|
            #[trigger] spec_local_hue(spec_advance_hue(hue, dt), y, min_y, ph) == spec_local_hue(
                hue,
                y,
                min_y,
                ph,
            ),
{
    let q = (120 * dt) / 360_000_000;
    lemma_fundamental_div_mod(120 * dt, 360_000_000);
    assert(hue + 120 * dt == 360_000_000 * q + hue);
    lemma_mod_multiples_vanish(q, hue, 360_000_000);
    lemma_small_mod(hue as nat, 360_000_000nat);
}

} // verus!
