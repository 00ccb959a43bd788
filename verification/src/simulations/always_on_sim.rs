//! Steady-on: every LED lit at the same gray level, scaled by the user
//! intensity and ignoring elapsed time.

use vstd::prelude::*;
use crate::color::brightness_byte;
use crate::color::spec_brightness_byte;
use crate::types::LED;
use crate::types::RGB;
use crate::types::Simulation;

verus! {

/// The steady-on pattern. It keeps no state between ticks.
#[derive(Debug)]
pub struct AlwaysOnSim;

impl Simulation for AlwaysOnSim {
    open spec fn wf(&self) -> bool {
        true
    }

    fn new(_leds: &[LED]) -> (sim: Self) {
        AlwaysOnSim
    }

    fn get_name(&self) -> (name: &'static str) {
        "Always on"
    }

    /// Law: for every intensity, every LED is repainted to the gray whose
    /// three components are `255 * intensity`, rounded to the nearest
    /// byte — exactly black at intensity 0 and exactly white at 1000.
    fn tick(&mut self, leds: &mut Vec<LED>, micros: u64, intensity_mod: u32)
        ensures
            forall|i: int|
                0 <= i < old(leds)@.len() ==> {
                    let c = (#[trigger] final(leds)@[i]).color;
                    c.r == spec_brightness_byte(intensity_mod as int) && c.g == c.r && c.b == c.r
                },
    {
        let brightness = brightness_byte(intensity_mod);
        let n = leds.len();
        let mut i: usize = 0;
        while i < n
            invariant
                n == leds@.len(),
                leds@.len() == old(leds)@.len(),
                i <= n,
                forall|j: int| i <= j < n ==> #[trigger] leds@[j] == old(leds)@[j],
                forall|j: int| 0 <= j < n ==> (#[trigger] leds@[j]).coords == old(leds)@[j].coords,
                forall|j: int|
                    0 <= j < i ==> {
                        let c = (#[trigger] leds@[j]).color;
                        c.r == brightness && c.g == brightness && c.b == brightness
                    },
                brightness == spec_brightness_byte(intensity_mod as int),
            decreases n - i,
        {
            let coords = leds[i].coords;
            leds[i] = LED { color: RGB { r: brightness, g: brightness, b: brightness }, coords };
            i += 1;
        }
    }
}

} // verus!
