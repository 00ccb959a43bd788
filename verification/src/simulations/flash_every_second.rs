//! Periodic flash: all LEDs toggle between gray and black once a second
//! of accumulated elapsed time.
//!
//! The reference time resets to the actual tick time on each toggle, not
//! to a fixed one-second grid, so the period drifts with call jitter;
//! that is the intended behavior, not an idealized modulo clock.

use vstd::prelude::*;
use crate::color::brightness_byte;
use crate::color::spec_brightness_byte;
use crate::types::LED;
use crate::types::RGB;
use crate::types::Simulation;

verus! {

/// Microseconds of accumulated time between toggles.
pub const FLASH_PERIOD_MICROS: u64 = 1_000_000;

/// The flashing pattern: the last toggle time and the current on/off
/// phase.
#[derive(Debug)]
pub struct FlashEverySecondSim {
    last_flash: u64,
    on_now: bool,
}

impl FlashEverySecondSim {
    /// The elapsed-time stamp of the last toggle.
    pub closed spec fn spec_last_flash(&self) -> u64 {
        self.last_flash
    }

    /// Whether the LEDs are currently in the lit phase.
    pub closed spec fn spec_on_now(&self) -> bool {
        self.on_now
    }

    /// Whether the LEDs are currently in the lit phase.
    pub fn on_now(&self) -> (on: bool)
        ensures
            on == self.spec_on_now(),
    {
        self.on_now
    }
}

impl Simulation for FlashEverySecondSim {
    open spec fn wf(&self) -> bool {
        true
    }

    fn new(_leds: &[LED]) -> (sim: Self)
        ensures
            sim.spec_last_flash() == 0,
            !sim.spec_on_now(),
    {
        FlashEverySecondSim { last_flash: 0, on_now: false }
    }

    fn get_name(&self) -> (name: &'static str) {
        "Flash every second"
    }

    /// Law: the phase toggles exactly when a full second has accumulated
    /// since the last toggle. On a toggle the reference time resets to
    /// the tick's own time and every LED is painted gray (lit phase) or
    /// black (dark phase); otherwise neither the state nor any LED
    /// changes.
    fn tick(&mut self, leds: &mut Vec<LED>, micros: u64, intensity_mod: u32)
        ensures
            micros >= old(self).spec_last_flash() + FLASH_PERIOD_MICROS ==> {
                &&& final(self).spec_on_now() == !old(self).spec_on_now()
                &&& final(self).spec_last_flash() == micros
                &&& forall|i: int|
                    0 <= i < old(leds)@.len() ==> {
                        let c = (#[trigger] final(leds)@[i]).color;
                        if final(self).spec_on_now() {
                            c.r == spec_brightness_byte(intensity_mod as int) && c.g == c.r
                                && c.b == c.r
                        } else {
                            c.r == 0 && c.g == 0 && c.b == 0
                        }
                    }
            },
            micros < old(self).spec_last_flash() + FLASH_PERIOD_MICROS ==> {
                &&& *final(self) == *old(self)
                &&& final(leds)@ == old(leds)@
            },
    {
        if micros >= self.last_flash && micros - self.last_flash >= FLASH_PERIOD_MICROS {
            self.on_now = !self.on_now;
            self.last_flash = micros;

            let brightness = brightness_byte(intensity_mod);
            let color = if self.on_now {
                RGB { r: brightness, g: brightness, b: brightness }
            } else {
                RGB { r: 0, g: 0, b: 0 }
            };
            let n = leds.len();
            let mut i: usize = 0;
            while i < n
                invariant
                    n == leds@.len(),
                    leds@.len() == old(leds)@.len(),
                    i <= n,
                    forall|j: int| i <= j < n ==> #[trigger] leds@[j] == old(leds)@[j],
                    forall|j: int|
                        0 <= j < n ==> (#[trigger] leds@[j]).coords == old(leds)@[j].coords,
                    forall|j: int| 0 <= j < i ==> (#[trigger] leds@[j]).color == color,
                    self.on_now ==> color.r == spec_brightness_byte(intensity_mod as int)
                        && color.g == color.r && color.b == color.r,
                    !self.on_now ==> color.r == 0 && color.g == 0 && color.b == 0,
                decreases n - i,
            {
                let coords = leds[i].coords;
                leds[i] = LED { color, coords };
                i += 1;
            }
        }
    }
}

} // verus!
