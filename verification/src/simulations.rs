//! The simulation variants: each implements the
//! [`crate::types::Simulation`] contract with an exact, per-variant
//! postcondition on every LED color it paints.

use vstd::prelude::*;

pub mod always_on_sim;
pub mod candle_colored;
pub mod flash_every_second;
pub mod height_flicker;
pub mod rainbow_flood;

verus! {

/// The time that has passed since a variant's previous tick. A first call
/// may report the same stamp as the stored zero, and a clock that jumped
/// backward counts as no time passed at all.
pub open spec fn spec_dt(micros: int, last: int) -> int {
    if micros >= last {
        micros - last
    } else {
        0
    }
}

/// The microseconds elapsed between the previous tick and this one,
/// saturating at zero if the reported time moved backward.
pub fn elapsed(micros: u64, last: u64) -> (dt: u64)
    ensures
        dt == spec_dt(micros as int, last as int),
{
    if micros >= last {
        micros - last
    } else {
        0
    }
}

} // verus!
