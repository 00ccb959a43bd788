//! A fixed-point sine for the flicker signals: input in milliradians,
//! output in millionths of a unit, built from Bhaskara's rational
//! approximation on each half period so that the signal is an exact,
//! reproducible function of its argument.

use vstd::prelude::*;
use crate::fixedpoint::emod_i64;
use vstd::arithmetic::div_mod::lemma_div_is_ordered;
use vstd::arithmetic::div_mod::lemma_div_pos_is_pos;

verus! {

/// Milliradians in a half turn (pi, rounded to keep the period even).
pub const SIN_HALF_TURN: i64 = 3141;

/// Milliradians in a full turn of the sine's period.
pub const SIN_PERIOD: i64 = 6282;

/// Bhaskara's approximation of `sin` on the first half period, scaled to
/// millionths: `16 x (pi - x) / (5 pi^2 - 4 x (pi - x))` with `x` in
/// milliradians from 0 to [`SIN_HALF_TURN`].
#[verifier::opaque]
pub open spec fn spec_sin_half(x: int) -> int {
    let w = x * (3141 - x);
    (16 * w * 1_000_000) / (5 * 3141 * 3141 - 4 * w)
}

/// The sine of any angle in milliradians, in millionths: the angle is
/// reduced to one period and the second half period mirrors the first.
#[verifier::opaque]
pub open spec fn spec_sin_milli(x: int) -> int {
    let ph = x % 6282;
    if ph < 3141 {
        spec_sin_half(ph)
    } else {
        -spec_sin_half(ph - 3141)
    }
}

/// Bhaskara's half-period sine. The numerator never exceeds the
/// denominator times a million, so the result stays within one unit.
fn sin_half(x: u64) -> (s: u64)
    requires
        x <= 3141,
    ensures
        s == spec_sin_half(x as int),
        s <= 1_000_000,
{
    proof {
        // 4 x (pi - x) <= pi^2 because (pi - 2 x)^2 >= 0.
        assert(0 <= 4 * (x * (3141 - x)) <= 3141 * 3141) by (nonlinear_arith)
            requires
                0 <= x <= 3141,
        ;
    }
    let w: u64 = x * (3141 - x);
    let p: u64 = 16 * w * 1_000_000;
    let q: u64 = 5 * 3141 * 3141 - 4 * w;
    proof {
        reveal(spec_sin_half);
        // 16 w * 1e6 <= 1e6 * (5 pi^2 - 4 w)  <==>  20 w <= 5 pi^2.
        assert(p <= 1_000_000 * (q as int)) by (nonlinear_arith)
            requires
                p == 16 * w * 1_000_000,
                q == 5 * 3141 * 3141 - 4 * w,
                4 * w <= 3141 * 3141,
        ;
        lemma_div_is_ordered(p as int, 1_000_000 * (q as int), q as int);
        vstd::arithmetic::div_mod::lemma_div_multiples_vanish(1_000_000, q as int);
        lemma_div_pos_is_pos(p as int, q as int);
    }
    p / q
}

/// The sine of an angle in milliradians, in millionths of a unit. The
/// result is an exact function of the argument and lies within one unit
/// in magnitude.
pub fn sin_milli(x: i64) -> (s: i64)
    requires
        x > i64::MIN,
    ensures
        s == spec_sin_milli(x as int),
        -1_000_000 <= s <= 1_000_000,
{
    proof {
        reveal(spec_sin_milli);
    }
    let ph: i64 = emod_i64(x, SIN_PERIOD);
    if ph < SIN_HALF_TURN {
        sin_half(ph as u64) as i64
    } else {
        -(sin_half((ph - SIN_HALF_TURN) as u64) as i64)
    }
}

} // verus!
