//! Small helpers for the fixed-point arithmetic the simulations run on:
//! truncating division, Euclidean remainder, clamping and sign, each with
//! an exact specification.

use vstd::prelude::*;
use vstd::arithmetic::div_mod::lemma_fundamental_div_mod;
use vstd::arithmetic::div_mod::lemma_fundamental_div_mod_converse_mod;
use vstd::arithmetic::div_mod::lemma_div_is_ordered;

verus! {

/// Division that truncates toward zero, the way hardware division does;
/// `int` division alone would round toward minus infinity.
pub open spec fn spec_tdiv(a: int, b: int) -> int {
    if a >= 0 {
        a / b
    } else {
        -((-a) / b)
    }
}

/// Truncating division of a signed value by a positive divisor.
pub fn tdiv_i64(a: i64, b: i64) -> (q: i64)
    requires
        b > 0,
        a > i64::MIN,
    ensures
        q == spec_tdiv(a as int, b as int),
{
    if a >= 0 {
        let q: u64 = (a as u64) / (b as u64);
        proof {
            lemma_div_is_ordered(a as int, i64::MAX as int, b as int);
            vstd::arithmetic::div_mod::lemma_div_pos_is_pos(a as int, b as int);
        }
        q as i64
    } else {
        let n: u64 = (-a) as u64;
        let q: u64 = n / (b as u64);
        proof {
            lemma_div_is_ordered(n as int, i64::MAX as int, b as int);
            vstd::arithmetic::div_mod::lemma_div_pos_is_pos(n as int, b as int);
        }
        -(q as i64)
    }
}

/// Bound a truncating quotient from a bound on its numerator.
pub proof fn lemma_tdiv_range(a: int, b: int, m: int)
    requires
        b > 0,
        0 <= m,
        -m <= a <= m,
    ensures
        -(m / b) <= spec_tdiv(a, b) <= m / b,
{
    if a >= 0 {
        lemma_div_is_ordered(a, m, b);
        vstd::arithmetic::div_mod::lemma_div_pos_is_pos(a, b);
    } else {
        lemma_div_is_ordered(-a, m, b);
        vstd::arithmetic::div_mod::lemma_div_pos_is_pos(-a, b);
    }
}

/// Truncating division extended to a divisor of either sign.
pub open spec fn spec_tdiv2(a: int, b: int) -> int {
    if b > 0 {
        spec_tdiv(a, b)
    } else {
        -spec_tdiv(a, -b)
    }
}

/// Bound a truncating quotient by the bound on its numerator, whatever
/// the sign of the divisor.
pub proof fn lemma_tdiv2_range(a: int, b: int, m: int)
    requires
        b != 0,
        0 <= m,
        -m <= a <= m,
    ensures
        -m <= spec_tdiv2(a, b) <= m,
{
    let bb = if b > 0 {
        b
    } else {
        -b
    };
    lemma_tdiv_range(a, bb, m);
    vstd::arithmetic::div_mod::lemma_div_is_ordered_by_denominator(m, 1, bb);
    vstd::arithmetic::div_mod::lemma_div_basics(m);
}

/// Truncating division of a signed value by a nonzero signed divisor.
pub fn tdiv2_i64(a: i64, b: i64) -> (q: i64)
    requires
        b != 0,
        a > i64::MIN,
        b > i64::MIN,
    ensures
        q == spec_tdiv2(a as int, b as int),
{
    proof {
        let m = if a >= 0 {
            a as int
        } else {
            -(a as int)
        };
        lemma_tdiv2_range(a as int, b as int, m);
    }
    if b > 0 {
        tdiv_i64(a, b)
    } else {
        -tdiv_i64(a, -b)
    }
}

/// Euclidean remainder of a signed value by a positive modulus: the result
/// is always in `[0, m)`, also for negative inputs.
pub fn emod_i64(a: i64, m: i64) -> (r: i64)
    requires
        m > 0,
        a > i64::MIN,
    ensures
        r == a as int % m as int,
        0 <= r < m,
{
    if a >= 0 {
        let r: u64 = (a as u64) % (m as u64);
        r as i64
    } else {
        let n: u64 = (-a) as u64;
        let k: u64 = n % (m as u64);
        let ghost q = n as int / m as int;
        proof {
            lemma_fundamental_div_mod(n as int, m as int);
        }
        if k == 0 {
            proof {
                assert(a as int == (-q) * (m as int) + 0) by (nonlinear_arith)
                    requires
                        a as int == -(n as int),
                        n as int == (m as int) * q + k as int,
                        k == 0,
                ;
                lemma_fundamental_div_mod_converse_mod(a as int, m as int, -q, 0);
            }
            0
        } else {
            proof {
                assert(a as int == (-q - 1) * (m as int) + (m as int - k as int))
                    by (nonlinear_arith)
                    requires
                        a as int == -(n as int),
                        n as int == (m as int) * q + k as int,
                ;
                lemma_fundamental_div_mod_converse_mod(
                    a as int,
                    m as int,
                    -q - 1,
                    m as int - k as int,
                );
            }
            m - (k as i64)
        }
    }
}

/// Force a value into `[lo, hi]`.
pub open spec fn spec_clamp(x: int, lo: int, hi: int) -> int {
    if x < lo {
        lo
    } else if x > hi {
        hi
    } else {
        x
    }
}

/// Force a value into `[lo, hi]`.
pub fn clamp_i64(x: i64, lo: i64, hi: i64) -> (r: i64)
    requires
        lo <= hi,
    ensures
        r == spec_clamp(x as int, lo as int, hi as int),
{
    if x < lo {
        lo
    } else if x > hi {
        hi
    } else {
        x
    }
}

/// The sign factor used by the flame flickers: `1` for a non-negative
/// value, `-1` otherwise (zero counts as positive, as the board's float
/// prototype did).
pub open spec fn spec_sgn(x: int) -> int {
    if x >= 0 {
        1
    } else {
        -1
    }
}

/// The sign factor of a value, `1` or `-1`.
pub fn sgn_i64(x: i64) -> (s: i64)
    ensures
        s == spec_sgn(x as int),
{
    if x >= 0 {
        1
    } else {
        -1
    }
}

} // verus!
