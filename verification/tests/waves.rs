//! Tests of the fixed-point sine underneath the flicker signals:
//! exact values, symmetry, and periodicity.

use flame_sim::simulations::candle_colored::phase;
use flame_sim::trig::sin_milli;

#[test]
fn sine_at_the_landmarks() {
    assert_eq!(sin_milli(0), 0);
    // Half a turn.
    assert_eq!(sin_milli(3141), 0);
    // The peak of Bhaskara's approximation, one short of a full unit.
    assert_eq!(sin_milli(1570), 999_999);
    assert_eq!(sin_milli(1571), 999_999);
    // The trough mirrors the peak.
    assert_eq!(sin_milli(3141 + 1570), -999_999);
    // A full period.
    assert_eq!(sin_milli(6282), 0);
}

#[test]
fn sine_approximates_the_real_thing() {
    // sin(1) = 0.8415, sin(2) = 0.9093, sin(4) = -0.7568: the rational
    // approximation lands within about two thousandths.
    let s1 = sin_milli(1000);
    assert!((838_000..=844_000).contains(&s1));
    let s2 = sin_milli(2000);
    assert!((906_000..=912_000).contains(&s2));
    let s4 = sin_milli(4000);
    assert!((-760_000..=-754_000).contains(&s4));
}

#[test]
fn sine_is_odd_and_periodic() {
    for x in [1i64, 700, 1570, 2500, 3141, 4000, 6000] {
        assert_eq!(sin_milli(-x), -sin_milli(x));
        assert_eq!(sin_milli(x + 6282), sin_milli(x));
        assert_eq!(sin_milli(x - 6282 * 5), sin_milli(x));
    }
}

#[test]
fn sine_stays_within_one_unit() {
    let mut x: i64 = -40_000;
    while x <= 40_000 {
        let s = sin_milli(x);
        assert!((-1_000_000..=1_000_000).contains(&s));
        x += 137;
    }
}

#[test]
fn phase_converts_seconds_to_milliradians() {
    // One radian per second for one second: a thousand milliradians.
    assert_eq!(phase(1, 1_000_000), 1000);
    // Two radians per second for half a second: the same angle.
    assert_eq!(phase(2, 500_000), 1000);
    // The reduction keeps whole periods out of the product: 6.282
    // seconds at one radian per second is one full turn, phase zero.
    assert_eq!(phase(1, 6_282_000), 0);
}
