//! Tests of the shared color model: exact conversions, gray scaling, and
//! continuity of the HSV formula at the hue sextant boundaries.

use flame_sim::color::brightness_byte;
use flame_sim::color::hsv_to_rgb;
use flame_sim::color::scale_byte;
use flame_sim::types::RGB;

#[test]
fn primary_and_secondary_hues() {
    // Full saturation and value at the cardinal hues.
    assert_eq!(hsv_to_rgb(0, 1000, 1000), RGB { r: 255, g: 0, b: 0 });
    assert_eq!(hsv_to_rgb(60_000_000, 1000, 1000), RGB { r: 255, g: 255, b: 0 });
    assert_eq!(hsv_to_rgb(120_000_000, 1000, 1000), RGB { r: 0, g: 255, b: 0 });
    assert_eq!(hsv_to_rgb(180_000_000, 1000, 1000), RGB { r: 0, g: 255, b: 255 });
    assert_eq!(hsv_to_rgb(240_000_000, 1000, 1000), RGB { r: 0, g: 0, b: 255 });
    assert_eq!(hsv_to_rgb(300_000_000, 1000, 1000), RGB { r: 255, g: 0, b: 255 });
}

#[test]
fn zero_saturation_is_gray() {
    assert_eq!(hsv_to_rgb(123_456_789, 0, 500), RGB { r: 128, g: 128, b: 128 });
    assert_eq!(hsv_to_rgb(7_000_000, 0, 1000), RGB { r: 255, g: 255, b: 255 });
    assert_eq!(hsv_to_rgb(359_999_999, 0, 0), RGB { r: 0, g: 0, b: 0 });
}

#[test]
fn zero_value_is_black_for_any_hue() {
    for h in [0u64, 59_999_999, 200_000_000, 359_999_999] {
        assert_eq!(hsv_to_rgb(h, 1000, 0), RGB { r: 0, g: 0, b: 0 });
    }
}

fn channel_gap(a: u8, b: u8) -> u8 {
    if a > b {
        a - b
    } else {
        b - a
    }
}

#[test]
fn sextant_boundaries_are_continuous() {
    // One microdegree below each sextant boundary the color is within
    // one rounding step per channel of the color at the boundary
    // itself: the formula hands over between sextants without a visible
    // jump. (The byte rounding may flip by one unit across any single
    // microdegree step, boundary or not.)
    for s in [250u32, 700, 1000] {
        for v in [300u32, 1000] {
            for b in [
                60_000_000u64,
                120_000_000,
                180_000_000,
                240_000_000,
                300_000_000,
            ] {
                let below = hsv_to_rgb(b - 1, s, v);
                let at = hsv_to_rgb(b, s, v);
                assert!(channel_gap(below.r, at.r) <= 1);
                assert!(channel_gap(below.g, at.g) <= 1);
                assert!(channel_gap(below.b, at.b) <= 1);
            }
            // The wrap-around: approaching 360 degrees lands on hue 0.
            let below = hsv_to_rgb(359_999_999, s, v);
            let at = hsv_to_rgb(0, s, v);
            assert!(channel_gap(below.r, at.r) <= 1);
            assert!(channel_gap(below.g, at.g) <= 1);
            assert!(channel_gap(below.b, at.b) <= 1);
        }
    }
    // At full saturation and value the handover is exact.
    for b in [
        60_000_000u64,
        120_000_000,
        180_000_000,
        240_000_000,
        300_000_000,
    ] {
        assert_eq!(hsv_to_rgb(b - 1, 1000, 1000), hsv_to_rgb(b, 1000, 1000));
    }
    assert_eq!(hsv_to_rgb(359_999_999, 1000, 1000), hsv_to_rgb(0, 1000, 1000));
}

#[test]
fn brightness_byte_rounds_to_nearest() {
    assert_eq!(brightness_byte(0), 0);
    assert_eq!(brightness_byte(1000), 255);
    // 255 * 0.5 = 127.5 rounds up.
    assert_eq!(brightness_byte(500), 128);
    // 255 * 0.1 = 25.5 rounds up; 255 * 0.004 = 1.02 rounds down.
    assert_eq!(brightness_byte(100), 26);
    assert_eq!(brightness_byte(4), 1);
}

#[test]
fn scale_byte_scales_components() {
    assert_eq!(scale_byte(30, 1000), 30);
    assert_eq!(scale_byte(30, 500), 15);
    assert_eq!(scale_byte(255, 250), 64);
    assert_eq!(scale_byte(0, 1000), 0);
}
