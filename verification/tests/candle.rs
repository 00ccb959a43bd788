//! Tests of the candle flame: bit-for-bit determinism, the fixed index
//! groups, and exact colors at time zero where both flickers vanish.

use flame_sim::color::hsv_to_rgb;
use flame_sim::simulations::candle_colored::CandleColoredSim;
use flame_sim::types::LED;
use flame_sim::types::RGB;
use flame_sim::types::Simulation;

const POSITIONS: [(usize, usize); 12] = [
    (103, 4),
    (104, 11),
    (105, 17),
    (106, 24),
    (110, 30),
    (115, 24),
    (118, 17),
    (119, 10),
    (120, 3),
    (112, 3),
    (111, 11),
    (111, 18),
];

fn layout() -> Vec<LED> {
    POSITIONS.iter()
        .map(|(x, y)| LED { color: RGB { r: 0, g: 0, b: 0 }, coords: (*x, *y) })
        .collect()
}

#[test]
fn identical_inputs_paint_identical_colors() {
    for (micros, intensity) in [(0u64, 1000u32), (47_123, 777), (3_333_333, 250), (86_400_000_000, 1)] {
        let mut leds_a = layout();
        let mut leds_b = layout();
        let mut sim_a = CandleColoredSim::new(&leds_a);
        let mut sim_b = CandleColoredSim::new(&leds_b);
        sim_a.tick(&mut leds_a, micros, intensity);
        sim_b.tick(&mut leds_b, micros, intensity);
        for (a, b) in leds_a.iter().zip(leds_b.iter()) {
            assert_eq!(a.color, b.color);
        }
        // Ticking the same instant again repaints the same colors.
        let colors: Vec<RGB<u8>> = leds_a.iter().map(|l| l.color).collect();
        sim_a.tick(&mut leds_a, micros, intensity);
        let again: Vec<RGB<u8>> = leds_a.iter().map(|l| l.color).collect();
        assert_eq!(colors, again);
    }
}

#[test]
fn wick_is_always_black() {
    for micros in [0u64, 123_456, 9_876_543] {
        let mut leds = layout();
        let mut sim = CandleColoredSim::new(&leds);
        sim.tick(&mut leds, micros, 1000);
        assert_eq!(leds[9].color, RGB { r: 0, g: 0, b: 0 });
    }
}

#[test]
fn blue_base_at_time_zero() {
    // At time zero both flicker signals are zero, so a blue LED's
    // brightness is 0.4 + 0.03 * intensity; at full intensity that is
    // 0.43, converted at the fixed blue hue of 200 degrees.
    let mut leds = layout();
    let mut sim = CandleColoredSim::new(&leds);
    sim.tick(&mut leds, 0, 1000);
    let expected = hsv_to_rgb(200_000_000, 1000, 430);
    assert_eq!(leds[0].color, expected);
    assert_eq!(leds[8].color, expected);
    assert_eq!(sim.get_name(), "Candle flame (colored)");
}

fn expected_flame_at_zero(y: usize) -> RGB<u8> {
    // At time zero the flame height is exactly ten units at full
    // intensity, so the normalized position of a LED is
    // (y - 14) / 10 = (y - 14) * 100 thousandths, with no horizontal
    // nudge.
    let vp = (y as i64 - 14) * 100;
    let t = CandleColoredSim::get_flame_base_hsv(vp);
    let bright = t.2.clamp(0, 1_000_000);
    hsv_to_rgb(t.0, t.1, (bright / 1000) as u32)
}

#[test]
fn flame_profile_at_time_zero() {
    let mut leds = layout();
    let mut sim = CandleColoredSim::new(&leds);
    sim.tick(&mut leds, 0, 1000);
    for idx in [1usize, 2, 3, 4, 5, 6, 7, 10, 11] {
        assert_eq!(leds[idx].color, expected_flame_at_zero(leds[idx].coords.1));
    }
    // The lowest flame LEDs sit below the flame floor: orange, fully
    // bright, with the hue pinned at its 37-degree floor.
    let t = CandleColoredSim::get_flame_base_hsv((11 - 14) * 100);
    assert_eq!(t.0, 37_000_000);
    assert_eq!(t.2, 1_000_000);
    // The top LED at y = 30 is far above a ten-unit flame and goes
    // black.
    assert_eq!(leds[4].color, RGB { r: 0, g: 0, b: 0 });
}

#[test]
fn flickers_are_deterministic_and_bounded() {
    assert_eq!(CandleColoredSim::get_horiz_flicker(0), 0);
    assert_eq!(CandleColoredSim::get_vert_flicker(0), 0);
    for micros in [1_234_567u64, 2_000_000, 55_555_555, 123_456_789_012] {
        let h1 = CandleColoredSim::get_horiz_flicker(micros);
        let h2 = CandleColoredSim::get_horiz_flicker(micros);
        assert_eq!(h1, h2);
        assert!(h1.abs() <= 3_600_000);
        let v1 = CandleColoredSim::get_vert_flicker(micros);
        let v2 = CandleColoredSim::get_vert_flicker(micros);
        assert_eq!(v1, v2);
        assert!(v1.abs() <= 10_250_000);
    }
}

#[test]
fn zero_intensity_flame_is_black() {
    // At zero intensity the flame height collapses to zero and every
    // flame LED is painted black outright.
    let mut leds = layout();
    let mut sim = CandleColoredSim::new(&leds);
    sim.tick(&mut leds, 250_000, 0);
    for idx in [1usize, 2, 3, 4, 5, 6, 7, 10, 11] {
        assert_eq!(leds[idx].color, RGB { r: 0, g: 0, b: 0 });
    }
}

#[test]
fn short_layout_is_left_alone() {
    let mut leds: Vec<LED> = layout().into_iter().take(5).collect();
    let mut sim = CandleColoredSim::new(&leds);
    sim.tick(&mut leds, 777, 900);
    for led in &leds {
        assert_eq!(led.color, RGB { r: 0, g: 0, b: 0 });
    }
}
