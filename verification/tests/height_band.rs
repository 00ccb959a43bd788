//! Tests of the vertically flickering band: the burn line stays clamped
//! inside the layout across arbitrarily many random ticks, and every LED
//! follows the triangular falloff from the line.

use flame_sim::color::scale_byte;
use flame_sim::simulations::height_flicker::HeightFlickerSim;
use flame_sim::simulations::height_flicker::step_height;
use flame_sim::types::LED;
use flame_sim::types::RGB;
use flame_sim::types::Simulation;

const YS: [usize; 12] = [3, 12, 20, 28, 37, 45, 53, 61, 70, 78, 86, 96];

fn layout() -> Vec<LED> {
    YS.iter()
        .enumerate()
        .map(|(i, y)| LED { color: RGB { r: 0, g: 0, b: 0 }, coords: (50 + i, *y) })
        .collect()
}

fn expected_color(y: usize, height_milli: u32) -> RGB<u8> {
    // The layout spans y = 3..=96, so the pattern height is 93.
    let dist: i64 = 1000 * y as i64 - height_milli as i64 * 93;
    let b: u32 = if dist > 2000 {
        0
    } else if dist < -2000 {
        1000
    } else {
        1000 - (dist.unsigned_abs() / 2) as u32
    };
    RGB { r: scale_byte(255, b), g: scale_byte(30, b), b: 0 }
}

#[test]
fn line_starts_in_the_middle() {
    let leds = layout();
    let sim = HeightFlickerSim::new(&leds);
    assert_eq!(sim.current_height(), 500);
    assert_eq!(sim.get_name(), "Height flicker");
}

#[test]
fn line_never_leaves_the_layout() {
    let mut leds = layout();
    let mut sim = HeightFlickerSim::new(&leds);
    let mut micros: u64 = 0;
    for step in 0..400u64 {
        // A mix of frame-rate ticks and occasional long stalls.
        micros += if step % 37 == 0 { 4_000_000 } else { 16_667 };
        let intensity = (step * 119 % 1001) as u32;
        sim.tick(&mut leds, micros, intensity);
        assert!(sim.current_height() <= 1000);
    }
}

#[test]
fn colors_follow_the_triangular_falloff() {
    let mut leds = layout();
    let mut sim = HeightFlickerSim::new(&leds);
    let mut micros: u64 = 0;
    for _ in 0..50 {
        micros += 16_667;
        sim.tick(&mut leds, micros, 1000);
        let h = sim.current_height();
        for led in &leds {
            assert_eq!(led.color, expected_color(led.coords.1, h));
        }
    }
}

#[test]
fn step_height_is_the_exact_walk() {
    // A centered draw with no elapsed time moves nothing.
    assert_eq!(step_height(500, 500, 1000, 0), 500);
    // A full second at full intensity and a maximal draw: the nudge is
    // 0.5 * 6.5 = 3.25 heights, clamped to the top after the centering
    // pull (which cannot bring 3750 thousandths back under 1000).
    assert_eq!(step_height(500, 1000, 1000, 1_000_000), 1000);
    // The mirrored draw pins the line to the floor.
    assert_eq!(step_height(500, 0, 1000, 1_000_000), 0);
    // A quarter second: nudge = 500 * 6500 * 250000 / 1e9 = 812
    // (truncated), the centering bias pulls (500 - 1312) * 250000 / 5e6
    // = -40 back, and 1272 still clamps to the top.
    assert_eq!(step_height(500, 1000, 1000, 250_000), 1000);
    // A small nudge stays inside: draw 600 at rest intensity for a
    // sixtieth of a second: nudge = 100 * 500 * 16667 / 1e9 = 0.
    assert_eq!(step_height(500, 600, 0, 16_667), 500);
}

#[test]
fn empty_layout_keeps_the_line_clamped() {
    let mut leds: Vec<LED> = Vec::new();
    let mut sim = HeightFlickerSim::new(&leds);
    sim.tick(&mut leds, 99, 1000);
    assert!(leds.is_empty());
    assert!(sim.current_height() <= 1000);
}
