//! Tests of the two simplest variants: steady-on gray and the
//! once-a-second flash with its drifting reference time.

use flame_sim::simulations::always_on_sim::AlwaysOnSim;
use flame_sim::simulations::flash_every_second::FlashEverySecondSim;
use flame_sim::types::LED;
use flame_sim::types::RGB;
use flame_sim::types::Simulation;

fn layout() -> Vec<LED> {
    let ys = [4usize, 11, 17, 24, 30, 24, 17, 10, 3, 3, 11, 18];
    ys.iter()
        .enumerate()
        .map(|(i, y)| LED { color: RGB { r: 7, g: 7, b: 7 }, coords: (100 + i, *y) })
        .collect()
}

#[test]
fn steady_on_black_at_zero_intensity() {
    let mut leds = layout();
    let mut sim = AlwaysOnSim::new(&leds);
    sim.tick(&mut leds, 123_456, 0);
    for led in &leds {
        assert_eq!(led.color, RGB { r: 0, g: 0, b: 0 });
    }
}

#[test]
fn steady_on_white_at_full_intensity() {
    let mut leds = layout();
    let mut sim = AlwaysOnSim::new(&leds);
    sim.tick(&mut leds, 0, 1000);
    for led in &leds {
        assert_eq!(led.color, RGB { r: 255, g: 255, b: 255 });
    }
}

#[test]
fn steady_on_rounds_half_intensity_up() {
    let mut leds = layout();
    let mut sim = AlwaysOnSim::new(&leds);
    // 255 * 0.5 = 127.5, rounded to 128, whatever the elapsed time.
    sim.tick(&mut leds, 999_999_999, 500);
    for led in &leds {
        assert_eq!(led.color, RGB { r: 128, g: 128, b: 128 });
    }
    assert_eq!(sim.get_name(), "Always on");
}

#[test]
fn steady_on_keeps_coordinates() {
    let mut leds = layout();
    let before: Vec<(usize, usize)> = leds.iter().map(|l| l.coords).collect();
    let mut sim = AlwaysOnSim::new(&leds);
    sim.tick(&mut leds, 5, 700);
    let after: Vec<(usize, usize)> = leds.iter().map(|l| l.coords).collect();
    assert_eq!(before, after);
}

#[test]
fn flash_toggles_on_whole_seconds() {
    let mut leds = layout();
    let mut sim = FlashEverySecondSim::new(&leds);
    assert_eq!(sim.get_name(), "Flash every second");
    assert!(!sim.on_now());

    // Ticks before a full second leave everything untouched.
    sim.tick(&mut leds, 0, 1000);
    assert!(!sim.on_now());
    assert_eq!(leds[0].color, RGB { r: 7, g: 7, b: 7 });

    sim.tick(&mut leds, 500_000, 1000);
    assert!(!sim.on_now());
    assert_eq!(leds[3].color, RGB { r: 7, g: 7, b: 7 });

    // The one-second mark toggles on: full gray at this intensity.
    sim.tick(&mut leds, 1_000_000, 1000);
    assert!(sim.on_now());
    for led in &leds {
        assert_eq!(led.color, RGB { r: 255, g: 255, b: 255 });
    }

    sim.tick(&mut leds, 1_500_000, 1000);
    assert!(sim.on_now());

    // Two seconds: off again, everything black.
    sim.tick(&mut leds, 2_000_000, 1000);
    assert!(!sim.on_now());
    for led in &leds {
        assert_eq!(led.color, RGB { r: 0, g: 0, b: 0 });
    }
}

#[test]
fn flash_reference_time_drifts_with_late_ticks() {
    let mut leds = layout();
    let mut sim = FlashEverySecondSim::new(&leds);

    // A late first toggle resets the reference to the actual tick time,
    // not to the one-second grid.
    sim.tick(&mut leds, 1_000_001, 1000);
    assert!(sim.on_now());

    // 999_998 microseconds after the toggle: not yet a full second.
    sim.tick(&mut leds, 1_999_999, 1000);
    assert!(sim.on_now());

    sim.tick(&mut leds, 2_000_001, 1000);
    assert!(!sim.on_now());
}

#[test]
fn flash_scales_gray_with_intensity() {
    let mut leds = layout();
    let mut sim = FlashEverySecondSim::new(&leds);
    sim.tick(&mut leds, 1_000_000, 500);
    assert!(sim.on_now());
    for led in &leds {
        assert_eq!(led.color, RGB { r: 128, g: 128, b: 128 });
    }
}
