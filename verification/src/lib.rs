//! Core of a simulator for a small addressable-LED art installation: a
//! fixed layout of LEDs on a printed circuit board, and a family of
//! time-driven lighting patterns ("simulations") that repaint the LEDs
//! once per frame.
//!
//! All quantities are held in fixed-point integers so that every color is
//! an exact function of the inputs:
//! - intensities, saturations and values are in thousandths (`0..=1000`),
//! - hues are in microdegrees (`0..360_000_000`),
//! - the periodic flicker signals are in millionths.
//!
//! A surrounding application owns the LED layout, picks the active
//! simulation, and calls its [`types::Simulation::tick`] with the elapsed
//! time in microseconds and a user-chosen intensity; it then reads the
//! repainted colors back out of the layout to render them.

pub mod color;
pub mod fixedpoint;
pub mod simulations;
pub mod trig;
pub mod types;
