//! The shared data model: colors, LEDs, and the capability contract that
//! every simulation variant implements.

use vstd::prelude::*;

verus! {

/// The largest coordinate a LED may sit at. Real boards are a few hundred
/// units wide; the bound keeps every intermediate product inside 64 bits.
pub const MAX_COORD: usize = 1_000_000;

/// A color as a red/green/blue triple. Stored colors use `u8` components;
/// there is no identity beyond value equality.
#[derive(Clone, Copy, Debug, PartialEq)]
pub struct RGB<ComponentType> {
    pub r: ComponentType,
    pub g: ComponentType,
    pub b: ComponentType,
}

/// A single simulated light point: a mutable color at fixed `(x, y)`
/// board coordinates.
#[derive(Clone, Copy, Debug, PartialEq)]
pub struct LED {
    pub color: RGB<u8>,
    pub coords: (usize, usize),
}

/// Every LED of the layout sits within [`MAX_COORD`] on both axes.
pub open spec fn layout_bounded(leds: Seq<LED>) -> bool {
    forall|i: int|
        0 <= i < leds.len() ==> (#[trigger] leds[i]).coords.0 <= MAX_COORD
            && leds[i].coords.1 <= MAX_COORD
}

/// `b` is `a` with only the colors repainted: same number of LEDs, and
/// every LED still at its original coordinates.
pub open spec fn same_layout(a: Seq<LED>, b: Seq<LED>) -> bool {
    &&& a.len() == b.len()
    &&& forall|i: int| 0 <= i < a.len() ==> (#[trigger] b[i]).coords == a[i].coords
}

/// The capability contract of a lighting pattern.
///
/// A variant is constructed once from the layout (it may cache
/// layout-derived constants, never the LEDs themselves), reports a stable
/// display name, and on every frame repaints the LED colors from the
/// elapsed time and the user intensity. A tick may move only the variant's
/// own state and the LED colors: the layout's length and coordinates are
/// left exactly as they were.
pub trait Simulation {
    /// The variant's private state is well formed. Constructors establish
    /// it and every tick preserves it.
    spec fn wf(&self) -> bool;

    /// Construct the variant from a read-only view of the layout.
    fn new(leds: &[LED]) -> (sim: Self) where Self: Sized
        requires
            layout_bounded(leds@),
        ensures
            sim.wf();

    /// A stable, human-readable name for menus.
    fn get_name(&self) -> (name: &'static str);

    /// Repaint the LED colors for the instant `micros` (microseconds since
    /// the variant was selected, non-decreasing across calls) at the given
    /// intensity in thousandths.
    fn tick(&mut self, leds: &mut Vec<LED>, micros: u64, intensity_mod: u32)
        requires
            old(self).wf(),
            intensity_mod <= 1000,
            layout_bounded(old(leds)@),
        ensures
            final(self).wf(),
            same_layout(old(leds)@, final(leds)@);
}

} // verus!
