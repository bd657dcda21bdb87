//! Colours of the 16-bit display.

use vstd::prelude::*;

verus! {

/// A colour as the display stores it: five bits of red, then six of green,
/// then five of blue, red in the most significant bits.
pub type Colour = u16;

/// Background of the whole frame.
pub const BLACK: Colour = 0x0000;

/// Fill of the panel behind each graph.
pub const PANEL: Colour = 0x18A3;

/// Readout of the CO2 concentration.
pub const FOREST_GREEN: Colour = 0x2444;

/// Readout of the temperature.
pub const ORANGE_RED: Colour = 0xFA20;

/// Readout of the relative humidity.
pub const AQUAMARINE: Colour = 0x7FFA;

/// Graph of the CO2 concentration.
pub const DARK_GREEN: Colour = 0x0320;

/// Graph of the temperature.
pub const ORANGE: Colour = 0xFD20;

/// Graph of the relative humidity.
pub const AQUA: Colour = 0x07FF;

} // verus!
