//! ANSI 256-color codes of the palette: muted, professional tones.

use vstd::prelude::*;

verus! {

/// Soft slate blue.
pub const PRIMARY: u8 = 110;
/// Lavender grey.
pub const SECONDARY: u8 = 146;
/// Muted sage green.
pub const SUCCESS: u8 = 108;
/// Muted gold.
pub const WARNING: u8 = 179;
/// Muted coral.
pub const ERROR: u8 = 167;
/// Medium grey.
pub const MUTED: u8 = 243;
/// Bright white, for active elements.
pub const HIGHLIGHT: u8 = 255;
/// Soft teal.
pub const ACCENT: u8 = 73;
/// Charcoal grey, for borders.
pub const BORDER: u8 = 240;
/// Pure white, for headers.
pub const HEADER: u8 = 231;

} // verus!
