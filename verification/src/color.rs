//! Colors that a cell's foreground or background slot can carry.

use vstd::prelude::*;

verus! {

/// The color of one slot of a cell: the renderer's default for that slot,
/// an entry of the 256-color palette, or a 24 bit color.
#[derive(Debug, Clone, Copy, PartialEq, Eq, Structural)]
pub enum ColorAttribute {
    Default,
    PaletteIndex(u8),
    TrueColor(u8, u8, u8),
}

} // verus!
