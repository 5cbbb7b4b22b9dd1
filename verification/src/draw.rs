//! What the game logic hands to the screen to draw.

use vstd::prelude::*;

verus! {

/// One tile of the tile cache, to be drawn with its top left corner at
/// (`x`, `y`).
#[derive(Clone, Copy, Debug, PartialEq, Eq, Structural)]
pub struct DrawTile {
    pub tile: usize,
    pub x: i16,
    pub y: i16,
}

} // verus!
