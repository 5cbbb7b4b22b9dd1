//! Directions, and the notifications the game logic sends to the screen.

use vstd::prelude::*;

verus! {

/// A horizontal direction, such as the one the hero faces.
#[derive(Clone, Copy, Debug, PartialEq, Eq, Structural)]
pub enum HorizontalDirection {
    Left,
    Center,
    Right,
}

/// A vertical direction.
#[derive(Clone, Copy, Debug, PartialEq, Eq, Structural)]
pub enum VerticalDirection {
    Up,
    Center,
    Down,
}

/// Notifications that game state changed and the screen needs to follow.
/// The library collects them in an outbox; the caller hands them to the
/// event loop of the video layer.
#[derive(Clone, Copy, Debug, PartialEq, Eq, Structural)]
pub enum UserEvent {
    HeroMoved,
    HeroScored,
    HeroHealthChanged,
    HeroFirepowerChanged,
    HeroInventoryChanged,
    HeroLanded,
}

} // verus!
