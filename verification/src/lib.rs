//! Game logic of Freenukum, a Duke Nukem 1 clone: the hero, the level grid,
//! the actors that live in a level, and the small pieces of user interface
//! logic (input fields, message boxes, menus, the status borders).
//!
//! Everything that draws, reads files or talks to the video layer lives
//! outside this crate; the functions here compute plain values that the
//! caller turns into pixels or events.

pub mod consts;
pub mod geometry;
pub mod collision;
pub mod events;
pub mod level;
pub mod hero;
pub mod inputfield;
pub mod inputbox;
pub mod text;
pub mod episodes;
pub mod infobox;
pub mod draw;
pub mod borders;
pub mod bot;
pub mod data;
pub mod backdrop;
pub mod messagebox;
pub mod mainmenu;
mod random;
