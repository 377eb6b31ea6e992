//! Core of a simulated cathode-ray-tube text terminal: the character grid,
//! glyph-atlas addressing, cell geometry, cursor blinking and per-frame
//! planning. Drawing itself is left to the host's graphics backend.
pub mod atlas;
pub mod blink;
pub mod flow;
pub mod font;
pub mod grid;
pub mod layout;
pub mod term;
