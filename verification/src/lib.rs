//! Verified core of a small menu system for a 135x240 colour display.
//!
//! The library holds the menu graph, the selection cursor, the scrolling text
//! window and the button state, and turns each frame into a plain description
//! of what has to be drawn. Drawing itself, and the hardware, stay with the
//! caller.

pub mod color;
pub mod text;
pub mod drawing;
pub mod state;
pub mod menu;
pub mod image;
pub mod laws;
pub mod controls;

