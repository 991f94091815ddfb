//! Plain descriptions of what one frame draws on the display.
//!
//! Coordinates are display pixels with the origin at the top left corner;
//! colours are RGB565 storage words (see `crate::color`).

use vstd::prelude::*;

verus! {

/// A point on the display.
#[derive(Clone, Copy, Debug, PartialEq, Eq, Structural)]
pub struct Position {
    pub x: i32,
    pub y: i32,
}

/// An outlined, filled rectangle.
#[derive(Clone, Copy, Debug, PartialEq, Eq, Structural)]
pub struct RectDrawing {
    pub x: i32,
    pub y: i32,
    pub width: u32,
    pub height: u32,
    pub stroke_color: u16,
    pub fill_color: u16,
    pub stroke_width: u32,
}

/// A fixed text drawn in the 8x13 monospace font; `y` is the baseline.
#[derive(Clone, Copy, Debug)]
pub struct LabelDrawing {
    pub text: &'static str,
    pub x: i32,
    pub y: i32,
    pub color: u16,
}

/// A button: its frame and its label.
#[derive(Clone, Copy, Debug)]
pub struct ButtonDrawing {
    pub frame: RectDrawing,
    pub label: LabelDrawing,
}

/// What the button row of a frame draws.
#[derive(Clone, Copy, Debug)]
pub enum ButtonsDrawing {
    /// The left button, and the right one where the current menu has more
    /// than one entry.
    Pair { left: ButtonDrawing, right: Option<ButtonDrawing> },
    /// A single "cancel" text.
    Cancel(LabelDrawing),
}

/// One line of the text window.
#[derive(Debug)]
pub struct LineDrawing {
    pub text: Vec<char>,
    pub x: i32,
    pub y: i32,
    pub color: u16,
}

/// The question that shows the selected entry, centred near the bottom.
#[derive(Debug)]
pub struct QueryDrawing {
    pub text: String,
    pub x: i32,
    pub y: i32,
    pub color: u16,
    pub underline_color: u16,
    pub background_color: u16,
}

/// The text window and the query, drawn when the menu content changed.
#[derive(Debug)]
pub struct ContentDrawing {
    pub lines: Vec<LineDrawing>,
    pub query: Option<QueryDrawing>,
}

/// Everything one frame draws, in order: buttons, lines, query.
#[derive(Debug)]
pub struct Frame {
    pub buttons: Option<ButtonsDrawing>,
    pub content: Option<ContentDrawing>,
}

} // verus!
