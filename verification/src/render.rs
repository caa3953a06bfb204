//! What a render pass paints, as plain data.
//!
//! The widget does not own drawing primitives; it answers a render call with
//! the ordered list of paint operations the surrounding toolkit is to carry
//! out. That keeps the renderer a pure function of the widget's state.

use crate::geometry::Rect;
use vstd::prelude::*;

verus! {

/// Color of one placeholder glyph.
#[derive(Clone, Copy, Debug, PartialEq, Eq, Structural)]
pub enum IconColor {
    /// One entry of the fixed fade palette, ordered from dimmest (`0`)
    /// upward; used for the earliest overflow slots.
    Faded(usize),
    /// The full placeholder color.
    Full,
}

/// One paint operation, in paint order.
#[derive(Debug, PartialEq, Eq)]
pub enum DrawOp {
    /// The rounded background bar behind the revealed secret.
    Bar { area: Rect },
    /// The full secret, wrapped inside `bounds`.
    RevealText { bounds: Rect, text: Vec<char> },
    /// One placeholder glyph, centered vertically at `y`, left edge at `x`.
    Icon { x: i32, y: i32, color: IconColor },
    /// The last committed character in clear, on the placeholder baseline.
    LastChar { x: i32, y: i32, ch: char },
    /// The pending-entry marker, adjacent to the last character while a
    /// multi-tap selection is still cycling.
    PendingMarker { x: i32, y: i32, ch: char },
}

} // verus!
