//! What reaches the window from outside: the pointer, once per frame, and
//! the buttons around the surface.

use vstd::prelude::*;
use crate::geometry::Point;
use crate::shape::Tools;

verus! {

/// The pointer as one frame sees it.
#[derive(Clone, Copy, Debug, PartialEq, Eq)]
pub struct Pointer {
    /// Whether the pointer moved since the frame before.
    pub moving: bool,
    /// Where the pointer hovers, if it is over the window at all.
    pub hover: Option<Point>,
    /// Whether the primary button is held down.
    pub primary_down: bool,
}

/// A button of the toolbar or of the tool panel.
#[derive(Clone, Copy, Debug, PartialEq, Eq)]
pub enum Button {
    /// Start over: forget the canvas, its size and every shape.
    New,
    /// Grow the pen by one.
    IncreaseOne,
    /// Grow the pen by ten.
    IncreaseTen,
    /// Shrink the pen by one.
    ReduceOne,
    /// Shrink the pen by ten.
    ReduceTen,
    /// Take the newest shape away.
    Undo,
    /// Take the ten newest shapes away.
    UndoBatch,
    /// Take every shape away.
    Clear,
    /// Pick a tool up.
    Select(Tools),
}

} // verus!
