//! The terminal as the widgets see it: areas of cells, and what a cell shows.

use vstd::prelude::*;
use crate::utils::colors::TermColor;

verus! {

/// A rectangle of terminal cells.
#[derive(Debug, Clone, Copy, PartialEq, Eq, Structural)]
pub struct Rect {
    pub x: u16,
    pub y: u16,
    pub width: u16,
    pub height: u16,
}

impl Rect {
    /// The rectangle ends inside the range of cell coordinates.
    pub open spec fn wf(self) -> bool {
        &&& self.x + self.width <= u16::MAX
        &&& self.y + self.height <= u16::MAX
    }

    /// Whether every cell of `inner` is a cell of this rectangle.
    pub open spec fn encloses(self, inner: Rect) -> bool {
        &&& self.x <= inner.x
        &&& inner.x + inner.width <= self.x + self.width
        &&& self.y <= inner.y
        &&& inner.y + inner.height <= self.y + self.height
    }

    /// The rectangle with the given corner and size. A size that would reach
    /// past the last cell coordinate is cut down to end there.
    pub fn new(x: u16, y: u16, width: u16, height: u16) -> (rect: Rect)
        ensures
            rect.wf(),
            rect.x == x,
            rect.y == y,
            rect.width == if x + width <= u16::MAX {
                width
            } else {
                (u16::MAX - x) as u16
            },
            rect.height == if y + height <= u16::MAX {
                height
            } else {
                (u16::MAX - y) as u16
            },
    {
        let width = if width <= u16::MAX - x {
            width
        } else {
            u16::MAX - x
        };
        let height = if height <= u16::MAX - y {
            height
        } else {
            u16::MAX - y
        };
        Rect { x, y, width, height }
    }
}

/// What one terminal cell shows.
#[derive(Debug, Clone, Copy, PartialEq, Eq, Structural)]
pub struct Cell {
    pub symbol: char,
    pub fg: TermColor,
    pub bg: TermColor,
}

/// A cell together with its place on the terminal.
#[derive(Debug, Clone, Copy, PartialEq, Eq, Structural)]
pub struct PlacedCell {
    pub x: u16,
    pub y: u16,
    pub cell: Cell,
}

} // verus!
