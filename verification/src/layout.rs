//! Screen geometry for the menu.
//!
//! The anchor coordinates are carried in a small configuration value rather
//! than process-wide constants, so the drawing logic can be exercised
//! against any geometry. The prompt sits at a fixed top-left anchor; the
//! item list starts at a fixed origin below it; the cursor marker occupies
//! the two columns just left of the item origin.

use vstd::prelude::*;

verus! {

/// Anchor coordinates of the menu on the terminal screen.
#[derive(Clone, Copy, PartialEq, Eq, Structural, Debug)]
pub struct Layout {
    /// Column of the prompt's first character.
    pub prompt_x: u16,
    /// Row of the prompt.
    pub prompt_y: u16,
    /// Column where each item's display text starts.
    pub origin_x: u16,
    /// Row of the first item.
    pub origin_y: u16,
}

impl Layout {
    /// A layout is usable when the two-character cursor marker, drawn three
    /// columns left of the item origin, still fits on the screen.
    pub open spec fn wf(self) -> bool {
        self.origin_x >= 3
    }

    /// The column where the cursor marker is drawn.
    pub open spec fn marker_col(self) -> u16 {
        (self.origin_x - 3) as u16
    }

    /// The row on which the item at `pos` is drawn.
    pub open spec fn item_row(self, pos: int) -> int {
        self.origin_y + pos
    }

    /// The geometry the interactive picker uses: prompt at (1, 1), items
    /// from (4, 3), marker in column 1.
    pub fn standard() -> (r: Layout)
        ensures
            r.wf(),
            r == (Layout { prompt_x: 1, prompt_y: 1, origin_x: 4, origin_y: 3 }),
    {
        Layout { prompt_x: 1, prompt_y: 1, origin_x: 4, origin_y: 3 }
    }
}

} // verus!
