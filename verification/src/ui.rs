//! What every screen works with: rectangles of terminal cells, and the
//! arithmetic of placing one inside another.

use vstd::prelude::*;

verus! {

/// A rectangle of terminal cells: its top-left corner and its size.
#[derive(Clone, Copy, Debug, PartialEq, Eq, Structural)]
pub struct Rect {
    pub x: u16,
    pub y: u16,
    pub width: u16,
    pub height: u16,
}

pub open spec fn sat_add(a: u16, b: u16) -> u16 {
    if a + b > u16::MAX {
        u16::MAX
    } else {
        (a + b) as u16
    }
}

pub open spec fn min16(a: u16, b: u16) -> u16 {
    if a <= b {
        a
    } else {
        b
    }
}

/// The rectangle's right and bottom edges reach no further than `u16`
/// counts, with `margin` to spare.
pub open spec fn fits_on_screen(r: Rect, margin: int) -> bool {
    r.x + r.width + margin <= u16::MAX && r.y + r.height + margin <= u16::MAX
}

/// Whether `inner` lies within `outer`.
pub open spec fn within(inner: Rect, outer: Rect) -> bool {
    &&& outer.x <= inner.x
    &&& inner.x + inner.width <= outer.x + outer.width
    &&& outer.y <= inner.y
    &&& inner.y + inner.height <= outer.y + outer.height
}

impl Rect {
    pub fn new(x: u16, y: u16, width: u16, height: u16) -> (r: Rect)
        ensures
            r == (Rect { x, y, width, height }),
    {
        Rect { x, y, width, height }
    }

    /// The column just past the right edge, stopping at the last there is.
    pub fn right(self) -> (r: u16)
        ensures
            r == sat_add(self.x, self.width),
    {
        self.x.saturating_add(self.width)
    }

    /// The row just past the bottom edge, stopping at the last there is.
    pub fn bottom(self) -> (r: u16)
        ensures
            r == sat_add(self.y, self.height),
    {
        self.y.saturating_add(self.height)
    }

    /// Whether a cell is inside.
    pub fn contains(self, x: u16, y: u16) -> (r: bool)
        ensures
            r == (self.x <= x && x < self.x + self.width && self.y <= y && y < self.y + self.height),
    {
        x >= self.x && (x - self.x) < self.width && y >= self.y && (y - self.y) < self.height
    }
}

/// A `w` by `h` rectangle in the middle of `area`, shrunk to fit.
pub open spec fn centred_of(area: Rect, w: u16, h: u16) -> Rect {
    let w = min16(w, area.width);
    let h = min16(h, area.height);
    Rect {
        x: (area.x + (area.width - w) / 2) as u16,
        y: (area.y + (area.height - h) / 2) as u16,
        width: w,
        height: h,
    }
}

/// A `w` by `h` rectangle in the middle of `area`, shrunk to fit.
pub fn centred(area: Rect, w: u16, h: u16) -> (r: Rect)
    requires
        fits_on_screen(area, 0),
    ensures
        r == centred_of(area, w, h),
        within(r, area),
{
    let w = if w <= area.width {
        w
    } else {
        area.width
    };
    let h = if h <= area.height {
        h
    } else {
        area.height
    };
    Rect { x: area.x + (area.width - w) / 2, y: area.y + (area.height - h) / 2, width: w, height: h }
}

} // verus!
