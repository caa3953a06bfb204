//! Screen geometry: points, per-side insets and rectangles.
//!
//! Rectangles are half-open: a point lies inside when `x0 <= x < x1` and
//! `y0 <= y < y1`. Stored widget rectangles live in the small coordinate
//! range of the display hardware ([`COORD_MAX`]); the reveal rectangle may
//! grow downward well past the screen, so the arithmetic here is done in
//! `i32` with explicit bounds that rule overflow out.

use vstd::prelude::*;

verus! {

/// Largest coordinate of a placed (hardware) rectangle.
pub const COORD_MAX: i32 = 32767;

/// Largest magnitude any rectangle coordinate may reach, including the
/// grown reveal rectangle. Small enough that every sum and difference
/// computed in this crate stays inside `i32`.
pub const COORD_LIMIT: i32 = 1000000000;

/// Largest magnitude of a single inset component.
pub const INSET_MAX: i32 = 4096;

/// Half of `v`, rounding downward (so the midpoint of two edges is exact
/// integer halving in the mathematical sense).
pub fn halve(v: i32) -> (r: i32)
    ensures
        r == v as int / 2,
{
    if v >= 0 {
        ((v as u32) / 2) as i32
    } else {
        let m: u64 = (-(v as i64)) as u64;
        let h: u64 = (m + 1) / 2;
        proof {
            vstd::arithmetic::div_mod::lemma_fundamental_div_mod(m as int + 1, 2);
            vstd::arithmetic::div_mod::lemma_fundamental_div_mod(v as int, 2);
            vstd::arithmetic::div_mod::lemma_mod_bound(v as int, 2);
            vstd::arithmetic::div_mod::lemma_mod_bound(m as int + 1, 2);
        }
        (-(h as i64)) as i32
    }
}

/// A touch coordinate.
#[derive(Clone, Copy, Debug, PartialEq, Eq, Structural)]
pub struct Point {
    pub x: i32,
    pub y: i32,
}

/// Per-side padding, applied inward by [`Rect::inset`] and outward by
/// [`Rect::outset`].
#[derive(Clone, Copy, Debug, PartialEq, Eq, Structural)]
pub struct Insets {
    pub left: i32,
    pub top: i32,
    pub right: i32,
    pub bottom: i32,
}

/// An axis-aligned rectangle, half-open on the right and bottom.
#[derive(Clone, Copy, Debug, PartialEq, Eq, Structural)]
pub struct Rect {
    pub x0: i32,
    pub y0: i32,
    pub x1: i32,
    pub y1: i32,
}

impl Insets {
    /// Every component within [`INSET_MAX`] in magnitude.
    pub open spec fn bounded(self) -> bool {
        -(INSET_MAX as int) <= self.left <= INSET_MAX as int
            && -(INSET_MAX as int) <= self.top <= INSET_MAX as int
            && -(INSET_MAX as int) <= self.right <= INSET_MAX as int
            && -(INSET_MAX as int) <= self.bottom <= INSET_MAX as int
    }

    /// Non-negative padding on every side.
    pub open spec fn nonnegative(self) -> bool {
        self.left >= 0 && self.top >= 0 && self.right >= 0 && self.bottom >= 0
    }

    /// Padding on the bottom side only.
    pub fn bottom(pad: i32) -> (r: Insets)
        ensures
            r == (Insets { left: 0, top: 0, right: 0, bottom: pad }),
    {
        Insets { left: 0, top: 0, right: 0, bottom: pad }
    }

    /// The same padding on all four sides.
    pub fn uniform(pad: i32) -> (r: Insets)
        ensures
            r == (Insets { left: pad, top: pad, right: pad, bottom: pad }),
    {
        Insets { left: pad, top: pad, right: pad, bottom: pad }
    }
}

/// The rectangle shrunk inward by `i` on each side.
pub open spec fn spec_inset(r: Rect, i: Insets) -> Rect {
    Rect {
        x0: (r.x0 + i.left) as i32,
        y0: (r.y0 + i.top) as i32,
        x1: (r.x1 - i.right) as i32,
        y1: (r.y1 - i.bottom) as i32,
    }
}

/// The rectangle grown outward by `i` on each side.
pub open spec fn spec_outset(r: Rect, i: Insets) -> Rect {
    Rect {
        x0: (r.x0 - i.left) as i32,
        y0: (r.y0 - i.top) as i32,
        x1: (r.x1 + i.right) as i32,
        y1: (r.y1 + i.bottom) as i32,
    }
}

/// Whether `p` lies inside `r` (half-open on the right and bottom).
pub open spec fn spec_contains(r: Rect, p: Point) -> bool {
    r.x0 <= p.x < r.x1 && r.y0 <= p.y < r.y1
}

/// `r` cut down to `limit`: each edge pulled inside the limiting rectangle.
pub open spec fn spec_clamp(r: Rect, limit: Rect) -> Rect {
    Rect {
        x0: if r.x0 >= limit.x0 { r.x0 } else { limit.x0 },
        y0: if r.y0 >= limit.y0 { r.y0 } else { limit.y0 },
        x1: if r.x1 <= limit.x1 { r.x1 } else { limit.x1 },
        y1: if r.y1 <= limit.y1 { r.y1 } else { limit.y1 },
    }
}

impl Rect {
    /// A hardware rectangle: properly ordered edges inside the display's
    /// coordinate range.
    pub open spec fn wf(self) -> bool {
        0 <= self.x0 <= self.x1 <= COORD_MAX as int && 0 <= self.y0 <= self.y1 <= COORD_MAX as int
    }

    /// Every coordinate within [`COORD_LIMIT`] in magnitude.
    pub open spec fn bounded(self) -> bool {
        -(COORD_LIMIT as int) <= self.x0 <= COORD_LIMIT as int
            && -(COORD_LIMIT as int) <= self.y0 <= COORD_LIMIT as int
            && -(COORD_LIMIT as int) <= self.x1 <= COORD_LIMIT as int
            && -(COORD_LIMIT as int) <= self.y1 <= COORD_LIMIT as int
    }

    /// The zero-sized rectangle at the origin.
    pub fn zero() -> (r: Rect)
        ensures
            r == (Rect { x0: 0, y0: 0, x1: 0, y1: 0 }),
    {
        Rect { x0: 0, y0: 0, x1: 0, y1: 0 }
    }

    /// Horizontal extent.
    pub fn width(&self) -> (w: i32)
        requires
            self.bounded(),
        ensures
            w == self.x1 - self.x0,
    {
        self.x1 - self.x0
    }

    /// Vertical extent.
    pub fn height(&self) -> (h: i32)
        requires
            self.bounded(),
        ensures
            h == self.y1 - self.y0,
    {
        self.y1 - self.y0
    }

    /// Shrink inward by `i` on each side.
    pub fn inset(&self, i: Insets) -> (r: Rect)
        requires
            self.bounded(),
            i.bounded(),
        ensures
            r == spec_inset(*self, i),
    {
        Rect { x0: self.x0 + i.left, y0: self.y0 + i.top, x1: self.x1 - i.right, y1: self.y1 - i.bottom }
    }

    /// Grow outward by `i` on each side.
    pub fn outset(&self, i: Insets) -> (r: Rect)
        requires
            self.bounded(),
            i.bounded(),
        ensures
            r == spec_outset(*self, i),
    {
        Rect { x0: self.x0 - i.left, y0: self.y0 - i.top, x1: self.x1 + i.right, y1: self.y1 + i.bottom }
    }

    /// Whether `p` lies inside this rectangle.
    pub fn contains(&self, p: Point) -> (b: bool)
        ensures
            b == spec_contains(*self, p),
    {
        self.x0 <= p.x && p.x < self.x1 && self.y0 <= p.y && p.y < self.y1
    }

    /// Cut this rectangle down to `limit`.
    pub fn clamp(&self, limit: Rect) -> (r: Rect)
        ensures
            r == spec_clamp(*self, limit),
    {
        Rect {
            x0: if self.x0 >= limit.x0 { self.x0 } else { limit.x0 },
            y0: if self.y0 >= limit.y0 { self.y0 } else { limit.y0 },
            x1: if self.x1 <= limit.x1 { self.x1 } else { limit.x1 },
            y1: if self.y1 <= limit.y1 { self.y1 } else { limit.y1 },
        }
    }
}

} // verus!
