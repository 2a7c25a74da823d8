//! Screen-space geometry in integer device units.
//!
//! Coordinates are `i64` values kept inside a 32-bit range by the
//! well-formedness predicates, so that the sum of any two well-formed
//! coordinates (and one more line-spacing offset) always fits in `i64`.

use vstd::prelude::*;

verus! {

/// Smallest coordinate a well-formed point may hold.
pub const COORD_MIN: i64 = -2147483648;

/// Largest coordinate a well-formed point may hold.
pub const COORD_MAX: i64 = 2147483647;

/// True when `v` lies inside the 32-bit coordinate range.
pub open spec fn coord_in_range(v: i64) -> bool {
    COORD_MIN <= v <= COORD_MAX
}

/// A point or extent in screen space.
#[derive(Clone, Copy, Debug, PartialEq, Eq, Structural)]
pub struct Vec2 {
    pub x: i64,
    pub y: i64,
}

/// Componentwise maximum of two vectors.
pub open spec fn vec2_max(a: Vec2, b: Vec2) -> Vec2 {
    (Vec2 {
        x: if a.x >= b.x { a.x } else { b.x },
        y: if a.y >= b.y { a.y } else { b.y },
    })
}

impl Vec2 {
    /// Both coordinates lie inside the 32-bit range.
    pub open spec fn wf(self) -> bool {
        coord_in_range(self.x) && coord_in_range(self.y)
    }

    /// Componentwise maximum.
    pub fn max(self, other: Vec2) -> (r: Vec2)
        ensures
            r == vec2_max(self, other),
    {
        Vec2 {
            x: if self.x >= other.x {
                self.x
            } else {
                other.x
            },
            y: if self.y >= other.y {
                self.y
            } else {
                other.y
            },
        }
    }
}

/// An axis-aligned rectangle given by two corners; `min` is the top-left one.
#[derive(Clone, Copy, Debug, PartialEq, Eq, Structural)]
pub struct Rect {
    pub min: Vec2,
    pub max: Vec2,
}

impl Rect {
    /// Both corners are well-formed and they are ordered on each axis.
    pub open spec fn wf(self) -> bool {
        self.min.wf() && self.max.wf() && self.min.x <= self.max.x && self.min.y <= self.max.y
    }
}

} // verus!
