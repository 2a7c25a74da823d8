//! The wrapped layout ("galley") that the host's shaping engine produces,
//! and the widget size derived from it.
//!
//! Shaping itself is the host's work; this core only reads the per-line
//! metrics and the total extent handed to it, fresh every frame.

use vstd::prelude::*;

use crate::geometry::{vec2_max, Vec2};

verus! {

/// Metrics of one wrapped line: the rightmost glyph extent and the vertical
/// offset from the layout origin.
#[derive(Clone, Copy, Debug, PartialEq, Eq, Structural)]
pub struct LineMetrics {
    pub max_x: i64,
    pub y_offset: i64,
}

impl LineMetrics {
    pub open spec fn wf(self) -> bool {
        crate::geometry::coord_in_range(self.max_x) && crate::geometry::coord_in_range(
            self.y_offset,
        )
    }
}

/// A wrapped layout of the buffer: its lines in top-to-bottom order and its
/// total extent.
#[derive(Clone, Debug, PartialEq)]
pub struct Galley {
    pub lines: Vec<LineMetrics>,
    pub size: Vec2,
}

impl Galley {
    pub open spec fn wf(self) -> bool {
        self.size.wf() && forall|i: int|
            0 <= i < self.lines@.len() ==> (#[trigger] self.lines@[i]).wf()
    }
}

/// The size the widget asks the host for: the layout's extent, but never
/// narrower than the available width and never shorter than one line.
pub open spec fn desired_size_spec(galley_size: Vec2, available_width: i64, line_spacing: i64)
    -> Vec2 {
    vec2_max(galley_size, (Vec2 { x: available_width, y: line_spacing }))
}

/// The size the widget asks the host for: the layout's extent, but never
/// narrower than the available width and never shorter than one line.
pub fn desired_size(galley: &Galley, available_width: i64, line_spacing: i64) -> (size: Vec2)
    ensures
        size == desired_size_spec(galley.size, available_width, line_spacing),
{
    galley.size.max(Vec2 { x: available_width, y: line_spacing })
}

} // verus!
