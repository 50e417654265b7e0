//! Regular polygon geometry parameters.
//!
//! The pipeline places the vertices of an N-sided regular polygon on a circle
//! at equal angular increments, measured clockwise from the vertical axis.
//! The trigonometric evaluation itself happens in the unverified shell; the
//! library fixes the parameters — center, radius and vertex count — in
//! micro-units, and the draw call it emits covers exactly `vertex_count`
//! vertices in order.

use vstd::prelude::*;

verus! {

/// A point in normalized device coordinates, in micro-units.
#[derive(Clone, Copy, PartialEq, Eq, Structural, Debug)]
pub struct Vertex {
    pub x: i64,
    pub y: i64,
}

/// An N-sided regular polygon inscribed in a circle.  A count below three
/// describes degenerate geometry; the pipeline carries it through unchecked,
/// as the draw call then covers fewer than three vertices.
#[derive(Clone, Copy, PartialEq, Eq, Structural, Debug)]
pub struct RegularPolygon {
    pub center: Vertex,
    pub radius: i64,
    pub vertex_count: u32,
}

/// The radius every render pass uses: 0.7 in micro-units.
pub const POLYGON_RADIUS: i64 = 700_000;

} // verus!
