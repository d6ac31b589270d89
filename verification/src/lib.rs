//! A 2D chart geometry and layout engine.
//!
//! Given an abstract numeric dataset the crate computes the exact vector
//! geometry needed to render pie charts (arc boundary points for wedges) and
//! bar charts (rectangle placement), together with an interaction state
//! machine that recomputes highlight geometry in response to pointer hover.
//!
//! All geometry is computed exactly: data values are integers (callers pick a
//! fixed-point scale) and derived coordinates are exact rationals, so every
//! layout rule is stated and proved without rounding. Turning a boundary
//! point's turn fraction into sine/cosine screen coordinates is the renderer's
//! job, outside this crate.
use vstd::prelude::*;

pub mod bar;
pub mod color;
pub mod data;
pub mod highlight;
pub mod pie;
pub mod ratio;
pub mod transform;

verus! {

/// A width/height pair describing a drawing surface or a rectangle.
#[derive(Clone, Copy, Debug, PartialEq, Eq, Structural)]
pub struct Extent2<A> {
    pub width: A,
    pub height: A,
}

impl<A> Extent2<A> {
    pub fn new(width: A, height: A) -> (r: Self)
        ensures
            r.width == width,
            r.height == height,
    {
        Extent2 { width, height }
    }
}

/// Chart-wide configuration: the extent of the drawing surface in screen
/// units.
#[derive(Clone, Copy, Debug)]
pub struct ChartOptions {
    pub extent: Extent2<i64>,
}

} // verus!
