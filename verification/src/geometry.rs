//! Point and line markers placed on the canvas.

use vstd::prelude::*;
use crate::fixed::Fixed;
use crate::spaces::CanvasPoint;
use crate::vec2::Coord;

verus! {

/// A marked point of the canvas.
#[derive(Clone, Copy, Debug, PartialEq, Eq)]
pub struct GeometryPoint {
    /// Where the point lies, in canvas space.
    pub pos: CanvasPoint,
}

impl GeometryPoint {
    pub open spec fn view(self) -> Coord {
        self.pos@
    }

    pub fn new(pos: CanvasPoint) -> (r: Self)
        ensures
            r.pos == pos,
    {
        Self { pos }
    }
}

impl Default for GeometryPoint {
    /// The origin.
    fn default() -> (r: GeometryPoint)
        ensures
            r@ == (Coord { x: 0, y: 0 }),
    {
        GeometryPoint { pos: CanvasPoint::new(Fixed::zero(), Fixed::zero()) }
    }
}

/// Mathematical model of a line marker: its two end points.
pub struct LineModel {
    pub p: Coord,
    pub q: Coord,
}

/// A marked line between two points of the canvas. Which end comes first
/// matters for display only.
#[derive(Clone, Copy, Debug, PartialEq, Eq)]
pub struct GeometryLine {
    pub p: GeometryPoint,
    pub q: GeometryPoint,
}

impl GeometryLine {
    pub open spec fn view(self) -> LineModel {
        LineModel { p: self.p@, q: self.q@ }
    }

    pub fn new(p: GeometryPoint, q: GeometryPoint) -> (r: Self)
        ensures
            r.p == p,
            r.q == q,
    {
        Self { p, q }
    }
}

impl Default for GeometryLine {
    /// The degenerate line at the origin.
    fn default() -> (r: GeometryLine)
        ensures
            r@ == (LineModel { p: Coord { x: 0, y: 0 }, q: Coord { x: 0, y: 0 } }),
    {
        GeometryLine { p: GeometryPoint::default(), q: GeometryPoint::default() }
    }
}

} // verus!
