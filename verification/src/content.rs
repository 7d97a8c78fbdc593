//! The scene: everything that has been drawn or placed on the canvas.

use vstd::prelude::*;
use crate::canvas::{Curve, CurveModel};
use crate::geometry::{GeometryLine, GeometryPoint, LineModel};
use crate::vec2::Coord;

verus! {

/// The models of a sequence of strokes.
pub open spec fn curves_model(curves: Seq<Curve>) -> Seq<CurveModel> {
    curves.map_values(|c: Curve| c@)
}

/// The coordinates of a sequence of point markers.
pub open spec fn markers_model(points: Seq<GeometryPoint>) -> Seq<Coord> {
    points.map_values(|p: GeometryPoint| p@)
}

/// The models of a sequence of line markers.
pub open spec fn lines_model(lines: Seq<GeometryLine>) -> Seq<LineModel> {
    lines.map_values(|l: GeometryLine| l@)
}

/// Mathematical model of the scene.
pub struct ContentModel {
    pub curves: Seq<CurveModel>,
    pub points: Seq<Coord>,
    pub lines: Seq<LineModel>,
}

/// The scene. Strokes, points and lines are kept in the order in which
/// they were committed; nothing but a tool or a load changes them.
#[derive(Debug, PartialEq, Eq)]
pub struct Content {
    pub curves: Vec<Curve>,
    pub points: Vec<GeometryPoint>,
    pub lines: Vec<GeometryLine>,
}

impl Content {
    pub open spec fn view(self) -> ContentModel {
        ContentModel {
            curves: curves_model(self.curves@),
            points: markers_model(self.points@),
            lines: lines_model(self.lines@),
        }
    }

    /// The empty scene.
    pub fn new() -> (r: Content)
        ensures
            r@ == (ContentModel { curves: Seq::empty(), points: Seq::empty(), lines: Seq::empty() }),
    {
        let r = Content { curves: Vec::new(), points: Vec::new(), lines: Vec::new() };
        assert(r@.curves =~= Seq::empty());
        assert(r@.points =~= Seq::empty());
        assert(r@.lines =~= Seq::empty());
        r
    }

    /// Adds a finished stroke.
    pub fn spawn_curve(&mut self, curve: Curve)
        ensures
            final(self)@ == (ContentModel { curves: old(self)@.curves.push(curve@), ..old(self)@ }),
            final(self).curves@ == old(self).curves@.push(curve),
    {
        broadcast use Seq::lemma_push_map_commute;

        self.curves.push(curve);
    }

    /// Adds a point marker.
    pub fn spawn_point(&mut self, point: GeometryPoint)
        ensures
            final(self)@ == (ContentModel { points: old(self)@.points.push(point@), ..old(self)@ }),
    {
        broadcast use Seq::lemma_push_map_commute;

        self.points.push(point);
    }

    /// Adds a line marker.
    pub fn spawn_line(&mut self, line: GeometryLine)
        ensures
            final(self)@ == (ContentModel { lines: old(self)@.lines.push(line@), ..old(self)@ }),
    {
        broadcast use Seq::lemma_push_map_commute;

        self.lines.push(line);
    }

    /// Removes every stroke; markers stay.
    pub fn clear_curves(&mut self)
        ensures
            final(self)@ == (ContentModel { curves: Seq::empty(), ..old(self)@ }),
    {
        self.curves = Vec::new();
        assert(curves_model(self.curves@) =~= Seq::empty());
    }

    /// The strokes as a plain sequence of records, for saving.
    pub fn export_curves(&self) -> (r: Vec<Curve>)
        ensures
            curves_model(r@) == self@.curves,
    {
        let mut out: Vec<Curve> = Vec::new();
        let mut i: usize = 0;
        while i < self.curves.len()
            invariant
                i <= self.curves.len(),
                curves_model(out@) == curves_model(self.curves@.take(i as int)),
            decreases self.curves.len() - i,
        {
            let copy: Curve = self.curves[i].duplicate();
            proof {
                let before: Seq<Curve> = self.curves@.take(i as int);
                assert(self.curves@.take(i + 1) =~= before.push(self.curves@[i as int]));
                assert(curves_model(out@.push(copy)) =~= curves_model(out@).push(copy@));
                assert(curves_model(before.push(self.curves@[i as int])) =~= curves_model(
                    before,
                ).push(self.curves@[i as int]@));
            }
            out.push(copy);
            i += 1;
        }
        assert(self.curves@.take(i as int) =~= self.curves@);
        out
    }

    /// Replaces every stroke by the loaded ones; markers stay.
    pub fn replace_curves(&mut self, curves: Vec<Curve>)
        ensures
            final(self)@ == (ContentModel { curves: curves_model(curves@), ..old(self)@ }),
    {
        self.curves = curves;
    }
}

impl Default for Content {
    fn default() -> (r: Content)
        ensures
            r@ == (ContentModel { curves: Seq::empty(), points: Seq::empty(), lines: Seq::empty() }),
    {
        Content::new()
    }
}

} // verus!
