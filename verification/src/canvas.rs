//! The canvas: strokes drawn on it and the part of it that is visible.

use vstd::prelude::*;
use crate::fixed::{clamp_between, clamp_raw, Fixed, ONE_RAW};
use crate::rect::{Rect, RectModel, RectTransform, TransformModel};
use crate::spaces::{CanvasPoint, CanvasVector};
use crate::vec2::{coord_add, coord_sub, Coord, Vec2};

verus! {

/// A linear RGBA colour; each channel is a number, nominally in `[0, 1]`.
#[derive(Clone, Copy, Debug, PartialEq, Eq)]
pub struct Color {
    pub red: Fixed,
    pub green: Fixed,
    pub blue: Fixed,
    pub alpha: Fixed,
}

impl Color {
    pub fn new(red: Fixed, green: Fixed, blue: Fixed, alpha: Fixed) -> (r: Color)
        ensures
            r == (Color { red, green, blue, alpha }),
    {
        Color { red, green, blue, alpha }
    }

    /// Whether every channel is one.
    pub open spec fn is_white(self) -> bool {
        &&& self.red@ == ONE_RAW
        &&& self.green@ == ONE_RAW
        &&& self.blue@ == ONE_RAW
        &&& self.alpha@ == ONE_RAW
    }

    /// Opaque white.
    pub fn white() -> (r: Color)
        ensures
            r.is_white(),
            r == white(),
    {
        Color { red: Fixed::one(), green: Fixed::one(), blue: Fixed::one(), alpha: Fixed::one() }
    }
}

/// Opaque white.
pub closed spec fn white() -> Color {
    Color {
        red: Fixed { raw: ONE_RAW },
        green: Fixed { raw: ONE_RAW },
        blue: Fixed { raw: ONE_RAW },
        alpha: Fixed { raw: ONE_RAW },
    }
}

/// Every channel of [`white`] is one.
pub proof fn lemma_white_is_white()
    ensures
        white().is_white(),
{
}

/// The coordinates of a sequence of canvas points.
pub open spec fn points_model(points: Seq<CanvasPoint>) -> Seq<Coord> {
    points.map_values(|p: CanvasPoint| p@)
}

/// Mathematical model of a stroke.
pub struct CurveModel {
    pub points: Seq<Coord>,
    pub width: int,
    pub color: Color,
}

/// A stroke: a poly-line in canvas space, in the order it was drawn.
#[derive(Clone, Debug, PartialEq, Eq)]
pub struct Curve {
    pub points: Vec<CanvasPoint>,
    pub width: Fixed,
    pub color: Color,
}

impl Curve {
    pub open spec fn view(self) -> CurveModel {
        CurveModel { points: points_model(self.points@), width: self.width@, color: self.color }
    }

    /// A stroke without points.
    pub fn new(width: Fixed, color: Color) -> (r: Curve)
        ensures
            r@ == (CurveModel { points: Seq::empty(), width: width@, color }),
    {
        let r = Curve { points: Vec::new(), width, color };
        assert(r@.points =~= Seq::empty());
        r
    }

    /// A copy of the stroke.
    pub fn duplicate(&self) -> (r: Curve)
        ensures
            r@ == self@,
            r.points@ == self.points@,
    {
        let mut points: Vec<CanvasPoint> = Vec::new();
        let mut i: usize = 0;
        while i < self.points.len()
            invariant
                i <= self.points.len(),
                points@ == self.points@.take(i as int),
            decreases self.points.len() - i,
        {
            points.push(self.points[i]);
            i += 1;
            assert(points@ =~= self.points@.take(i as int));
        }
        assert(points@ =~= self.points@);
        Curve { points, width: self.width, color: self.color }
    }

    /// Whether the stroke has a segment to draw.
    pub fn is_drawable(&self) -> (b: bool)
        ensures
            b <==> self@.points.len() >= 2,
    {
        self.points.len() >= 2
    }
}

impl Default for Curve {
    /// A white stroke of width one without points.
    fn default() -> (r: Curve)
        ensures
            r@.points == Seq::<Coord>::empty(),
            r@.width == ONE_RAW,
            r@.color.is_white(),
    {
        Curve::new(Fixed::one(), Color::white())
    }
}

/// The stroke that is being drawn, if any.
#[derive(Clone, Debug, PartialEq, Eq)]
pub struct CurrentCurve(pub Option<Curve>);

impl Default for CurrentCurve {
    fn default() -> (r: CurrentCurve)
        ensures
            r.0 is None,
    {
        CurrentCurve(None)
    }
}

/// A range of positive numbers that a control may set a value to, such as
/// the extent of the visible square or the size of the pen.
#[derive(Clone, Copy, Debug, PartialEq, Eq)]
pub struct PositiveRange {
    pub(crate) min: Fixed,
    pub(crate) max: Fixed,
}

impl PositiveRange {
    #[verifier::type_invariant]
    pub open(crate) spec fn inv(self) -> bool {
        0 < self.min@ <= self.max@
    }

    /// The least value.
    pub open(crate) spec fn lower(self) -> int {
        self.min@
    }

    /// The greatest value.
    pub open(crate) spec fn upper(self) -> int {
        self.max@
    }

    /// The value within the limits that is nearest to `v`.
    pub open spec fn clamped(self, v: int) -> int {
        clamp_between(v, self.lower(), self.upper())
    }

    pub fn new(min: Fixed, max: Fixed) -> (r: PositiveRange)
        requires
            0 < min@ <= max@,
        ensures
            r.lower() == min@,
            r.upper() == max@,
    {
        PositiveRange { min, max }
    }

    pub fn min(&self) -> (r: Fixed)
        ensures
            r@ == self.lower(),
            0 < r@ <= self.upper(),
    {
        proof {
            use_type_invariant(self);
        }
        self.min
    }

    pub fn max(&self) -> (r: Fixed)
        ensures
            r@ == self.upper(),
            0 < self.lower() <= r@,
    {
        proof {
            use_type_invariant(self);
        }
        self.max
    }

    /// The value within the limits that is nearest to `value`; it is
    /// always greater than zero.
    pub fn clamp(&self, value: Fixed) -> (r: Fixed)
        ensures
            r@ == self.clamped(value@),
            self.lower() <= r@ <= self.upper(),
            r@ > 0,
    {
        proof {
            use_type_invariant(self);
        }
        value.clamp(self.min, self.max)
    }
}

/// Clamping to limits never leaves them: a value below the least one
/// becomes the least one, a value above the greatest one the greatest, and
/// the result is positive whenever the limits are.
pub proof fn lemma_clamp_between(v: int, lo: int, hi: int)
    requires
        0 < lo <= hi,
    ensures
        lo <= clamp_between(v, lo, hi) <= hi,
        clamp_between(v, lo, hi) > 0,
        v < lo ==> clamp_between(v, lo, hi) == lo,
        v > hi ==> clamp_between(v, lo, hi) == hi,
        lo <= v <= hi ==> clamp_between(v, lo, hi) == v,
{
}

impl Default for PositiveRange {
    /// From a tenth to ten.
    fn default() -> (r: PositiveRange)
        ensures
            r.lower() == ONE_RAW / 10,
            r.upper() == 10 * ONE_RAW,
    {
        PositiveRange { min: Fixed::from_ratio(1, 10), max: Fixed::from_int(10) }
    }
}

/// Mathematical model of a [`Viewport`].
pub struct ViewportModel {
    pub center: Coord,
    pub size: int,
}

impl ViewportModel {
    /// The visible square of the canvas.
    pub open spec fn rect(self) -> RectModel {
        RectModel {
            min: Coord {
                x: clamp_raw(self.center.x - self.size / 2),
                y: clamp_raw(self.center.y - self.size / 2),
            },
            size: Coord { x: self.size, y: self.size },
        }
    }

    /// The map from the on-screen rectangle `view_rect` to the visible
    /// square of the canvas.
    pub open spec fn view_to_canvas(self, view_rect: RectModel) -> TransformModel {
        TransformModel { from: view_rect, to: self.rect() }
    }

    /// The map from the visible square of the canvas to the on-screen
    /// rectangle `view_rect`.
    pub open spec fn canvas_to_view(self, view_rect: RectModel) -> TransformModel {
        TransformModel { from: self.rect(), to: view_rect }
    }
}

/// The visible part of the canvas: a square of positive extent `size`
/// around `center`.
#[derive(Clone, Copy, Debug, PartialEq, Eq)]
pub struct Viewport {
    pub(crate) center: CanvasPoint,
    pub(crate) size: Fixed,
}

impl Viewport {
    #[verifier::type_invariant]
    pub open(crate) spec fn inv(self) -> bool {
        self.size@ > 0
    }

    pub open(crate) spec fn view(self) -> ViewportModel {
        ViewportModel { center: self.center@, size: self.size@ }
    }

    /// The viewport of extent `size` around `center`.
    pub fn new(center: CanvasPoint, size: Fixed) -> (r: Viewport)
        requires
            size@ > 0,
        ensures
            r@ == (ViewportModel { center: center@, size: size@ }),
    {
        Viewport { center, size }
    }

    pub fn center(&self) -> (r: CanvasPoint)
        ensures
            r@ == self@.center,
    {
        self.center
    }

    pub fn size(&self) -> (r: Fixed)
        ensures
            r@ == self@.size,
            r@ > 0,
    {
        proof {
            use_type_invariant(self);
        }
        self.size
    }

    pub fn set_center(&mut self, center: CanvasPoint)
        ensures
            final(self)@ == (ViewportModel { center: center@, size: old(self)@.size }),
    {
        proof {
            use_type_invariant(&*self);
        }
        self.center = center;
    }

    /// Sets the extent; an extent that is not positive is a caller's error.
    pub fn set_size(&mut self, size: Fixed)
        requires
            size@ > 0,
        ensures
            final(self)@ == (ViewportModel { center: old(self)@.center, size: size@ }),
    {
        self.size = size;
    }

    /// Moves the centre by `delta`.
    pub fn pan(&mut self, delta: CanvasVector)
        ensures
            final(self)@ == (ViewportModel {
                center: coord_add(old(self)@.center, delta@),
                size: old(self)@.size,
            }),
    {
        proof {
            use_type_invariant(&*self);
        }
        self.center = self.center.add_vector(delta);
    }

    /// Moves the centre by `-delta`.
    pub fn pan_back(&mut self, delta: CanvasVector)
        ensures
            final(self)@ == (ViewportModel {
                center: coord_sub(old(self)@.center, delta@),
                size: old(self)@.size,
            }),
    {
        proof {
            use_type_invariant(&*self);
        }
        self.center = self.center.sub_vector(delta);
    }

    /// Sets the extent to `value`, clamped to `limits`.
    pub fn set_zoom(&mut self, value: Fixed, limits: &PositiveRange)
        ensures
            final(self)@ == (ViewportModel {
                center: old(self)@.center,
                size: limits.clamped(value@),
            }),
            limits.lower() <= final(self)@.size <= limits.upper(),
            final(self)@.size > 0,
    {
        self.size = limits.clamp(value);
    }

    /// Multiplies the extent by `factor` and clamps it to `limits`.
    pub fn zoom_by(&mut self, factor: Fixed, limits: &PositiveRange)
        ensures
            final(self)@ == (ViewportModel {
                center: old(self)@.center,
                size: limits.clamped(clamp_raw((old(self)@.size * factor@) / (ONE_RAW as int))),
            }),
            limits.lower() <= final(self)@.size <= limits.upper(),
            final(self)@.size > 0,
    {
        self.size = limits.clamp(self.size.mul(factor));
    }

    /// The visible square of the canvas.
    pub fn rect(&self) -> (r: Rect)
        ensures
            r@ == self@.rect(),
            r@.positive(),
    {
        proof {
            use_type_invariant(self);
        }
        Rect::from_center_size(self.center.cast(), Vec2::splat(self.size))
    }

    /// The map from the on-screen rectangle to the canvas.
    pub fn view_to_canvas(&self, view_rect: Rect) -> (r: RectTransform)
        requires
            view_rect@.positive(),
        ensures
            r@ == self@.view_to_canvas(view_rect@),
    {
        RectTransform::from_to(view_rect, self.rect())
    }

    /// The map from the canvas to the on-screen rectangle.
    pub fn canvas_to_view(&self, view_rect: Rect) -> (r: RectTransform)
        ensures
            r@ == self@.canvas_to_view(view_rect@),
    {
        RectTransform::from_to(self.rect(), view_rect)
    }
}

impl Default for Viewport {
    /// The unit square around the origin.
    fn default() -> (r: Viewport)
        ensures
            r@ == (ViewportModel { center: Coord { x: 0, y: 0 }, size: ONE_RAW as int }),
    {
        Viewport { center: CanvasPoint::new(Fixed::zero(), Fixed::zero()), size: Fixed::one() }
    }
}

} // verus!
