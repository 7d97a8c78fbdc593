//! The camera: which part of the canvas is visible, and where on screen.

use vstd::prelude::*;
use vstd::arithmetic::mul::{lemma_mul_inequality, lemma_mul_inequality_converse};
use crate::canvas::{PositiveRange, Viewport, ViewportModel};
use crate::fixed::{clamp_raw, in_range, Fixed, ONE_RAW};
use crate::rect::{
    chain_carries, chain_slack, lemma_chain_round_trip, lemma_floor_bounds, map_axis, ratio_axis,
    scale_axis, Rect, RectModel, RectTransform, TransformModel,
};
use crate::spaces::CanvasVector;
use crate::vec2::{coord_add, coord_sub, Coord, Vec2};

verus! {

/// The normalized screen: the square from `(-1, -1)` to `(1, 1)`.
pub open spec fn norm_rect() -> RectModel {
    RectModel {
        min: Coord { x: -ONE_RAW, y: -ONE_RAW },
        size: Coord { x: 2 * ONE_RAW, y: 2 * ONE_RAW },
    }
}

/// Mathematical model of a [`Camera`].
pub struct CameraModel {
    pub view: ViewportModel,
    pub viewport: RectModel,
}

impl CameraModel {
    /// The on-screen rectangle in its own pixel space, where its top left
    /// corner is the origin.
    pub open spec fn pixel_rect(self) -> RectModel {
        RectModel { min: Coord { x: 0, y: 0 }, size: self.viewport.size }
    }

    /// From the canvas to the on-screen rectangle, in window coordinates.
    pub open spec fn canvas_to_view(self) -> TransformModel {
        self.view.canvas_to_view(self.viewport)
    }

    /// From window coordinates to the normalized screen.
    pub open spec fn view_to_screen_norm(self) -> TransformModel {
        TransformModel { from: self.viewport, to: norm_rect() }
    }

    /// From the normalized screen to screen pixels.
    pub open spec fn screen_norm_to_pixel(self) -> TransformModel {
        TransformModel { from: norm_rect(), to: self.pixel_rect() }
    }

    /// The screen pixel at which the canvas point `p` appears.
    pub open spec fn pixel_from_canvas(self, p: Coord) -> Coord {
        self.screen_norm_to_pixel().pos(self.view_to_screen_norm().pos(self.canvas_to_view().pos(p)))
    }

    /// The canvas displacement `v` in screen pixels.
    pub open spec fn pixel_vec_from_canvas(self, v: Coord) -> Coord {
        self.screen_norm_to_pixel().vec(self.view_to_screen_norm().vec(self.canvas_to_view().vec(v)))
    }

    /// The normalized position of the screen pixel `p`.
    pub open spec fn norm_from_pixel(self, p: Coord) -> Coord {
        self.screen_norm_to_pixel().inverse().pos(p)
    }

    /// The screen pixel displacement `v`, normalized.
    pub open spec fn norm_vec_from_pixel(self, v: Coord) -> Coord {
        self.screen_norm_to_pixel().inverse().vec(v)
    }

    /// The canvas point that appears at the normalized position `p`.
    pub open spec fn canvas_from_norm(self, p: Coord) -> Coord {
        self.canvas_to_view().inverse().pos(self.view_to_screen_norm().inverse().pos(p))
    }

    /// The normalized displacement `v` on the canvas.
    pub open spec fn canvas_vec_from_norm(self, v: Coord) -> Coord {
        self.canvas_to_view().inverse().vec(self.view_to_screen_norm().inverse().vec(v))
    }

    /// The canvas point that appears at the screen pixel `p`.
    pub open spec fn canvas_from_pixel(self, p: Coord) -> Coord {
        self.canvas_from_norm(self.norm_from_pixel(p))
    }

    /// The screen pixel displacement `v` on the canvas.
    pub open spec fn canvas_vec_from_pixel(self, v: Coord) -> Coord {
        self.canvas_vec_from_norm(self.norm_vec_from_pixel(v))
    }

    /// The same camera with the centre of the visible square moved by `-v`.
    pub open spec fn pan_back(self, v: Coord) -> CameraModel {
        CameraModel {
            view: ViewportModel { center: coord_sub(self.view.center, v), size: self.view.size },
            viewport: self.viewport,
        }
    }

    /// The scale factor from the screen to the canvas: how many canvas units
    /// one pixel covers. Where the on-screen rectangle is not square the two
    /// axes have different factors; this is the one of the horizontal axis.
    pub open spec fn view_to_canvas_factor(self) -> int {
        self.canvas_to_view().inverse().scale().x
    }

    /// The width on the canvas of a stroke drawn with a pen of the given
    /// size: the size times the scale factor from the screen to the canvas.
    pub open spec fn stroke_width(self, size: int) -> int {
        clamp_raw((self.view_to_canvas_factor() * size) / (ONE_RAW as int))
    }

    /// The extents of the visible square and of the on-screen rectangle
    /// are positive; every camera is valid.
    pub open spec fn valid(self) -> bool {
        self.view.size > 0 && self.viewport.positive()
    }

    /// Whether the canvas point `p` reaches the screen without saturation
    /// at any step.
    pub open spec fn shows(self, p: Coord) -> bool {
        &&& chain_carries(
            self.canvas_to_view().x_axis(),
            self.view_to_screen_norm().x_axis(),
            self.screen_norm_to_pixel().x_axis(),
            p.x,
        )
        &&& chain_carries(
            self.canvas_to_view().y_axis(),
            self.view_to_screen_norm().y_axis(),
            self.screen_norm_to_pixel().y_axis(),
            p.y,
        )
    }

    /// Whether the screen pixel `p` reaches the canvas without saturation
    /// at any step.
    pub open spec fn locates(self, p: Coord) -> bool {
        &&& chain_carries(
            self.screen_norm_to_pixel().x_axis().inverse(),
            self.view_to_screen_norm().x_axis().inverse(),
            self.canvas_to_view().x_axis().inverse(),
            p.x,
        )
        &&& chain_carries(
            self.screen_norm_to_pixel().y_axis().inverse(),
            self.view_to_screen_norm().y_axis().inverse(),
            self.canvas_to_view().y_axis().inverse(),
            p.y,
        )
    }

    /// How far, along each axis, a canvas point may come back below itself
    /// from the screen.
    pub open spec fn canvas_slack(self) -> Coord {
        Coord {
            x: chain_slack(
                self.canvas_to_view().x_axis(),
                self.view_to_screen_norm().x_axis(),
                self.screen_norm_to_pixel().x_axis(),
            ),
            y: chain_slack(
                self.canvas_to_view().y_axis(),
                self.view_to_screen_norm().y_axis(),
                self.screen_norm_to_pixel().y_axis(),
            ),
        }
    }

    /// How far, along each axis, a screen pixel may come back below itself
    /// from the canvas.
    pub open spec fn pixel_slack(self) -> Coord {
        Coord {
            x: chain_slack(
                self.screen_norm_to_pixel().x_axis().inverse(),
                self.view_to_screen_norm().x_axis().inverse(),
                self.canvas_to_view().x_axis().inverse(),
            ),
            y: chain_slack(
                self.screen_norm_to_pixel().y_axis().inverse(),
                self.view_to_screen_norm().y_axis().inverse(),
                self.canvas_to_view().y_axis().inverse(),
            ),
        }
    }

    /// The width on screen, in pixels along the horizontal axis, of a
    /// stroke whose width on the canvas is `width`.
    pub open spec fn width_on_screen(self, width: int) -> int {
        self.canvas_to_view().vec(Coord { x: width, y: 0 }).x
    }

    /// Whether the width of a stroke drawn with a pen of the given size,
    /// and that width on screen, are computed without saturation.
    pub open spec fn measures(self, size: int) -> bool {
        let factor = ratio_axis(self.viewport.size.x, self.view.size);
        &&& in_range(factor)
        &&& in_range((factor * size) / (ONE_RAW as int))
        &&& in_range(scale_axis(self.stroke_width(size), self.view.size, self.viewport.size.x))
    }

    /// How far below the size of the pen the width of its stroke on screen
    /// may lie: one step, and what rounding the scale factor costs.
    pub open spec fn footprint_slack(self, size: int) -> int {
        ((size + ONE_RAW) * self.viewport.size.x) / (self.view.size * ONE_RAW) + 1
    }

    /// Whether the screen pixel `p` lies within the on-screen rectangle.
    pub open spec fn in_screen(self, p: Coord) -> bool {
        0 <= p.x < self.viewport.size.x && 0 <= p.y < self.viewport.size.y
    }

    /// The window position of the screen pixel `p`.
    pub open spec fn window_from_pixel(self, p: Coord) -> Coord {
        coord_add(p, self.viewport.min)
    }

    /// The screen pixel at the window position `p`.
    pub open spec fn pixel_from_window(self, p: Coord) -> Coord {
        coord_sub(p, self.viewport.min)
    }
}

/// The camera: the visible square of the canvas together with the
/// rectangle of the window, in logical pixels, in which it is shown.
///
/// The on-screen rectangle always has positive extent, and so has the
/// visible square; every conversion between spaces is therefore defined.
#[derive(Clone, Copy, Debug, PartialEq, Eq)]
pub struct Camera {
    pub(crate) view: Viewport,
    pub(crate) viewport: Rect,
}

impl Camera {
    #[verifier::type_invariant]
    pub open(crate) spec fn inv(self) -> bool {
        self.viewport@.positive() && self.view@.size > 0
    }

    pub open(crate) spec fn view(self) -> CameraModel {
        CameraModel { view: self.view@, viewport: self.viewport@ }
    }

    /// A camera that shows `view` in the on-screen rectangle `viewport`.
    pub fn new(view: Viewport, viewport: Rect) -> (r: Camera)
        requires
            viewport@.positive(),
        ensures
            r@ == (CameraModel { view: view@, viewport: viewport@ }),
    {
        proof {
            use_type_invariant(&view);
        }
        Camera { view, viewport }
    }

    /// The visible part of the canvas.
    pub fn visible(&self) -> (r: Viewport)
        ensures
            r@ == self@.view,
            r@.size > 0,
    {
        proof {
            use_type_invariant(self);
        }
        self.view
    }

    /// The on-screen rectangle, in window coordinates.
    pub fn viewport(&self) -> (r: Rect)
        ensures
            r@ == self@.viewport,
            r@.positive(),
    {
        proof {
            use_type_invariant(self);
        }
        self.viewport
    }

    /// Replaces the on-screen rectangle; one without positive extent is a
    /// caller's error.
    pub fn set_viewport(&mut self, viewport: Rect)
        requires
            viewport@.positive(),
        ensures
            final(self)@ == (CameraModel { view: old(self)@.view, viewport: viewport@ }),
    {
        proof {
            use_type_invariant(&*self);
        }
        self.viewport = viewport;
    }

    /// Replaces the visible part of the canvas.
    pub fn set_visible(&mut self, view: Viewport)
        ensures
            final(self)@ == (CameraModel { view: view@, viewport: old(self)@.viewport }),
    {
        proof {
            use_type_invariant(&*self);
            use_type_invariant(&view);
        }
        self.view = view;
    }

    /// Moves the centre of the visible square by `delta`.
    pub fn pan(&mut self, delta: CanvasVector)
        ensures
            final(self)@ == (CameraModel {
                view: ViewportModel {
                    center: coord_add(old(self)@.view.center, delta@),
                    size: old(self)@.view.size,
                },
                viewport: old(self)@.viewport,
            }),
    {
        let mut view: Viewport = self.visible();
        view.pan(delta);
        self.set_visible(view);
    }

    /// Moves the centre of the visible square by `-delta`.
    pub fn pan_back(&mut self, delta: CanvasVector)
        ensures
            final(self)@ == old(self)@.pan_back(delta@),
    {
        let mut view: Viewport = self.visible();
        view.pan_back(delta);
        self.set_visible(view);
    }

    /// Sets the extent of the visible square to `value`, clamped to
    /// `limits`.
    pub fn set_zoom(&mut self, value: Fixed, limits: &PositiveRange)
        ensures
            final(self)@ == (CameraModel {
                view: ViewportModel {
                    center: old(self)@.view.center,
                    size: limits.clamped(value@),
                },
                viewport: old(self)@.viewport,
            }),
            limits.lower() <= final(self)@.view.size <= limits.upper(),
            final(self)@.view.size > 0,
    {
        let mut view: Viewport = self.visible();
        view.set_zoom(value, limits);
        self.set_visible(view);
    }

    /// Multiplies the extent of the visible square by `factor` and clamps
    /// it to `limits`.
    pub fn zoom_by(&mut self, factor: Fixed, limits: &PositiveRange)
        ensures
            final(self)@ == (CameraModel {
                view: ViewportModel {
                    center: old(self)@.view.center,
                    size: limits.clamped(
                        clamp_raw((old(self)@.view.size * factor@) / (ONE_RAW as int)),
                    ),
                },
                viewport: old(self)@.viewport,
            }),
            limits.lower() <= final(self)@.view.size <= limits.upper(),
            final(self)@.view.size > 0,
    {
        let mut view: Viewport = self.visible();
        view.zoom_by(factor, limits);
        self.set_visible(view);
    }

    /// The width on the canvas of a stroke drawn with a pen of size
    /// `size`: the size times the scale factor from the screen to the
    /// canvas along the horizontal axis, so that the width of the stroke
    /// on screen is the size of the pen at every zoom.
    pub fn stroke_width(&self, size: Fixed) -> (r: Fixed)
        ensures
            r@ == self@.stroke_width(size@),
    {
        self.view_to_canvas().scale().x.mul(size)
    }

    /// The normalized screen.
    pub fn norm_rect() -> (r: Rect)
        ensures
            r@ == norm_rect(),
    {
        let minus_one: Fixed = Fixed::one().neg();
        let two: Fixed = Fixed::from_int(2);
        Rect::from_min_size(Vec2::splat(minus_one), Vec2::splat(two))
    }

    /// The on-screen rectangle in screen pixel space.
    pub fn pixel_rect(&self) -> (r: Rect)
        ensures
            r@ == self@.pixel_rect(),
            r@.positive(),
    {
        Rect::from_min_size(Vec2::zero(), self.viewport().size)
    }

    /// From the canvas to the on-screen rectangle, in window coordinates.
    pub fn canvas_to_view(&self) -> (r: RectTransform)
        ensures
            r@ == self@.canvas_to_view(),
            r@.to.positive(),
    {
        self.visible().canvas_to_view(self.viewport())
    }

    /// From the on-screen rectangle, in window coordinates, to the canvas.
    pub fn view_to_canvas(&self) -> (r: RectTransform)
        ensures
            r@ == self@.canvas_to_view().inverse(),
            r@.to.positive(),
    {
        self.visible().view_to_canvas(self.viewport())
    }

    /// From window coordinates to the normalized screen.
    pub fn view_to_screen_norm(&self) -> (r: RectTransform)
        ensures
            r@ == self@.view_to_screen_norm(),
            r@.to.positive(),
    {
        RectTransform::from_to(self.viewport(), Camera::norm_rect())
    }

    /// From the normalized screen to screen pixels.
    pub fn screen_norm_to_pixel(&self) -> (r: RectTransform)
        ensures
            r@ == self@.screen_norm_to_pixel(),
            r@.to.positive(),
    {
        RectTransform::from_to(Camera::norm_rect(), self.pixel_rect())
    }
}

impl Default for Camera {
    /// The unit square around the origin, shown in a rectangle that
    /// coincides with it.
    fn default() -> (r: Camera)
        ensures
            r@.view == (ViewportModel { center: Coord { x: 0, y: 0 }, size: ONE_RAW as int }),
            r@.viewport == r@.view.rect(),
    {
        let view: Viewport = Viewport::default();
        let viewport: Rect = view.rect();
        Camera::new(view, viewport)
    }
}

/// The conversions are inverse to each other up to rounding: a canvas
/// point that reaches the screen without saturation comes back from there
/// to within [`CameraModel::canvas_slack`] below where it started, and
/// never above.
pub proof fn lemma_canvas_round_trip(camera: CameraModel, p: Coord)
    requires
        camera.valid(),
        in_range(p.x),
        in_range(p.y),
        camera.shows(p),
    ensures
        p.x - camera.canvas_slack().x <= camera.canvas_from_pixel(camera.pixel_from_canvas(p)).x
            <= p.x,
        p.y - camera.canvas_slack().y <= camera.canvas_from_pixel(camera.pixel_from_canvas(p)).y
            <= p.y,
{
    lemma_chain_round_trip(
        camera.canvas_to_view().x_axis(),
        camera.view_to_screen_norm().x_axis(),
        camera.screen_norm_to_pixel().x_axis(),
        p.x,
    );
    lemma_chain_round_trip(
        camera.canvas_to_view().y_axis(),
        camera.view_to_screen_norm().y_axis(),
        camera.screen_norm_to_pixel().y_axis(),
        p.y,
    );
}

/// A screen pixel that reaches the canvas without saturation comes back
/// from there to within [`CameraModel::pixel_slack`] below where it
/// started, and never above.
pub proof fn lemma_pixel_round_trip(camera: CameraModel, p: Coord)
    requires
        camera.valid(),
        in_range(p.x),
        in_range(p.y),
        camera.locates(p),
    ensures
        p.x - camera.pixel_slack().x <= camera.pixel_from_canvas(camera.canvas_from_pixel(p)).x
            <= p.x,
        p.y - camera.pixel_slack().y <= camera.pixel_from_canvas(camera.canvas_from_pixel(p)).y
            <= p.y,
{
    lemma_chain_round_trip(
        camera.screen_norm_to_pixel().x_axis().inverse(),
        camera.view_to_screen_norm().x_axis().inverse(),
        camera.canvas_to_view().x_axis().inverse(),
        p.x,
    );
    lemma_chain_round_trip(
        camera.screen_norm_to_pixel().y_axis().inverse(),
        camera.view_to_screen_norm().y_axis().inverse(),
        camera.canvas_to_view().y_axis().inverse(),
        p.y,
    );
}

/// The place of a canvas point on screen is stable: taken to the canvas
/// and to the screen again, it moves by no more than
/// [`CameraModel::pixel_slack`].
pub proof fn lemma_screen_image_stable(camera: CameraModel, p: Coord)
    requires
        camera.valid(),
        camera.locates(camera.pixel_from_canvas(p)),
    ensures
        ({
            let seen = camera.pixel_from_canvas(p);
            let again = camera.pixel_from_canvas(camera.canvas_from_pixel(seen));
            &&& seen.x - camera.pixel_slack().x <= again.x <= seen.x
            &&& seen.y - camera.pixel_slack().y <= again.y <= seen.y
        }),
{
    lemma_pixel_round_trip(camera, camera.pixel_from_canvas(p));
}

/// The on-screen rectangle is the square from `(-1, -1)` to `(1, 1)` of the
/// normalized screen: its corner pixels are the corners of that square.
pub proof fn lemma_screen_is_unit_square(camera: CameraModel)
    requires
        camera.valid(),
        in_range(camera.viewport.size.x),
        in_range(camera.viewport.size.y),
    ensures
        camera.norm_from_pixel(Coord { x: 0, y: 0 }) == (Coord { x: -ONE_RAW, y: -ONE_RAW }),
        camera.norm_from_pixel(camera.viewport.size) == (Coord {
            x: ONE_RAW as int,
            y: ONE_RAW as int,
        }),
        camera.screen_norm_to_pixel().pos(Coord { x: -ONE_RAW, y: -ONE_RAW }) == (Coord {
            x: 0,
            y: 0,
        }),
        camera.screen_norm_to_pixel().pos(Coord { x: ONE_RAW as int, y: ONE_RAW as int })
            == camera.viewport.size,
{
    let w = camera.viewport.size.x;
    let h = camera.viewport.size.y;
    let two = 2 * ONE_RAW;
    vstd::arithmetic::div_mod::lemma_div_multiples_vanish(two, w);
    vstd::arithmetic::div_mod::lemma_div_multiples_vanish(two, h);
    vstd::arithmetic::div_mod::lemma_div_multiples_vanish(w, two);
    vstd::arithmetic::div_mod::lemma_div_multiples_vanish(h, two);
    vstd::arithmetic::mul::lemma_mul_is_commutative(two, w);
    vstd::arithmetic::mul::lemma_mul_is_commutative(two, h);
    assert((0 - 0) * two == 0);
    assert((-ONE_RAW - (-ONE_RAW)) * w == 0) by (nonlinear_arith);
    assert((-ONE_RAW - (-ONE_RAW)) * h == 0) by (nonlinear_arith);
    assert((ONE_RAW - (-ONE_RAW)) * w == two * w) by (nonlinear_arith)
        requires
            two == 2 * ONE_RAW,
    ;
    assert((ONE_RAW - (-ONE_RAW)) * h == two * h) by (nonlinear_arith)
        requires
            two == 2 * ONE_RAW,
    ;
}

/// A screen pixel lies within the on-screen rectangle exactly if its
/// normalized position lies within the square from `(-1, -1)` to `(1, 1)`,
/// the far edges excluded.
pub proof fn lemma_in_screen_is_in_unit_square(camera: CameraModel, p: Coord)
    requires
        camera.valid(),
        in_range(camera.viewport.size.x),
        in_range(camera.viewport.size.y),
    ensures
        camera.in_screen(p) <==> {
            let n = camera.norm_from_pixel(p);
            -ONE_RAW <= n.x < ONE_RAW && -ONE_RAW <= n.y < ONE_RAW
        },
{
    lemma_norm_axis_in_unit(p.x, camera.viewport.size.x);
    lemma_norm_axis_in_unit(p.y, camera.viewport.size.y);
}

/// Along one axis: a pixel lies within the extent `w` exactly if its
/// normalized position lies within `[-1, 1)`.
proof fn lemma_norm_axis_in_unit(x: int, w: int)
    requires
        0 < w,
        in_range(w),
    ensures
        0 <= x < w <==> -ONE_RAW <= clamp_raw(map_axis(x, 0, w, -ONE_RAW, 2 * ONE_RAW)) < ONE_RAW,
{
    let two = 2 * ONE_RAW;
    let q = (x * two) / w;
    lemma_floor_bounds(x * two, w);
    assert((x - 0) * two == x * two);
    if x < 0 {
        assert(q < 0) by (nonlinear_arith)
            requires
                x < 0,
                w > 0,
                two == 0x2_0000_0000,
                q * w <= x * two,
        ;
    } else if x < w {
        assert(0 <= q < two) by (nonlinear_arith)
            requires
                0 <= x < w,
                two == 0x2_0000_0000,
                q * w <= x * two < q * w + w,
        ;
    } else {
        assert(q >= two) by (nonlinear_arith)
            requires
                x >= w,
                w > 0,
                two == 0x2_0000_0000,
                x * two < q * w + w,
        ;
    }
}

/// The footprint of a pen on screen does not depend on the zoom: whatever
/// the visible extent, a stroke drawn with a pen of size `size` is on
/// screen never wider than `size`.
pub proof fn lemma_stroke_footprint_bounded(camera: CameraModel, size: int)
    requires
        camera.valid(),
        0 <= size,
    ensures
        0 <= camera.width_on_screen(camera.stroke_width(size)) <= size,
{
    let one = ONE_RAW as int;
    let s = camera.view.size;
    let w = camera.viewport.size.x;
    let k = s * one;
    let qx = (s * one) / w;
    let sx = clamp_raw(qx);
    lemma_floor_bounds(k, w);
    assert(qx >= 0) by (nonlinear_arith)
        requires
            k >= 0,
            w > 0,
            k < qx * w + w,
    ;
    lemma_mul_inequality(sx, qx, w);
    assert(sx * w <= k);
    assert(sx == camera.view_to_canvas_factor());
    // the width on the canvas
    let qw = (sx * size) / one;
    let width = clamp_raw(qw);
    lemma_floor_bounds(sx * size, one);
    assert(sx * size >= 0) by (nonlinear_arith)
        requires
            sx >= 0,
            size >= 0,
    ;
    assert(0 <= width <= qw);
    assert(width == camera.stroke_width(size));
    lemma_mul_inequality(width, qw, one);
    assert(width * one <= sx * size);
    // the width on screen
    let qp = (width * w) / s;
    let px = clamp_raw(qp);
    lemma_floor_bounds(width * w, s);
    assert(width * w >= 0) by (nonlinear_arith)
        requires
            width >= 0,
            w > 0,
    ;
    assert(qp >= 0) by (nonlinear_arith)
        requires
            width * w >= 0,
            s > 0,
            width * w < qp * s + s,
    ;
    assert(0 <= px <= qp);
    assert(px == camera.width_on_screen(width));
    lemma_mul_inequality(px, qp, s);
    assert(px * s <= width * w);
    // put together, everything times `s * one`
    lemma_mul_inequality(px * s, width * w, one);
    assert((px * s) * one == px * k) by (nonlinear_arith)
        requires
            k == s * one,
    ;
    assert((width * w) * one == (width * one) * w) by (nonlinear_arith);
    lemma_mul_inequality(width * one, sx * size, w);
    assert((sx * size) * w == (sx * w) * size) by (nonlinear_arith);
    lemma_mul_inequality(sx * w, k, size);
    assert(k * size == size * k) by (nonlinear_arith);
    assert(px * k <= size * k);
    assert(k > 0) by (nonlinear_arith)
        requires
            s > 0,
            k == s * one,
            one == 0x1_0000_0000,
    ;
    lemma_mul_inequality_converse(px, size, k);
}

/// Nor does the footprint of a pen shrink with the zoom: where nothing
/// saturates, a stroke drawn with a pen of size `size` is on screen as
/// wide as `size`, less at most [`CameraModel::footprint_slack`].
pub proof fn lemma_stroke_footprint_kept(camera: CameraModel, size: int)
    requires
        camera.valid(),
        0 <= size,
        camera.measures(size),
    ensures
        size - camera.footprint_slack(size) <= camera.width_on_screen(camera.stroke_width(size))
            <= size,
{
    lemma_stroke_footprint_bounded(camera, size);
    let one = ONE_RAW as int;
    let s = camera.view.size;
    let w = camera.viewport.size.x;
    let k = s * one;
    let sx = (s * one) / w;
    lemma_floor_bounds(k, w);
    assert(sx >= 0) by (nonlinear_arith)
        requires
            k >= 0,
            w > 0,
            k < sx * w + w,
    ;
    assert(sx == camera.view_to_canvas_factor());
    let width = (sx * size) / one;
    assert(width == camera.stroke_width(size));
    lemma_floor_bounds(sx * size, one);
    let px = (width * w) / s;
    assert(px == camera.width_on_screen(width));
    lemma_floor_bounds(width * w, s);
    // from the scale factor to the width on the canvas
    lemma_mul_inequality(k - w + 1, sx * w, size);
    assert((sx * w) * size == (sx * size) * w) by (nonlinear_arith);
    assert((k - w + 1) * size == size * k - size * w + size) by (nonlinear_arith);
    assert((sx * size) * w >= size * k - size * w + size);
    // from the width on the canvas to the width on screen
    lemma_mul_inequality(sx * size - one + 1, width * one, w);
    assert((sx * size - one + 1) * w == (sx * size) * w - one * w + w) by (nonlinear_arith);
    lemma_mul_inequality(width * w - s + 1, px * s, one);
    assert((width * w - s + 1) * one == (width * one) * w - k + one) by (nonlinear_arith)
        requires
            k == s * one,
    ;
    assert((px * s) * one == px * k) by (nonlinear_arith)
        requires
            k == s * one,
    ;
    assert(px * k >= size * k - size * w - one * w - k);
    assert((size - px - 1) * k == size * k - px * k - k) by (nonlinear_arith);
    let n = (size + one) * w;
    assert(n == size * w + one * w) by (nonlinear_arith)
        requires
            n == (size + one) * w,
    ;
    assert((size - px - 1) * k <= n);
    // divide by `s * one`
    assert(k > 0) by (nonlinear_arith)
        requires
            s > 0,
            k == s * one,
            one == 0x1_0000_0000,
    ;
    lemma_floor_bounds(n, k);
    assert(size - px - 1 <= n / k) by (nonlinear_arith)
        requires
            k > 0,
            (size - px - 1) * k <= n,
            n < (n / k) * k + k,
    ;
}

/// The width of a stroke on screen is the same at every zoom: two cameras
/// that show the canvas at different extents give the strokes of one pen
/// the same width on screen, up to the slack of each.
pub proof fn lemma_stroke_footprint_same_at_two_zooms(near: CameraModel, far: CameraModel, size: int)
    requires
        near.valid(),
        far.valid(),
        0 <= size,
        near.measures(size),
        far.measures(size),
    ensures
        -near.footprint_slack(size) <= near.width_on_screen(near.stroke_width(size))
            - far.width_on_screen(far.stroke_width(size)) <= far.footprint_slack(size),
{
    lemma_stroke_footprint_kept(near, size);
    lemma_stroke_footprint_kept(far, size);
}

} // verus!
