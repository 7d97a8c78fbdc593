//! The three coordinate spaces and the conversions between them.
//!
//! A position on screen is known in window coordinates first. From there
//! the chain runs `ScreenPixel <-> ScreenNorm <-> Canvas`; each step is one
//! of the camera's maps between rectangles, and a displacement takes the
//! same steps without their translations.

use vstd::prelude::*;
use crate::camera::Camera;
use crate::fixed::{clamp_raw, Fixed, ONE_RAW};
use crate::typed::{SpacePoint, SpaceVector};
use crate::vec2::{Coord, Vec2};

verus! {

/// The canvas as it appears on screen, in logical pixels. The origin is the
/// top left corner of the on-screen rectangle.
#[derive(Clone, Copy, Debug, PartialEq, Eq)]
pub struct ScreenPixelSpace;

/// The canvas as it appears on screen, normalized: the origin is the centre
/// of the on-screen rectangle, and one unit is half its extent along each
/// axis.
#[derive(Clone, Copy, Debug, PartialEq, Eq)]
pub struct ScreenNormSpace;

/// The space of the drawn content, independent of window and zoom.
#[derive(Clone, Copy, Debug, PartialEq, Eq)]
pub struct CanvasSpace;

/// A position in screen pixels.
pub type ScreenPixelPoint = SpacePoint<ScreenPixelSpace>;

/// A displacement in screen pixels.
pub type ScreenPixelVector = SpaceVector<ScreenPixelSpace>;

/// A position on the normalized screen.
pub type ScreenNormPoint = SpacePoint<ScreenNormSpace>;

/// A displacement on the normalized screen.
pub type ScreenNormVector = SpaceVector<ScreenNormSpace>;

/// A position on the canvas.
pub type CanvasPoint = SpacePoint<CanvasSpace>;

/// A displacement on the canvas.
pub type CanvasVector = SpaceVector<CanvasSpace>;

/// What a position in screen pixels can be asked and made from.
pub trait ScreenPixelPointExt: Sized {
    /// Whether the position lies within the on-screen rectangle.
    fn is_in_screen(&self, camera: &Camera) -> bool;

    /// The screen pixel at a position given in window coordinates.
    fn from_window_logical(point: Vec2, camera: &Camera) -> Self;

    /// The position in window coordinates.
    fn into_window_logical(self, camera: &Camera) -> Vec2;

    /// The screen pixel at which a canvas point appears.
    fn from_canvas(point: CanvasPoint, camera: &Camera) -> Self;
}

impl ScreenPixelPointExt for ScreenPixelPoint {
    fn is_in_screen(&self, camera: &Camera) -> (b: bool)
        ensures
            b <==> camera@.in_screen(self@),
    {
        let size: Vec2 = camera.viewport().size;
        Fixed::zero().le(self.x) && Fixed::zero().le(self.y) && self.x.lt(size.x) && self.y.lt(
            size.y,
        )
    }

    fn from_window_logical(point: Vec2, camera: &Camera) -> (r: Self)
        ensures
            r@ == camera@.pixel_from_window(point@),
    {
        SpacePoint::from_untyped(point.sub(camera.viewport().min))
    }

    fn into_window_logical(self, camera: &Camera) -> (r: Vec2)
        ensures
            r@ == camera@.window_from_pixel(self@),
    {
        self.cast().add(camera.viewport().min)
    }

    fn from_canvas(point: CanvasPoint, camera: &Camera) -> (r: Self)
        ensures
            r@ == camera@.pixel_from_canvas(point@),
    {
        let view_point: Vec2 = camera.canvas_to_view().transform_pos(point.cast());
        let screen_norm_point: Vec2 = camera.view_to_screen_norm().transform_pos(view_point);
        let screen_pixel_point: Vec2 = camera.screen_norm_to_pixel().transform_pos(
            screen_norm_point,
        );
        SpacePoint::from_untyped(screen_pixel_point)
    }
}

/// What a displacement in screen pixels can be made from.
pub trait ScreenPixelVectorExt: Sized {
    /// The displacement given in window coordinates; window coordinates and
    /// screen pixels differ by a translation only.
    fn from_window_logical(point: Vec2) -> Self;

    /// A canvas displacement as it appears on screen.
    fn from_canvas(canvas_vector: CanvasVector, camera: &Camera) -> Self;
}

impl ScreenPixelVectorExt for ScreenPixelVector {
    fn from_window_logical(point: Vec2) -> (r: Self)
        ensures
            r@ == point@,
    {
        SpaceVector::from_untyped(point)
    }

    fn from_canvas(canvas_vector: CanvasVector, camera: &Camera) -> (r: Self)
        ensures
            r@ == camera@.pixel_vec_from_canvas(canvas_vector@),
    {
        let view_vector: Vec2 = camera.canvas_to_view().transform_vec(canvas_vector.cast());
        let screen_norm_vector: Vec2 = camera.view_to_screen_norm().transform_vec(view_vector);
        let screen_pixel_vector: Vec2 = camera.screen_norm_to_pixel().transform_vec(
            screen_norm_vector,
        );
        SpaceVector::from_untyped(screen_pixel_vector)
    }
}

/// What a normalized screen position can be made from.
pub trait ScreenNormPointExt: Sized {
    /// The normalized position of a screen pixel.
    fn from_screen_pixel(screen_pixel_point: ScreenPixelPoint, camera: &Camera) -> Self;
}

impl ScreenNormPointExt for ScreenNormPoint {
    fn from_screen_pixel(screen_pixel_point: ScreenPixelPoint, camera: &Camera) -> (r: Self)
        ensures
            r@ == camera@.norm_from_pixel(screen_pixel_point@),
    {
        SpacePoint::from_untyped(
            camera.screen_norm_to_pixel().inverse_transform_pos(screen_pixel_point.cast()),
        )
    }
}

/// What a normalized screen displacement can be made from.
pub trait ScreenNormVectorExt: Sized {
    /// A displacement in screen pixels, normalized.
    fn from_screen_pixel(screen_pixel_vector: ScreenPixelVector, camera: &Camera) -> Self;
}

impl ScreenNormVectorExt for ScreenNormVector {
    fn from_screen_pixel(screen_pixel_vector: ScreenPixelVector, camera: &Camera) -> (r: Self)
        ensures
            r@ == camera@.norm_vec_from_pixel(screen_pixel_vector@),
    {
        SpaceVector::from_untyped(
            camera.screen_norm_to_pixel().inverse_transform_vec(screen_pixel_vector.cast()),
        )
    }
}

/// What a canvas point can be made from.
pub trait CanvasPointExt: Sized {
    /// The canvas point that appears at a screen pixel.
    fn from_screen_pixel(screen_pixel_point: ScreenPixelPoint, camera: &Camera) -> Self;
}

impl CanvasPointExt for CanvasPoint {
    fn from_screen_pixel(screen_pixel_point: ScreenPixelPoint, camera: &Camera) -> (r: Self)
        ensures
            r@ == camera@.canvas_from_pixel(screen_pixel_point@),
    {
        let screen_norm_point: Vec2 = camera.screen_norm_to_pixel().inverse_transform_pos(
            screen_pixel_point.cast(),
        );
        let view_point: Vec2 = camera.view_to_screen_norm().inverse_transform_pos(
            screen_norm_point,
        );
        let canvas_point: Vec2 = camera.canvas_to_view().inverse_transform_pos(view_point);
        SpacePoint::from_untyped(canvas_point)
    }
}

/// What a canvas displacement can be made from.
pub trait CanvasVectorExt: Sized {
    /// A displacement in screen pixels, on the canvas.
    fn from_screen_pixel(screen_pixel_vector: ScreenPixelVector, camera: &Camera) -> Self;

    /// A normalized screen displacement, on the canvas.
    fn from_screen_norm(screen_norm_vector: ScreenNormVector, camera: &Camera) -> Self;
}

impl CanvasVectorExt for CanvasVector {
    fn from_screen_pixel(screen_pixel_vector: ScreenPixelVector, camera: &Camera) -> (r: Self)
        ensures
            r@ == camera@.canvas_vec_from_pixel(screen_pixel_vector@),
    {
        let screen_norm_vector: Vec2 = camera.screen_norm_to_pixel().inverse_transform_vec(
            screen_pixel_vector.cast(),
        );
        let view_vector: Vec2 = camera.view_to_screen_norm().inverse_transform_vec(
            screen_norm_vector,
        );
        let canvas_vector: Vec2 = camera.canvas_to_view().inverse_transform_vec(view_vector);
        SpaceVector::from_untyped(canvas_vector)
    }

    fn from_screen_norm(screen_norm_vector: ScreenNormVector, camera: &Camera) -> (r: Self)
        ensures
            r@ == camera@.canvas_vec_from_norm(screen_norm_vector@),
    {
        let view_vector: Vec2 = camera.view_to_screen_norm().inverse_transform_vec(
            screen_norm_vector.cast(),
        );
        let canvas_vector: Vec2 = camera.canvas_to_view().inverse_transform_vec(view_vector);
        SpaceVector::from_untyped(canvas_vector)
    }
}

/// A window position in logical pixels, from physical pixels and the
/// window's scale factor.
pub open spec fn logical_from_physical(physical: Coord, scale_factor: int) -> Coord {
    Coord {
        x: clamp_raw((physical.x * ONE_RAW) / scale_factor),
        y: clamp_raw((physical.y * ONE_RAW) / scale_factor),
    }
}

/// One position on screen, known in every space.
#[derive(Clone, Copy, Debug, PartialEq, Eq)]
pub struct PointInSpaces {
    pub screen_pixel: ScreenPixelPoint,
    pub screen_norm: ScreenNormPoint,
    pub canvas: CanvasPoint,
    pub in_screen: bool,
}

impl PointInSpaces {
    /// Whether this is the screen pixel `p` as `camera` sees it.
    pub open spec fn describes(self, p: Coord, camera: &Camera) -> bool {
        &&& self.screen_pixel@ == p
        &&& self.screen_norm@ == camera@.norm_from_pixel(p)
        &&& self.canvas@ == camera@.canvas_from_pixel(p)
        &&& self.in_screen == camera@.in_screen(p)
    }

    /// The position given in physical pixels of a window whose scale factor
    /// is `scale_factor`.
    pub fn from_window_physical(window_physical: Vec2, scale_factor: Fixed, camera: &Camera) -> (r:
        Self)
        requires
            scale_factor@ > 0,
        ensures
            r.describes(
                camera@.pixel_from_window(logical_from_physical(window_physical@, scale_factor@)),
                camera,
            ),
    {
        let window_logical: Vec2 = Vec2::new(
            window_physical.x.div(scale_factor),
            window_physical.y.div(scale_factor),
        );
        let screen_pixel: ScreenPixelPoint = ScreenPixelPoint::from_window_logical(
            window_logical,
            camera,
        );
        PointInSpaces::from_screen_pixel(screen_pixel, camera)
    }

    /// The position given in screen pixels.
    pub fn from_screen_pixel(screen_pixel: ScreenPixelPoint, camera: &Camera) -> (r: Self)
        ensures
            r.describes(screen_pixel@, camera),
            r.screen_pixel == screen_pixel,
    {
        let screen_norm: ScreenNormPoint = ScreenNormPoint::from_screen_pixel(screen_pixel, camera);
        let canvas: CanvasPoint = CanvasPoint::from_screen_pixel(screen_pixel, camera);
        let in_screen: bool = screen_pixel.is_in_screen(camera);
        PointInSpaces { screen_pixel, screen_norm, canvas, in_screen }
    }
}

/// One displacement on screen, known in every space.
#[derive(Clone, Copy, Debug, PartialEq, Eq)]
pub struct VectorInSpaces {
    pub screen_pixel: ScreenPixelVector,
    pub screen_norm: ScreenNormVector,
    pub canvas: CanvasVector,
}

impl VectorInSpaces {
    /// Whether this is the screen pixel displacement `v` as `camera` sees it.
    pub open spec fn describes(self, v: Coord, camera: &Camera) -> bool {
        &&& self.screen_pixel@ == v
        &&& self.screen_norm@ == camera@.norm_vec_from_pixel(v)
        &&& self.canvas@ == camera@.canvas_vec_from_pixel(v)
    }

    /// The displacement given in screen pixels.
    pub fn from_screen_pixel(screen_pixel: ScreenPixelVector, camera: &Camera) -> (r: Self)
        ensures
            r.describes(screen_pixel@, camera),
            r.screen_pixel == screen_pixel,
    {
        let screen_norm: ScreenNormVector = ScreenNormVector::from_screen_pixel(
            screen_pixel,
            camera,
        );
        let canvas: CanvasVector = CanvasVector::from_screen_pixel(screen_pixel, camera);
        VectorInSpaces { screen_pixel, screen_norm, canvas }
    }
}

} // verus!
