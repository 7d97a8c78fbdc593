use carveout::camera::Camera;
use carveout::canvas::{PositiveRange, Viewport};
use carveout::fixed::{Fixed, ONE_RAW};
use carveout::rect::Rect;
use carveout::spaces::{
    CanvasPoint, CanvasPointExt, CanvasVector, CanvasVectorExt, PointInSpaces, ScreenNormPoint,
    ScreenNormPointExt, ScreenNormVector, ScreenNormVectorExt, ScreenPixelPoint,
    ScreenPixelPointExt, ScreenPixelVector, ScreenPixelVectorExt, VectorInSpaces,
};
use carveout::vec2::Vec2;

fn fx(v: i32) -> Fixed {
    Fixed::from_int(v)
}

fn v2(x: i32, y: i32) -> Vec2 {
    Vec2::new(fx(x), fx(y))
}

/// The square from (-1, -1) to (1, 1), shown at (10, 20) in 800 by 600.
fn camera() -> Camera {
    Camera::new(
        Viewport::new(CanvasPoint::new(fx(0), fx(0)), fx(2)),
        Rect::from_min_size(v2(10, 20), v2(800, 600)),
    )
}

/// A camera whose ratios do not divide evenly.
fn odd_camera() -> Camera {
    Camera::new(
        Viewport::new(CanvasPoint::new(Fixed::from_ratio(1, 2), fx(-1)), fx(3)),
        Rect::from_min_size(v2(10, 20), v2(800, 600)),
    )
}

#[test]
fn viewport_rect_is_centred() {
    let v = Viewport::new(CanvasPoint::new(fx(1), fx(2)), fx(4));
    assert_eq!(v.rect(), Rect::from_min_size(v2(-1, 0), v2(4, 4)));
    assert_eq!(v.center(), CanvasPoint::new(fx(1), fx(2)));
    assert_eq!(v.size(), fx(4));
}

#[test]
fn viewport_default_is_unit_square() {
    let v = Viewport::default();
    assert_eq!(v.center(), CanvasPoint::new(fx(0), fx(0)));
    assert_eq!(v.size(), fx(1));
    assert_eq!(v.rect().min, Vec2::splat(Fixed::from_ratio(-1, 2)));
}

#[test]
fn viewport_maps_between_view_and_canvas() {
    let v = Viewport::new(CanvasPoint::new(fx(0), fx(0)), fx(2));
    let view_rect = Rect::from_min_size(v2(10, 20), v2(800, 600));
    let to_canvas = v.view_to_canvas(view_rect);
    let to_view = v.canvas_to_view(view_rect);
    assert_eq!(to_canvas.transform_pos(v2(410, 320)), v2(0, 0));
    assert_eq!(to_canvas.transform_pos(v2(10, 20)), v2(-1, -1));
    assert_eq!(to_view.transform_pos(v2(0, 0)), v2(410, 320));
    assert_eq!(to_view.transform_pos(v2(1, 1)), v2(810, 620));
    assert_eq!(to_view.scale(), v2(400, 300));
}

#[test]
fn viewport_pans() {
    let mut v = Viewport::new(CanvasPoint::new(fx(1), fx(2)), fx(4));
    v.pan(CanvasVector::new(fx(2), fx(-1)));
    assert_eq!(v.center(), CanvasPoint::new(fx(3), fx(1)));
    v.pan_back(CanvasVector::new(fx(3), fx(1)));
    assert_eq!(v.center(), CanvasPoint::new(fx(0), fx(0)));
    v.set_center(CanvasPoint::new(fx(9), fx(9)));
    assert_eq!(v.center(), CanvasPoint::new(fx(9), fx(9)));
    v.set_size(fx(7));
    assert_eq!(v.size(), fx(7));
}

#[test]
fn zoom_is_clamped_to_the_limits() {
    let limits = PositiveRange::default();
    assert_eq!(limits.min().raw(), 429_496_729);
    assert_eq!(limits.max(), fx(10));
    let mut v = Viewport::default();
    v.set_zoom(Fixed::from_ratio(1, 100), &limits);
    assert_eq!(v.size(), limits.min());
    v.set_zoom(fx(-5), &limits);
    assert_eq!(v.size(), limits.min());
    v.set_zoom(fx(0), &limits);
    assert_eq!(v.size(), limits.min());
    v.set_zoom(fx(1000), &limits);
    assert_eq!(v.size(), fx(10));
    v.set_zoom(fx(3), &limits);
    assert_eq!(v.size(), fx(3));
    assert!(v.size().is_positive());
}

#[test]
fn zoom_by_multiplies_and_clamps() {
    let limits = PositiveRange::new(fx(1), fx(8));
    let mut v = Viewport::new(CanvasPoint::new(fx(0), fx(0)), fx(2));
    v.zoom_by(fx(2), &limits);
    assert_eq!(v.size(), fx(4));
    v.zoom_by(fx(4), &limits);
    assert_eq!(v.size(), fx(8));
    v.zoom_by(Fixed::from_ratio(1, 100), &limits);
    assert_eq!(v.size(), fx(1));
    v.zoom_by(fx(-3), &limits);
    assert_eq!(v.size(), fx(1));
    assert_eq!(limits.clamp(fx(5)), fx(5));
}

#[test]
fn camera_zoom_is_clamped() {
    let limits = PositiveRange::default();
    let mut c = camera();
    c.set_zoom(fx(-1), &limits);
    assert_eq!(c.visible().size(), limits.min());
    c.set_zoom(fx(11), &limits);
    assert_eq!(c.visible().size(), fx(10));
    assert_eq!(c.viewport(), Rect::from_min_size(v2(10, 20), v2(800, 600)));
    assert_eq!(c.visible().center(), CanvasPoint::new(fx(0), fx(0)));
}

#[test]
fn camera_zoom_by_multiplies_and_clamps() {
    let limits = PositiveRange::new(fx(1), fx(8));
    let mut c = camera();
    c.zoom_by(fx(3), &limits);
    assert_eq!(c.visible().size(), fx(6));
    c.zoom_by(fx(3), &limits);
    assert_eq!(c.visible().size(), fx(8));
    c.zoom_by(Fixed::from_ratio(1, 100), &limits);
    assert_eq!(c.visible().size(), fx(1));
    assert_eq!(c.viewport(), camera().viewport());
}

#[test]
fn camera_default_shows_canvas_as_it_is() {
    let c = Camera::default();
    assert_eq!(c.visible(), Viewport::default());
    assert_eq!(c.viewport(), Viewport::default().rect());
    let p = Vec2::new(Fixed::from_ratio(1, 4), Fixed::from_ratio(-1, 3));
    assert_eq!(c.canvas_to_view().transform_pos(p), p);
}

#[test]
fn camera_rects_and_maps() {
    let c = camera();
    assert_eq!(Camera::norm_rect(), Rect::from_min_size(v2(-1, -1), v2(2, 2)));
    assert_eq!(c.pixel_rect(), Rect::from_min_size(v2(0, 0), v2(800, 600)));
    assert_eq!(c.canvas_to_view().transform_pos(v2(0, 0)), v2(410, 320));
    assert_eq!(c.view_to_canvas().transform_pos(v2(410, 320)), v2(0, 0));
    assert_eq!(c.view_to_screen_norm().transform_pos(v2(410, 320)), v2(0, 0));
    assert_eq!(c.view_to_screen_norm().transform_pos(v2(10, 20)), v2(-1, -1));
    assert_eq!(c.screen_norm_to_pixel().transform_pos(v2(0, 0)), v2(400, 300));
    assert_eq!(c.screen_norm_to_pixel().transform_pos(v2(1, 1)), v2(800, 600));
}

#[test]
fn camera_setters() {
    let mut c = camera();
    c.set_viewport(Rect::from_min_size(v2(0, 0), v2(100, 100)));
    assert_eq!(c.viewport(), Rect::from_min_size(v2(0, 0), v2(100, 100)));
    c.set_visible(Viewport::new(CanvasPoint::new(fx(5), fx(5)), fx(1)));
    assert_eq!(c.visible().center(), CanvasPoint::new(fx(5), fx(5)));
    c.pan(CanvasVector::new(fx(1), fx(2)));
    assert_eq!(c.visible().center(), CanvasPoint::new(fx(6), fx(7)));
    c.pan_back(CanvasVector::new(fx(6), fx(7)));
    assert_eq!(c.visible().center(), CanvasPoint::new(fx(0), fx(0)));
}

#[test]
fn is_in_screen_is_half_open() {
    let c = camera();
    assert!(ScreenPixelPoint::new(fx(0), fx(0)).is_in_screen(&c));
    assert!(ScreenPixelPoint::new(fx(799), fx(599)).is_in_screen(&c));
    assert!(ScreenPixelPoint::new(Fixed::from_raw(800 * ONE_RAW - 1), fx(0)).is_in_screen(&c));
    assert!(!ScreenPixelPoint::new(fx(800), fx(0)).is_in_screen(&c));
    assert!(!ScreenPixelPoint::new(fx(0), fx(600)).is_in_screen(&c));
    assert!(!ScreenPixelPoint::new(Fixed::from_raw(-1), fx(0)).is_in_screen(&c));
    assert!(!ScreenPixelPoint::new(fx(0), fx(-1)).is_in_screen(&c));
}

#[test]
fn window_coordinates_differ_by_the_corner() {
    let c = camera();
    let p = ScreenPixelPoint::from_window_logical(v2(110, 220), &c);
    assert_eq!(p, ScreenPixelPoint::new(fx(100), fx(200)));
    assert_eq!(p.into_window_logical(&c), v2(110, 220));
    assert_eq!(ScreenPixelVector::from_window_logical(v2(3, 4)), ScreenPixelVector::new(fx(3), fx(4)));
}

#[test]
fn canvas_to_pixel_and_back_exact() {
    let c = camera();
    let centre = CanvasPoint::new(fx(0), fx(0));
    let seen = ScreenPixelPoint::from_canvas(centre, &c);
    assert_eq!(seen, ScreenPixelPoint::new(fx(400), fx(300)));
    assert_eq!(CanvasPoint::from_screen_pixel(seen, &c), centre);
    let corner = ScreenPixelPoint::from_canvas(CanvasPoint::new(fx(-1), fx(-1)), &c);
    assert_eq!(corner, ScreenPixelPoint::new(fx(0), fx(0)));
    let far = ScreenPixelPoint::from_canvas(CanvasPoint::new(fx(1), fx(1)), &c);
    assert_eq!(far, ScreenPixelPoint::new(fx(800), fx(600)));
    assert_eq!(
        ScreenNormPoint::from_screen_pixel(ScreenPixelPoint::new(fx(200), fx(450)), &c),
        ScreenNormPoint::new(Fixed::from_ratio(-1, 2), Fixed::from_ratio(1, 2)),
    );
}

#[test]
fn canvas_to_pixel_rounded() {
    let c = odd_camera();
    let p = CanvasPoint::new(Fixed::from_raw(1_431_655_765), Fixed::from_raw(613_566_756));
    let seen = ScreenPixelPoint::from_canvas(p, &c);
    assert_eq!(seen.x.raw(), 1_527_099_482_800);
    assert_eq!(seen.y.raw(), 2_270_196_999_000);
    let back = CanvasPoint::from_screen_pixel(seen, &c);
    assert_eq!(back.x.raw(), 1_431_655_764);
    assert_eq!(back.y.raw(), 613_566_755);
}

#[test]
fn round_trip_stays_within_slack() {
    let c = odd_camera();
    let mut k: i64 = -40;
    while k <= 40 {
        let p = CanvasPoint::new(Fixed::from_raw(k * 104_729_123 + 17), Fixed::from_raw(-k * 86_028_121 + 5));
        let seen = ScreenPixelPoint::from_canvas(p, &c);
        let back = CanvasPoint::from_screen_pixel(seen, &c);
        assert!(back.x.raw() <= p.x.raw() && p.x.raw() - back.x.raw() <= 5);
        assert!(back.y.raw() <= p.y.raw() && p.y.raw() - back.y.raw() <= 5);
        let again = ScreenPixelPoint::from_canvas(back, &c);
        assert!(again.x.raw() <= seen.x.raw() && seen.x.raw() - again.x.raw() <= 2000);
        assert!(again.y.raw() <= seen.y.raw() && seen.y.raw() - again.y.raw() <= 2000);
        k += 1;
    }
}

#[test]
fn pixel_round_trip_rounded() {
    let c = odd_camera();
    let s = ScreenPixelPoint::new(Fixed::from_raw(123 * ONE_RAW + 5), Fixed::from_raw(77 * ONE_RAW + 9));
    let on_canvas = CanvasPoint::from_screen_pixel(s, &c);
    assert_eq!(on_canvas.x.raw(), -2_313_913_632);
    assert_eq!(on_canvas.y.raw(), -9_083_855_832);
    let norm = ScreenNormPoint::from_screen_pixel(s, &c);
    assert_eq!(norm.x.raw(), -2_974_264_853);
    assert_eq!(norm.y.raw(), -3_192_592_357);
    let again = ScreenPixelPoint::from_canvas(on_canvas, &c);
    assert_eq!(again.x.raw(), 528_280_976_800);
    assert_eq!(again.y.raw(), 330_712_481_400);
}

#[test]
fn vectors_are_scaled_not_translated() {
    let c = camera();
    let v = CanvasVector::new(fx(1), fx(-1));
    assert_eq!(ScreenPixelVector::from_canvas(v, &c), ScreenPixelVector::new(fx(400), fx(-300)));
    assert_eq!(
        CanvasVector::from_screen_pixel(ScreenPixelVector::new(fx(400), fx(-300)), &c),
        v,
    );
    assert_eq!(
        ScreenNormVector::from_screen_pixel(ScreenPixelVector::new(fx(400), fx(-300)), &c),
        ScreenNormVector::new(fx(1), fx(-1)),
    );
    assert_eq!(CanvasVector::from_screen_norm(ScreenNormVector::new(fx(1), fx(-1)), &c), v);
    assert_eq!(
        ScreenPixelVector::from_canvas(CanvasVector::new(fx(0), fx(0)), &c),
        ScreenPixelVector::new(fx(0), fx(0)),
    );
}

#[test]
fn point_in_spaces_agrees_with_conversions() {
    let c = camera();
    let s = ScreenPixelPoint::new(fx(200), fx(450));
    let p = PointInSpaces::from_screen_pixel(s, &c);
    assert_eq!(p.screen_pixel, s);
    assert_eq!(p.screen_norm, ScreenNormPoint::from_screen_pixel(s, &c));
    assert_eq!(p.canvas, CanvasPoint::new(Fixed::from_ratio(-1, 2), Fixed::from_ratio(1, 2)));
    assert!(p.in_screen);
    let outside = PointInSpaces::from_screen_pixel(ScreenPixelPoint::new(fx(900), fx(10)), &c);
    assert!(!outside.in_screen);
}

#[test]
fn point_in_spaces_from_physical_pixels() {
    let c = camera();
    let p = PointInSpaces::from_window_physical(v2(420, 940), fx(2), &c);
    assert_eq!(p.screen_pixel, ScreenPixelPoint::new(fx(200), fx(450)));
    assert_eq!(p, PointInSpaces::from_screen_pixel(ScreenPixelPoint::new(fx(200), fx(450)), &c));
}

#[test]
fn vector_in_spaces_agrees_with_conversions() {
    let c = camera();
    let s = ScreenPixelVector::new(fx(400), fx(-300));
    let v = VectorInSpaces::from_screen_pixel(s, &c);
    assert_eq!(v.screen_pixel, s);
    assert_eq!(v.screen_norm, ScreenNormVector::new(fx(1), fx(-1)));
    assert_eq!(v.canvas, CanvasVector::new(fx(1), fx(-1)));
}

#[test]
fn stroke_width_follows_the_zoom() {
    let view_rect = Rect::from_min_size(v2(0, 0), v2(800, 800));
    let near = Camera::new(Viewport::new(CanvasPoint::new(fx(0), fx(0)), fx(1)), view_rect);
    let mid = Camera::new(Viewport::new(CanvasPoint::new(fx(0), fx(0)), fx(2)), view_rect);
    let far = Camera::new(Viewport::new(CanvasPoint::new(fx(0), fx(0)), fx(4)), view_rect);
    assert_eq!(near.stroke_width(fx(1)).raw(), 5_368_709);
    assert_eq!(mid.stroke_width(fx(1)).raw(), 10_737_418);
    assert_eq!(far.stroke_width(fx(1)).raw(), 21_474_836);
    assert_eq!(mid.stroke_width(fx(3)).raw(), 32_212_254);
    assert_eq!(Camera::default().stroke_width(fx(1)), fx(1));
    assert_eq!(Camera::default().stroke_width(Fixed::from_ratio(5, 2)), Fixed::from_ratio(5, 2));
}

#[test]
fn stroke_footprint_stays_between_its_bounds() {
    let view_rect = Rect::from_min_size(v2(0, 0), v2(800, 600));
    let size = Fixed::from_ratio(5, 2);
    let mut extent = Fixed::from_ratio(1, 10);
    while extent.lt(fx(10)) {
        let c = Camera::new(Viewport::new(CanvasPoint::new(fx(3), fx(-2)), extent), view_rect);
        let on_canvas = CanvasVector::new(c.stroke_width(size), fx(0));
        let seen = c.canvas_to_view().transform_vec(on_canvas.cast()).x.raw() as i128;
        let w = (800 * ONE_RAW) as i128;
        let s = size.raw() as i128;
        let slack = ((s + ONE_RAW as i128) * w) / (extent.raw() as i128 * ONE_RAW as i128) + 1;
        assert!(seen <= s);
        assert!(s - slack <= seen);
        assert!(slack < 100_000);
        extent = extent.mul(Fixed::from_ratio(3, 2));
    }
}

#[test]
fn stroke_width_on_screen_does_not_depend_on_zoom() {
    let view_rect = Rect::from_min_size(v2(0, 0), v2(800, 800));
    let mut widths: Vec<i64> = Vec::new();
    for size in [1, 2, 4] {
        let c = Camera::new(Viewport::new(CanvasPoint::new(fx(0), fx(0)), fx(size)), view_rect);
        let on_canvas = CanvasVector::new(c.stroke_width(fx(1)), fx(0));
        widths.push(ScreenPixelVector::from_canvas(on_canvas, &c).x.raw());
    }
    assert_eq!(widths, vec![4_294_967_200, 4_294_967_200, 4_294_967_200]);
    assert!(ONE_RAW - widths[0] < 100);
}

#[test]
fn in_screen_means_within_the_normalized_square() {
    let c = odd_camera();
    let mut k: i64 = -12;
    while k <= 12 {
        let s = ScreenPixelPoint::new(
            Fixed::from_raw(k * 100 * ONE_RAW + 7),
            Fixed::from_raw(k * 75 * ONE_RAW - 3),
        );
        let n = ScreenNormPoint::from_screen_pixel(s, &c);
        let inside = -ONE_RAW <= n.x.raw() && n.x.raw() < ONE_RAW
            && -ONE_RAW <= n.y.raw() && n.y.raw() < ONE_RAW;
        assert_eq!(s.is_in_screen(&c), inside);
        k += 1;
    }
    let corner = ScreenNormPoint::from_screen_pixel(ScreenPixelPoint::new(fx(0), fx(0)), &c);
    assert_eq!(corner, ScreenNormPoint::new(fx(-1), fx(-1)));
    let far = ScreenNormPoint::from_screen_pixel(ScreenPixelPoint::new(fx(800), fx(600)), &c);
    assert_eq!(far, ScreenNormPoint::new(fx(1), fx(1)));
}

#[test]
fn saturated_point_does_not_come_back() {
    let c = Camera::new(
        Viewport::default(),
        Rect::from_min_size(v2(0, 0), v2(800, 800)),
    );
    let far = CanvasPoint::new(Fixed::from_raw(i64::MAX), fx(0));
    let seen = ScreenPixelPoint::from_canvas(far, &c);
    let back = CanvasPoint::from_screen_pixel(seen, &c);
    assert!(back.x.lt(far.x.half()));
}
