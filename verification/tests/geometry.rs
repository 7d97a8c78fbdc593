use carveout::fixed::{Fixed, ONE_RAW, RAW_LIMIT};
use carveout::geometry::{GeometryLine, GeometryPoint};
use carveout::rect::{Rect, RectTransform};
use carveout::spaces::{CanvasPoint, CanvasVector};
use carveout::vec2::Vec2;

fn fx(v: i32) -> Fixed {
    Fixed::from_int(v)
}

fn v2(x: i32, y: i32) -> Vec2 {
    Vec2::new(fx(x), fx(y))
}

#[test]
fn vec2_arithmetic() {
    assert_eq!(v2(1, 2).add(v2(3, 5)), v2(4, 7));
    assert_eq!(v2(1, 2).sub(v2(3, 5)), v2(-2, -3));
    assert_eq!(v2(1, -2).neg(), v2(-1, 2));
    assert_eq!(Vec2::splat(fx(3)), v2(3, 3));
    assert_eq!(Vec2::zero(), v2(0, 0));
    assert!(v2(1, 2).is_same(v2(1, 2)));
    assert!(!v2(1, 2).is_same(v2(2, 1)));
}

#[test]
fn vec2_perp_dot_is_exact() {
    let one = ONE_RAW as i128;
    assert_eq!(v2(1, 0).perp_dot(v2(0, 1)), one * one);
    assert_eq!(v2(0, 1).perp_dot(v2(1, 0)), -one * one);
    assert_eq!(v2(2, 3).perp_dot(v2(4, 6)), 0);
    assert_eq!(v2(2, 3).perp_dot(v2(5, 7)), (2 * 7 - 3 * 5) * one * one);
    let big = Vec2::new(Fixed::from_raw(RAW_LIMIT), Fixed::from_raw(-RAW_LIMIT));
    assert_eq!(big.perp_dot(Vec2::new(Fixed::from_raw(RAW_LIMIT), Fixed::from_raw(RAW_LIMIT))), 1i128 << 125);
}

#[test]
fn typed_points_and_vectors() {
    let p = CanvasPoint::new(fx(5), fx(1));
    let q = CanvasPoint::new(fx(2), fx(3));
    let d: CanvasVector = p.sub(q);
    assert_eq!(d, CanvasVector::new(fx(3), fx(-2)));
    assert_eq!(q.add_vector(d), p);
    assert_eq!(p.sub_vector(d), q);
    assert!(p.is_same(&CanvasPoint::new(fx(5), fx(1))));
    assert!(!p.is_same(&q));
    assert_eq!(p.cast(), v2(5, 1));
    assert_eq!(CanvasPoint::from_untyped(v2(5, 1)), p);
    assert_eq!(d.add(d), CanvasVector::new(fx(6), fx(-4)));
    assert_eq!(d.sub(d), CanvasVector::new(fx(0), fx(0)));
    assert_eq!(d.cast(), v2(3, -2));
    assert_eq!(CanvasVector::from_untyped(v2(3, -2)), d);
    assert!(d.is_same(&CanvasVector::new(fx(3), fx(-2))));
    let one = ONE_RAW as i128;
    assert_eq!(d.perp_dot(CanvasVector::new(fx(1), fx(1))), 5 * one * one);
}

#[test]
fn rect_from_center_size() {
    let r = Rect::from_center_size(v2(10, 20), v2(4, 6));
    assert_eq!(r.min, v2(8, 17));
    assert_eq!(r.size, v2(4, 6));
    assert_eq!(r.max(), v2(12, 23));
    assert!(r.is_positive());
    assert!(!Rect::from_min_size(v2(0, 0), v2(0, 5)).is_positive());
    assert!(!Rect::from_min_size(v2(0, 0), v2(5, -1)).is_positive());
}

#[test]
fn rect_from_center_size_rounds_half_down() {
    let r = Rect::from_center_size(Vec2::zero(), Vec2::splat(Fixed::from_raw(5)));
    assert_eq!(r.min.x.raw(), -2);
    assert_eq!(r.size.x.raw(), 5);
}

#[test]
fn rect_transform_maps_corners_and_centre() {
    let from = Rect::from_min_size(v2(0, 0), v2(4, 4));
    let to = Rect::from_min_size(v2(10, 20), v2(8, 2));
    let t = RectTransform::from_to(from, to);
    assert_eq!(t.transform_pos(v2(0, 0)), v2(10, 20));
    assert_eq!(t.transform_pos(v2(4, 4)), v2(18, 22));
    assert_eq!(t.transform_pos(v2(2, 2)), v2(14, 21));
    assert_eq!(t.transform_pos(v2(-4, 8)), v2(2, 24));
    assert_eq!(t.from(), from);
    assert_eq!(t.to(), to);
}

#[test]
fn rect_transform_vec_has_no_translation() {
    let from = Rect::from_min_size(v2(0, 0), v2(4, 4));
    let to = Rect::from_min_size(v2(10, 20), v2(8, 2));
    let t = RectTransform::from_to(from, to);
    assert_eq!(t.transform_vec(v2(0, 0)), v2(0, 0));
    assert_eq!(t.transform_vec(v2(2, 2)), v2(4, 1));
    assert_eq!(t.transform_vec(v2(-2, -2)), v2(-4, -1));
    assert_eq!(t.scale(), Vec2::new(fx(2), Fixed::from_ratio(1, 2)));
}

#[test]
fn rect_transform_inverse_undoes() {
    let from = Rect::from_min_size(v2(0, 0), v2(4, 4));
    let to = Rect::from_min_size(v2(10, 20), v2(8, 2));
    let t = RectTransform::from_to(from, to);
    let back = t.inverse();
    assert_eq!(back.from(), to);
    assert_eq!(back.to(), from);
    assert_eq!(back.transform_pos(t.transform_pos(v2(3, 1))), v2(3, 1));
    assert_eq!(t.inverse_transform_pos(v2(14, 21)), v2(2, 2));
    assert_eq!(t.inverse_transform_vec(v2(4, 1)), v2(2, 2));
}

#[test]
fn rect_transform_rounds_down() {
    let from = Rect::from_min_size(Vec2::zero(), Vec2::splat(Fixed::from_raw(3)));
    let to = Rect::from_min_size(Vec2::zero(), Vec2::splat(Fixed::from_raw(2)));
    let t = RectTransform::from_to(from, to);
    let p = Vec2::new(Fixed::from_raw(2), Fixed::from_raw(-2));
    let q = t.transform_pos(p);
    assert_eq!(q.x.raw(), 1);
    assert_eq!(q.y.raw(), -2);
    let back = t.inverse_transform_pos(q);
    assert_eq!(back.x.raw(), 1);
    assert_eq!(back.y.raw(), -3);
}

#[test]
fn rect_transform_saturates() {
    let from = Rect::from_min_size(Vec2::zero(), Vec2::splat(Fixed::from_raw(1)));
    let to = Rect::from_min_size(Vec2::zero(), Vec2::splat(Fixed::from_raw(RAW_LIMIT)));
    let t = RectTransform::from_to(from, to);
    let q = t.transform_pos(Vec2::new(Fixed::from_raw(2), Fixed::from_raw(-2)));
    assert_eq!(q.x.raw(), RAW_LIMIT);
    assert_eq!(q.y.raw(), -RAW_LIMIT);
}

#[test]
fn markers_hold_their_points() {
    let p = GeometryPoint::new(CanvasPoint::new(fx(1), fx(2)));
    let q = GeometryPoint::new(CanvasPoint::new(fx(3), fx(4)));
    let l = GeometryLine::new(p, q);
    assert_eq!(l.p.pos, CanvasPoint::new(fx(1), fx(2)));
    assert_eq!(l.q.pos, CanvasPoint::new(fx(3), fx(4)));
    assert_eq!(GeometryPoint::default().pos, CanvasPoint::new(fx(0), fx(0)));
    assert_eq!(GeometryLine::default(), GeometryLine::new(GeometryPoint::default(), GeometryPoint::default()));
}

#[test]
fn displacement_is_difference_of_images_up_to_one_step() {
    let from = Rect::from_min_size(v2(-1, 2), Vec2::new(Fixed::from_raw(7), Fixed::from_raw(13)));
    let to = Rect::from_min_size(v2(5, -3), Vec2::new(Fixed::from_raw(11), Fixed::from_raw(3)));
    let t = RectTransform::from_to(from, to);
    let mut k: i64 = -25;
    while k <= 25 {
        let x = Vec2::new(Fixed::from_raw(17 * k + 3), Fixed::from_raw(-5 * k + 1));
        let v = Vec2::new(Fixed::from_raw(9 * k - 4), Fixed::from_raw(k * k - 30));
        let ends = t.transform_pos(x.add(v)).sub(t.transform_pos(x));
        let moved = t.transform_vec(v);
        let dx = ends.x.raw() - moved.x.raw();
        let dy = ends.y.raw() - moved.y.raw();
        assert!(dx == 0 || dx == 1);
        assert!(dy == 0 || dy == 1);
        k += 1;
    }
    assert_eq!(t.transform_vec(Vec2::zero()), Vec2::zero());
}
