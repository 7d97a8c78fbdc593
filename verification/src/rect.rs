//! Axis-aligned rectangles and the affine maps between them.

use vstd::prelude::*;
use crate::fixed::{clamp_raw, floor_div, in_range, wide_product, Fixed, ONE_RAW};
use crate::vec2::{Coord, Vec2};

verus! {

/// Mathematical model of a rectangle: its least corner and its extent.
pub struct RectModel {
    pub min: Coord,
    pub size: Coord,
}

impl RectModel {
    /// Both extents are greater than zero.
    pub open spec fn positive(self) -> bool {
        self.size.x > 0 && self.size.y > 0
    }
}

/// Mathematical model of a map that carries the rectangle `from` onto `to`.
pub struct TransformModel {
    pub from: RectModel,
    pub to: RectModel,
}

/// Where the exact map between two intervals sends `x`, rounded down:
/// `to_min + (x - from_min) * to_size / from_size`.
pub open spec fn map_axis(x: int, from_min: int, from_size: int, to_min: int, to_size: int) -> int {
    to_min + ((x - from_min) * to_size) / from_size
}

/// The linear part of [`map_axis`], applied to the displacement `v`.
pub open spec fn scale_axis(v: int, from_size: int, to_size: int) -> int {
    (v * to_size) / from_size
}

/// The raw value of the ratio `to_size / from_size`, rounded down.
pub open spec fn ratio_axis(from_size: int, to_size: int) -> int {
    (to_size * ONE_RAW) / from_size
}

impl TransformModel {
    /// The same map in the other direction.
    pub open spec fn inverse(self) -> TransformModel {
        TransformModel { from: self.to, to: self.from }
    }

    /// The image of the point `p`.
    pub open spec fn pos(self, p: Coord) -> Coord {
        Coord {
            x: clamp_raw(map_axis(p.x, self.from.min.x, self.from.size.x, self.to.min.x, self.to.size.x)),
            y: clamp_raw(map_axis(p.y, self.from.min.y, self.from.size.y, self.to.min.y, self.to.size.y)),
        }
    }

    /// The image of the displacement `v`: the map without its translation.
    pub open spec fn vec(self, v: Coord) -> Coord {
        Coord {
            x: clamp_raw(scale_axis(v.x, self.from.size.x, self.to.size.x)),
            y: clamp_raw(scale_axis(v.y, self.from.size.y, self.to.size.y)),
        }
    }

    /// The scale factor along each axis.
    pub open spec fn scale(self) -> Coord {
        Coord {
            x: clamp_raw(ratio_axis(self.from.size.x, self.to.size.x)),
            y: clamp_raw(ratio_axis(self.from.size.y, self.to.size.y)),
        }
    }
}

/// An axis-aligned rectangle given by its least corner and its extent.
#[derive(Clone, Copy, Debug, PartialEq, Eq)]
pub struct Rect {
    pub min: Vec2,
    pub size: Vec2,
}

impl Rect {
    pub open spec fn view(self) -> RectModel {
        RectModel { min: self.min@, size: self.size@ }
    }

    pub fn from_min_size(min: Vec2, size: Vec2) -> (r: Rect)
        ensures
            r.min == min,
            r.size == size,
    {
        Rect { min, size }
    }

    /// The rectangle of extent `size` around `center`.
    pub fn from_center_size(center: Vec2, size: Vec2) -> (r: Rect)
        ensures
            r@.size == size@,
            r@.min.x == clamp_raw(center@.x - size@.x / 2),
            r@.min.y == clamp_raw(center@.y - size@.y / 2),
    {
        let half: Vec2 = Vec2 { x: size.x.half(), y: size.y.half() };
        Rect { min: center.sub(half), size }
    }

    /// Whether both extents are greater than zero.
    pub fn is_positive(&self) -> (b: bool)
        ensures
            b <==> self@.positive(),
    {
        self.size.x.is_positive() && self.size.y.is_positive()
    }

    /// The greatest corner, saturated.
    pub fn max(&self) -> (r: Vec2)
        ensures
            r@.x == clamp_raw(self@.min.x + self@.size.x),
            r@.y == clamp_raw(self@.min.y + self@.size.y),
    {
        self.min.add(self.size)
    }
}

/// One axis of a map between rectangles, applied to a position.
fn map_axis_sat(x: Fixed, from_min: Fixed, from_size: Fixed, to_min: Fixed, to_size: Fixed) -> (r: Fixed)
    requires
        from_size@ > 0,
    ensures
        r@ == clamp_raw(map_axis(x@, from_min@, from_size@, to_min@, to_size@)),
{
    let dx: i128 = (x.raw() as i128) - (from_min.raw() as i128);
    let p: i128 = wide_product(dx, to_size.raw() as i128);
    let q: i128 = floor_div(p, from_size.raw() as i128);
    proof {
        crate::fixed::lemma_quotient_bound(p as int, from_size@);
    }
    Fixed::saturate((to_min.raw() as i128) + q)
}

/// One axis of a map between rectangles, applied to a displacement.
fn scale_axis_sat(v: Fixed, from_size: Fixed, to_size: Fixed) -> (r: Fixed)
    requires
        from_size@ > 0,
    ensures
        r@ == clamp_raw(scale_axis(v@, from_size@, to_size@)),
{
    let p: i128 = wide_product(v.raw() as i128, to_size.raw() as i128);
    let q: i128 = floor_div(p, from_size.raw() as i128);
    Fixed::saturate(q)
}

/// The ratio of two extents as a number.
fn ratio_axis_sat(from_size: Fixed, to_size: Fixed) -> (r: Fixed)
    requires
        from_size@ > 0,
    ensures
        r@ == clamp_raw(ratio_axis(from_size@, to_size@)),
{
    let p: i128 = wide_product(to_size.raw() as i128, ONE_RAW as i128);
    let q: i128 = floor_div(p, from_size.raw() as i128);
    Fixed::saturate(q)
}

/// The affine map that carries one rectangle onto another, axis by axis.
///
/// The source rectangle always has positive extent, so the map is defined
/// everywhere.
#[derive(Clone, Copy, Debug, PartialEq, Eq)]
pub struct RectTransform {
    pub(crate) from: Rect,
    pub(crate) to: Rect,
}

impl RectTransform {
    #[verifier::type_invariant]
    pub open(crate) spec fn inv(self) -> bool {
        self.from@.positive()
    }

    pub open(crate) spec fn view(self) -> TransformModel {
        TransformModel { from: self.from@, to: self.to@ }
    }

    /// The map that carries `from` onto `to`.
    pub fn from_to(from: Rect, to: Rect) -> (r: RectTransform)
        requires
            from@.positive(),
        ensures
            r@.from == from@,
            r@.to == to@,
    {
        RectTransform { from, to }
    }

    /// The source rectangle.
    pub fn from(&self) -> (r: Rect)
        ensures
            r@ == self@.from,
            r@.positive(),
    {
        proof {
            use_type_invariant(self);
        }
        self.from
    }

    /// The target rectangle.
    pub fn to(&self) -> (r: Rect)
        ensures
            r@ == self@.to,
    {
        self.to
    }

    /// The scale factor along each axis.
    pub fn scale(&self) -> (r: Vec2)
        ensures
            r@ == self@.scale(),
    {
        proof {
            use_type_invariant(self);
        }
        Vec2 {
            x: ratio_axis_sat(self.from.size.x, self.to.size.x),
            y: ratio_axis_sat(self.from.size.y, self.to.size.y),
        }
    }

    /// The image of a position.
    pub fn transform_pos(&self, p: Vec2) -> (r: Vec2)
        ensures
            r@ == self@.pos(p@),
    {
        proof {
            use_type_invariant(self);
        }
        Vec2 {
            x: map_axis_sat(p.x, self.from.min.x, self.from.size.x, self.to.min.x, self.to.size.x),
            y: map_axis_sat(p.y, self.from.min.y, self.from.size.y, self.to.min.y, self.to.size.y),
        }
    }

    /// The image of a displacement: scaled, not translated.
    pub fn transform_vec(&self, v: Vec2) -> (r: Vec2)
        ensures
            r@ == self@.vec(v@),
    {
        proof {
            use_type_invariant(self);
        }
        Vec2 {
            x: scale_axis_sat(v.x, self.from.size.x, self.to.size.x),
            y: scale_axis_sat(v.y, self.from.size.y, self.to.size.y),
        }
    }

    /// The map in the other direction.
    pub fn inverse(&self) -> (r: RectTransform)
        requires
            self@.to.positive(),
        ensures
            r@ == self@.inverse(),
    {
        RectTransform { from: self.to, to: self.from }
    }

    /// The position whose image is `p`, up to rounding.
    pub fn inverse_transform_pos(&self, p: Vec2) -> (r: Vec2)
        requires
            self@.to.positive(),
        ensures
            r@ == self@.inverse().pos(p@),
    {
        self.inverse().transform_pos(p)
    }

    /// The displacement whose image is `v`, up to rounding.
    pub fn inverse_transform_vec(&self, v: Vec2) -> (r: Vec2)
        requires
            self@.to.positive(),
        ensures
            r@ == self@.inverse().vec(v@),
    {
        self.inverse().transform_vec(v)
    }
}

/// Mathematical model of one axis of a map between rectangles.
pub struct AxisMap {
    pub from_min: int,
    pub from_size: int,
    pub to_min: int,
    pub to_size: int,
}

impl AxisMap {
    /// Both intervals have positive length, so the map can be inverted.
    pub open spec fn invertible(self) -> bool {
        self.from_size > 0 && self.to_size > 0
    }

    /// The image of `x` before saturation.
    pub open spec fn at(self, x: int) -> int {
        map_axis(x, self.from_min, self.from_size, self.to_min, self.to_size)
    }

    /// The image of `x`.
    pub open spec fn sat(self, x: int) -> int {
        clamp_raw(self.at(x))
    }

    /// The same map in the other direction.
    pub open spec fn inverse(self) -> AxisMap {
        AxisMap {
            from_min: self.to_min,
            from_size: self.to_size,
            to_min: self.from_min,
            to_size: self.from_size,
        }
    }

    /// How far below `x` the way there and back may end: rounding down
    /// once on the way there costs up to one step of the target grid.
    pub open spec fn slack(self) -> int {
        self.from_size / self.to_size + 1
    }

    /// How far apart the images of two positions may lie that are `d`
    /// apart.
    pub open spec fn spread(self, d: int) -> int {
        (d * self.to_size) / self.from_size + 1
    }
}

impl TransformModel {
    /// The horizontal axis of the map.
    pub open spec fn x_axis(self) -> AxisMap {
        AxisMap {
            from_min: self.from.min.x,
            from_size: self.from.size.x,
            to_min: self.to.min.x,
            to_size: self.to.size.x,
        }
    }

    /// The vertical axis of the map.
    pub open spec fn y_axis(self) -> AxisMap {
        AxisMap {
            from_min: self.from.min.y,
            from_size: self.from.size.y,
            to_min: self.to.min.y,
            to_size: self.to.size.y,
        }
    }

    /// Whether the image of `p` is representable, so that the map does not
    /// saturate at `p`.
    pub open spec fn carries(self, p: Coord) -> bool {
        in_range(self.x_axis().at(p.x)) && in_range(self.y_axis().at(p.y))
    }
}

/// A quotient rounded down, times the divisor, is at most the dividend and
/// misses it by less than the divisor.
pub proof fn lemma_floor_bounds(a: int, d: int)
    requires
        d > 0,
    ensures
        (a / d) * d <= a < (a / d) * d + d,
{
    vstd::arithmetic::div_mod::lemma_fundamental_div_mod(a, d);
    vstd::arithmetic::div_mod::lemma_mod_bound(a, d);
    vstd::arithmetic::mul::lemma_mul_is_commutative(d, a / d);
}

/// A map between intervals keeps the order of positions.
pub proof fn lemma_axis_monotonic(m: AxisMap, x: int, y: int)
    requires
        m.from_size > 0,
        m.to_size >= 0,
        x <= y,
    ensures
        m.at(x) <= m.at(y),
        m.sat(x) <= m.sat(y),
{
    vstd::arithmetic::mul::lemma_mul_inequality(x - m.from_min, y - m.from_min, m.to_size);
    vstd::arithmetic::div_mod::lemma_div_is_ordered(
        (x - m.from_min) * m.to_size,
        (y - m.from_min) * m.to_size,
        m.from_size,
    );
}

/// The images of two positions lie no further apart than the positions,
/// scaled, and one rounding step.
pub proof fn lemma_axis_spread(m: AxisMap, x: int, y: int)
    requires
        m.from_size > 0,
        m.to_size >= 0,
        x <= y,
    ensures
        m.at(y) - m.at(x) <= m.spread(y - x),
        m.sat(y) - m.sat(x) <= m.spread(y - x),
        m.spread(y - x) >= 1,
{
    let a = (y - m.from_min) * m.to_size;
    let b = (x - m.from_min) * m.to_size;
    let c = (y - x) * m.to_size;
    let d = m.from_size;
    assert(a == b + c) by (nonlinear_arith)
        requires
            a == (y - m.from_min) * m.to_size,
            b == (x - m.from_min) * m.to_size,
            c == (y - x) * m.to_size,
    ;
    assert(c >= 0) by (nonlinear_arith)
        requires
            c == (y - x) * m.to_size,
            y - x >= 0,
            m.to_size >= 0,
    ;
    lemma_floor_bounds(a, d);
    lemma_floor_bounds(b, d);
    lemma_floor_bounds(c, d);
    assert(a / d <= b / d + c / d + 1) by (nonlinear_arith)
        requires
            d > 0,
            a == b + c,
            (a / d) * d <= a,
            b < (b / d) * d + d,
            c < (c / d) * d + d,
    ;
    assert(c / d >= 0) by (nonlinear_arith)
        requires
            d > 0,
            c >= 0,
            c < (c / d) * d + d,
    ;
    lemma_axis_monotonic(m, x, y);
}

/// A displacement takes the linear part of the map only: its image is the
/// displacement between the images of its two ends, up to one rounding
/// step, and no displacement is mapped to no displacement.
pub proof fn lemma_axis_delta(m: AxisMap, x: int, v: int)
    requires
        m.from_size > 0,
    ensures
        0 <= m.at(x + v) - m.at(x) - scale_axis(v, m.from_size, m.to_size) <= 1,
        scale_axis(0, m.from_size, m.to_size) == 0,
{
    let a = (x - m.from_min) * m.to_size;
    let b = v * m.to_size;
    let d = m.from_size;
    assert((x + v - m.from_min) * m.to_size == a + b) by (nonlinear_arith)
        requires
            a == (x - m.from_min) * m.to_size,
            b == v * m.to_size,
    ;
    lemma_floor_bounds(a + b, d);
    lemma_floor_bounds(a, d);
    lemma_floor_bounds(b, d);
    assert(0 <= (a + b) / d - a / d - b / d <= 1) by (nonlinear_arith)
        requires
            d > 0,
            ((a + b) / d) * d <= a + b < ((a + b) / d) * d + d,
            (a / d) * d <= a < (a / d) * d + d,
            (b / d) * d <= b < (b / d) * d + d,
    ;
    assert(0 * m.to_size == 0);
    lemma_floor_bounds(0, d);
    assert(0int / d == 0) by (nonlinear_arith)
        requires
            d > 0,
            (0int / d) * d <= 0 < (0int / d) * d + d,
    ;
}

/// There and back along one axis ends at most [`AxisMap::slack`] below the
/// start, and never above it.
pub proof fn lemma_axis_round_trip(m: AxisMap, x: int)
    requires
        m.invertible(),
    ensures
        x - m.slack() <= m.inverse().at(m.at(x)) <= x,
{
    let a = x - m.from_min;
    let fs = m.from_size;
    let ts = m.to_size;
    let q = (a * ts) / fs;
    let z = (q * fs) / ts;
    lemma_floor_bounds(a * ts, fs);
    lemma_floor_bounds(q * fs, ts);
    lemma_floor_bounds(fs, ts);
    assert(z <= a) by (nonlinear_arith)
        requires
            ts > 0,
            z * ts <= q * fs,
            q * fs <= a * ts,
    ;
    assert(a - z - 1 <= fs / ts) by (nonlinear_arith)
        requires
            ts > 0,
            fs > 0,
            a * ts < q * fs + fs,
            q * fs < z * ts + ts,
            fs < (fs / ts) * ts + ts,
    ;
    assert(m.at(x) - m.to_min == q);
    assert(m.inverse().at(m.at(x)) == m.from_min + z);
}

/// There and back through one map, with saturation on the way back only.
pub proof fn lemma_axis_round_trip_sat(m: AxisMap, x: int)
    requires
        m.invertible(),
        in_range(x),
        in_range(m.at(x)),
    ensures
        x - m.slack() <= m.inverse().sat(m.sat(x)) <= x,
{
    lemma_axis_round_trip(m, x);
}

/// A position that a map carries without saturation comes back, through
/// the inverse map, to within the slack of each axis below where it
/// started, and never above.
pub proof fn lemma_round_trip(t: TransformModel, p: Coord)
    requires
        t.from.positive(),
        t.to.positive(),
        in_range(p.x),
        in_range(p.y),
        t.carries(p),
    ensures
        p.x - t.x_axis().slack() <= t.inverse().pos(t.pos(p)).x <= p.x,
        p.y - t.y_axis().slack() <= t.inverse().pos(t.pos(p)).y <= p.y,
{
    lemma_axis_round_trip_sat(t.x_axis(), p.x);
    lemma_axis_round_trip_sat(t.y_axis(), p.y);
}

/// Where three maps in a row send `x`.
pub open spec fn chain_forward(first: AxisMap, second: AxisMap, third: AxisMap, x: int) -> int {
    third.sat(second.sat(first.sat(x)))
}

/// Where the inverses of three maps, in reverse order, send `y`.
pub open spec fn chain_backward(first: AxisMap, second: AxisMap, third: AxisMap, y: int) -> int {
    first.inverse().sat(second.inverse().sat(third.inverse().sat(y)))
}

/// Whether none of three maps in a row saturates on the way from `x`.
pub open spec fn chain_carries(first: AxisMap, second: AxisMap, third: AxisMap, x: int) -> bool {
    &&& in_range(first.at(x))
    &&& in_range(second.at(first.sat(x)))
    &&& in_range(third.at(second.sat(first.sat(x))))
}

/// How far below `x` the way through three maps and back may end: the
/// slack of each map, carried back through the maps before it.
pub open spec fn chain_slack(first: AxisMap, second: AxisMap, third: AxisMap) -> int {
    let through_second = second.slack() + second.inverse().spread(third.slack());
    first.slack() + first.inverse().spread(through_second)
}

/// The spread of a map grows with the distance.
pub proof fn lemma_spread_monotonic(m: AxisMap, d: int, e: int)
    requires
        m.from_size > 0,
        m.to_size >= 0,
        d <= e,
    ensures
        m.spread(d) <= m.spread(e),
{
    vstd::arithmetic::mul::lemma_mul_inequality(d, e, m.to_size);
    vstd::arithmetic::div_mod::lemma_div_is_ordered(d * m.to_size, e * m.to_size, m.from_size);
}

/// A position that three maps in a row carry without saturation comes
/// back, through their inverses, to within [`chain_slack`] below where it
/// started, and never above.
pub proof fn lemma_chain_round_trip(first: AxisMap, second: AxisMap, third: AxisMap, x: int)
    requires
        first.invertible(),
        second.invertible(),
        third.invertible(),
        in_range(x),
        chain_carries(first, second, third, x),
    ensures
        x - chain_slack(first, second, third) <= chain_backward(
            first,
            second,
            third,
            chain_forward(first, second, third, x),
        ) <= x,
{
    let x1 = first.sat(x);
    let x2 = second.sat(x1);
    let x3 = third.sat(x2);
    let y2 = third.inverse().sat(x3);
    lemma_axis_round_trip_sat(third, x2);
    // back through the second map
    let r1 = second.inverse().sat(x2);
    let y1 = second.inverse().sat(y2);
    lemma_axis_round_trip_sat(second, x1);
    lemma_axis_monotonic(second.inverse(), y2, x2);
    lemma_axis_spread(second.inverse(), y2, x2);
    lemma_spread_monotonic(second.inverse(), x2 - y2, third.slack());
    let through_second = second.slack() + second.inverse().spread(third.slack());
    assert(x1 - through_second <= y1 <= x1);
    // back through the first map
    let r0 = first.inverse().sat(x1);
    let y0 = first.inverse().sat(y1);
    lemma_axis_round_trip_sat(first, x);
    lemma_axis_monotonic(first.inverse(), y1, x1);
    lemma_axis_spread(first.inverse(), y1, x1);
    lemma_spread_monotonic(first.inverse(), x1 - y1, through_second);
}

} // verus!
