//! Untyped two-component values and their mathematical model.

use vstd::prelude::*;
use crate::fixed::{clamp_raw, raw_product, Fixed};

verus! {

/// Mathematical model of a point or vector: its two raw coordinates.
pub struct Coord {
    pub x: int,
    pub y: int,
}

/// Componentwise saturating sum.
pub open spec fn coord_add(a: Coord, b: Coord) -> Coord {
    Coord { x: clamp_raw(a.x + b.x), y: clamp_raw(a.y + b.y) }
}

/// Componentwise saturating difference.
pub open spec fn coord_sub(a: Coord, b: Coord) -> Coord {
    Coord { x: clamp_raw(a.x - b.x), y: clamp_raw(a.y - b.y) }
}

/// The perpendicular dot product (2D cross product) `a.x * b.y - a.y * b.x`.
pub open spec fn coord_perp_dot(a: Coord, b: Coord) -> int {
    a.x * b.y - a.y * b.x
}

/// A pair of fixed-point numbers that belongs to no particular space.
#[derive(Clone, Copy, Debug, PartialEq, Eq)]
pub struct Vec2 {
    pub x: Fixed,
    pub y: Fixed,
}

impl Vec2 {
    pub open spec fn view(self) -> Coord {
        Coord { x: self.x@, y: self.y@ }
    }

    pub fn new(x: Fixed, y: Fixed) -> (r: Vec2)
        ensures
            r.x == x,
            r.y == y,
    {
        Vec2 { x, y }
    }

    /// The pair `(0, 0)`.
    pub fn zero() -> (r: Vec2)
        ensures
            r@ == (Coord { x: 0, y: 0 }),
    {
        Vec2 { x: Fixed::zero(), y: Fixed::zero() }
    }

    /// The pair `(v, v)`.
    pub fn splat(v: Fixed) -> (r: Vec2)
        ensures
            r.x == v,
            r.y == v,
    {
        Vec2 { x: v, y: v }
    }

    /// Whether both components are equal.
    pub fn is_same(self, other: Vec2) -> (b: bool)
        ensures
            b <==> self@ == other@,
            b <==> self == other,
    {
        self.x.raw() == other.x.raw() && self.y.raw() == other.y.raw()
    }

    pub fn add(self, other: Vec2) -> (r: Vec2)
        ensures
            r@ == coord_add(self@, other@),
    {
        Vec2 { x: self.x.add(other.x), y: self.y.add(other.y) }
    }

    pub fn sub(self, other: Vec2) -> (r: Vec2)
        ensures
            r@ == coord_sub(self@, other@),
    {
        Vec2 { x: self.x.sub(other.x), y: self.y.sub(other.y) }
    }

    pub fn neg(self) -> (r: Vec2)
        ensures
            r@ == (Coord { x: -self@.x, y: -self@.y }),
    {
        Vec2 { x: self.x.neg(), y: self.y.neg() }
    }

    /// The exact perpendicular dot product of the raw coordinates.
    pub fn perp_dot(self, other: Vec2) -> (r: i128)
        ensures
            r == coord_perp_dot(self@, other@),
    {
        let a: i128 = raw_product(self.x.raw(), other.y.raw());
        let b: i128 = raw_product(self.y.raw(), other.x.raw());
        assert(-0x1000_0000_0000_0000_0000_0000_0000_0000 <= a
            <= 0x1000_0000_0000_0000_0000_0000_0000_0000) by (nonlinear_arith)
            requires
                a == self.x@ * other.y@,
                -0x4000_0000_0000_0000 <= self.x@ <= 0x4000_0000_0000_0000,
                -0x4000_0000_0000_0000 <= other.y@ <= 0x4000_0000_0000_0000,
        ;
        assert(-0x1000_0000_0000_0000_0000_0000_0000_0000 <= b
            <= 0x1000_0000_0000_0000_0000_0000_0000_0000) by (nonlinear_arith)
            requires
                b == self.y@ * other.x@,
                -0x4000_0000_0000_0000 <= self.y@ <= 0x4000_0000_0000_0000,
                -0x4000_0000_0000_0000 <= other.x@ <= 0x4000_0000_0000_0000,
        ;
        a - b
    }
}

} // verus!
