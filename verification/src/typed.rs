//! Points and vectors tagged with the coordinate space they belong to.
//!
//! The tag is a type parameter, so values of different spaces cannot be
//! combined by accident: the only way from one space to another is an
//! explicit conversion that names the camera.

use vstd::prelude::*;
use core::marker::PhantomData;
use crate::fixed::Fixed;
use crate::vec2::{coord_add, coord_perp_dot, coord_sub, Coord, Vec2};

verus! {

/// A position in the space `S`.
#[derive(Debug, PartialEq, Eq)]
pub struct SpacePoint<S> {
    pub x: Fixed,
    pub y: Fixed,
    pub space: PhantomData<S>,
}

/// A displacement in the space `S`.
#[derive(Debug, PartialEq, Eq)]
pub struct SpaceVector<S> {
    pub x: Fixed,
    pub y: Fixed,
    pub space: PhantomData<S>,
}

impl<S> Clone for SpacePoint<S> {
    fn clone(&self) -> (r: Self)
        ensures
            r == *self,
    {
        SpacePoint { x: self.x, y: self.y, space: PhantomData }
    }
}

impl<S> Copy for SpacePoint<S> {

}

impl<S> Clone for SpaceVector<S> {
    fn clone(&self) -> (r: Self)
        ensures
            r == *self,
    {
        SpaceVector { x: self.x, y: self.y, space: PhantomData }
    }
}

impl<S> Copy for SpaceVector<S> {

}

impl<S> SpacePoint<S> {
    pub open spec fn view(self) -> Coord {
        Coord { x: self.x@, y: self.y@ }
    }

    pub fn new(x: Fixed, y: Fixed) -> (r: Self)
        ensures
            r.x == x,
            r.y == y,
    {
        SpacePoint { x, y, space: PhantomData }
    }

    /// The same coordinates without the tag.
    pub fn cast(self) -> (r: Vec2)
        ensures
            r@ == self@,
    {
        Vec2 { x: self.x, y: self.y }
    }

    /// The untyped pair `v`, declared to lie in `S`.
    pub fn from_untyped(v: Vec2) -> (r: Self)
        ensures
            r@ == v@,
    {
        SpacePoint { x: v.x, y: v.y, space: PhantomData }
    }

    /// Whether the two positions have the same coordinates.
    pub fn is_same(&self, other: &Self) -> (b: bool)
        ensures
            b <==> self@ == other@,
            b <==> *self == *other,
    {
        self.x.raw() == other.x.raw() && self.y.raw() == other.y.raw()
    }

    /// The displacement from `other` to `self`.
    pub fn sub(self, other: Self) -> (r: SpaceVector<S>)
        ensures
            r@ == coord_sub(self@, other@),
    {
        SpaceVector { x: self.x.sub(other.x), y: self.y.sub(other.y), space: PhantomData }
    }

    /// The position displaced by `v`.
    pub fn add_vector(self, v: SpaceVector<S>) -> (r: Self)
        ensures
            r@ == coord_add(self@, v@),
    {
        SpacePoint { x: self.x.add(v.x), y: self.y.add(v.y), space: PhantomData }
    }

    /// The position displaced by `-v`.
    pub fn sub_vector(self, v: SpaceVector<S>) -> (r: Self)
        ensures
            r@ == coord_sub(self@, v@),
    {
        SpacePoint { x: self.x.sub(v.x), y: self.y.sub(v.y), space: PhantomData }
    }
}

impl<S> SpaceVector<S> {
    pub open spec fn view(self) -> Coord {
        Coord { x: self.x@, y: self.y@ }
    }

    pub fn new(x: Fixed, y: Fixed) -> (r: Self)
        ensures
            r.x == x,
            r.y == y,
    {
        SpaceVector { x, y, space: PhantomData }
    }

    /// The same components without the tag.
    pub fn cast(self) -> (r: Vec2)
        ensures
            r@ == self@,
    {
        Vec2 { x: self.x, y: self.y }
    }

    /// The untyped pair `v`, declared to lie in `S`.
    pub fn from_untyped(v: Vec2) -> (r: Self)
        ensures
            r@ == v@,
    {
        SpaceVector { x: v.x, y: v.y, space: PhantomData }
    }

    /// Whether the two displacements have the same components.
    pub fn is_same(&self, other: &Self) -> (b: bool)
        ensures
            b <==> self@ == other@,
            b <==> *self == *other,
    {
        self.x.raw() == other.x.raw() && self.y.raw() == other.y.raw()
    }

    pub fn add(self, other: Self) -> (r: Self)
        ensures
            r@ == coord_add(self@, other@),
    {
        SpaceVector { x: self.x.add(other.x), y: self.y.add(other.y), space: PhantomData }
    }

    pub fn sub(self, other: Self) -> (r: Self)
        ensures
            r@ == coord_sub(self@, other@),
    {
        SpaceVector { x: self.x.sub(other.x), y: self.y.sub(other.y), space: PhantomData }
    }

    /// The exact perpendicular dot product of the raw components.
    pub fn perp_dot(self, other: Self) -> (r: i128)
        ensures
            r == coord_perp_dot(self@, other@),
    {
        self.cast().perp_dot(other.cast())
    }
}

} // verus!
