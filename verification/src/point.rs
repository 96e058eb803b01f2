//! The point type, its equality and its conversions.
//!
//! A point converts from a 2-vector `[x, y]`, from a pair `(x, y)` and from a
//! size (the width becomes `x`, the height `y`), and converts to a 2-vector.
//! Every conversion keeps both coordinates as they are and in their order.

use crate::size::Size;
use graphics::math::Vec2d;
use vstd::prelude::*;
use vstd::std_specs::cmp::PartialEqSpec;

verus! {

/// A point in the Cartesian plane.
///
/// Any two scalars make a point: the type has no invariant.
#[derive(Debug)]
pub struct Point<S> {
    /// The x coordinate.
    pub x: S,
    /// The y coordinate.
    pub y: S,
}

impl<S: Copy> Copy for Point<S> {

}

impl<S: Copy> Clone for Point<S> {
    /// A point is a plain value: its clone is the point itself.
    fn clone(&self) -> (p: Point<S>)
        ensures
            p == *self,
    {
        *self
    }
}

impl<S: PartialEq> PartialEq for Point<S> {
    /// Two points are equal when their `x` are equal and their `y` are equal,
    /// by the scalar's own `==`.
    fn eq(&self, other: &Point<S>) -> (r: bool)
        ensures
            S::obeys_eq_spec() ==> r == (self.x.eq_spec(&other.x) && self.y.eq_spec(&other.y)),
    {
        self.x == other.x && self.y == other.y
    }
}

impl<S: PartialEq> vstd::std_specs::cmp::PartialEqSpecImpl for Point<S> {
    open spec fn obeys_eq_spec() -> bool {
        S::obeys_eq_spec()
    }

    open spec fn eq_spec(&self, other: &Point<S>) -> bool {
        self.x.eq_spec(&other.x) && self.y.eq_spec(&other.y)
    }
}

impl<S> From<(S, S)> for Point<S> {
    /// Builds the point whose coordinates are the two members of the pair, in order.
    fn from(pair: (S, S)) -> (p: Point<S>)
        ensures
            p.x == pair.0,
            p.y == pair.1,
    {
        Point { x: pair.0, y: pair.1 }
    }
}

impl<S> vstd::std_specs::convert::FromSpecImpl<(S, S)> for Point<S> {
    open spec fn obeys_from_spec() -> bool {
        true
    }

    open spec fn from_spec(pair: (S, S)) -> Point<S> {
        Point { x: pair.0, y: pair.1 }
    }
}

impl<S: Copy> From<Vec2d<S>> for Point<S> {
    /// Builds the point whose coordinates are the two members of the vector, in order.
    fn from(v: Vec2d<S>) -> (p: Point<S>)
        ensures
            p.x == v[0],
            p.y == v[1],
    {
        Point { x: v[0], y: v[1] }
    }
}

impl<S: Copy> vstd::std_specs::convert::FromSpecImpl<Vec2d<S>> for Point<S> {
    open spec fn obeys_from_spec() -> bool {
        true
    }

    open spec fn from_spec(v: Vec2d<S>) -> Point<S> {
        Point { x: v[0], y: v[1] }
    }
}

impl<S> From<Size<S>> for Point<S> {
    /// Reads a size as a point: the width becomes `x`, the height `y`.
    fn from(size: Size<S>) -> (p: Point<S>)
        ensures
            p == (Point { x: size.w, y: size.h }),
    {
        Point { x: size.w, y: size.h }
    }
}

impl<S> vstd::std_specs::convert::FromSpecImpl<Size<S>> for Point<S> {
    open spec fn obeys_from_spec() -> bool {
        true
    }

    open spec fn from_spec(size: Size<S>) -> Point<S> {
        Point { x: size.w, y: size.h }
    }
}

impl<S> From<Point<S>> for Vec2d<S> {
    /// Lays the point out as the vector `[x, y]`.
    fn from(point: Point<S>) -> (v: Vec2d<S>)
        ensures
            v[0] == point.x,
            v[1] == point.y,
    {
        [point.x, point.y]
    }
}

impl<S> vstd::std_specs::convert::FromSpecImpl<Point<S>> for Vec2d<S> {
    open spec fn obeys_from_spec() -> bool {
        true
    }

    open spec fn from_spec(point: Point<S>) -> Vec2d<S> {
        [point.x, point.y]
    }
}

} // verus!
