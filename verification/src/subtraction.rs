//! Subtraction: translating a point back by a scalar, and subtracting a
//! point-like value.
//!
//! A point-like value (another point, a 2-vector, a pair, a size) is first
//! converted to a point; the difference is then taken on each coordinate by the
//! scalar type's own `-`.
//!
//! Each contract says two things of a coordinate of the result. It is a value
//! which the scalar's `-` gives on the two operands: that holds of every scalar
//! type. And where the scalar's `-` has a specification (`obeys_sub_spec()`), it
//! equals `sub_spec` of the operands. A subtraction may be called where the
//! scalar's `-` may be called on both pairs of coordinates (`sub_req`).

use crate::point::Point;
use crate::size::Size;
use graphics::math::Vec2d;
use std::ops::Sub;
use vstd::prelude::*;
use vstd::std_specs::ops::SubSpec;

verus! {

/// `r` is a value that the scalar's `-` gives on `a` and `b`.
pub open spec fn is_difference<S: Sub<Output = S>>(a: S, b: S, r: S) -> bool {
    call_ensures(<S as Sub>::sub, (a, b), r)
}

impl<S: Copy + Sub<Output = S>> Sub<S> for Point<S> {
    type Output = Point<S>;

    /// Translates the point by `s` backwards along both axes.
    fn sub(self, s: S) -> (r: Point<S>)
        ensures
            is_difference(self.x, s, r.x),
            is_difference(self.y, s, r.y),
            S::obeys_sub_spec() ==> r == (Point { x: self.x.sub_spec(s), y: self.y.sub_spec(s) }),
    {
        Point { x: self.x - s, y: self.y - s }
    }
}

impl<S: Copy + Sub<Output = S>> vstd::std_specs::ops::SubSpecImpl<S> for Point<S> {
    open spec fn obeys_sub_spec() -> bool {
        S::obeys_sub_spec()
    }

    open spec fn sub_req(self, s: S) -> bool {
        self.x.sub_req(s) && self.y.sub_req(s)
    }

    open spec fn sub_spec(self, s: S) -> Point<S> {
        Point { x: self.x.sub_spec(s), y: self.y.sub_spec(s) }
    }
}

impl<S: Copy + Sub<Output = S>> Sub<Point<S>> for Point<S> {
    type Output = Point<S>;

    /// Subtracts `q` from the point coordinate by coordinate.
    fn sub(self, q: Point<S>) -> (r: Point<S>)
        ensures
            is_difference(self.x, q.x, r.x),
            is_difference(self.y, q.y, r.y),
            S::obeys_sub_spec() ==> r == (Point {
                x: self.x.sub_spec(q.x),
                y: self.y.sub_spec(q.y),
            }),
    {
        Point { x: self.x - q.x, y: self.y - q.y }
    }
}

impl<S: Copy + Sub<Output = S>> vstd::std_specs::ops::SubSpecImpl<Point<S>> for Point<S> {
    open spec fn obeys_sub_spec() -> bool {
        S::obeys_sub_spec()
    }

    open spec fn sub_req(self, q: Point<S>) -> bool {
        self.x.sub_req(q.x) && self.y.sub_req(q.y)
    }

    open spec fn sub_spec(self, q: Point<S>) -> Point<S> {
        Point { x: self.x.sub_spec(q.x), y: self.y.sub_spec(q.y) }
    }
}

impl<S: Copy + Sub<Output = S>> Sub<Vec2d<S>> for Point<S> {
    type Output = Point<S>;

    /// Subtracts the point that the vector `[x, y]` stands for.
    fn sub(self, v: Vec2d<S>) -> (r: Point<S>)
        ensures
            is_difference(self.x, v[0], r.x),
            is_difference(self.y, v[1], r.y),
            S::obeys_sub_spec() ==> r == (Point {
                x: self.x.sub_spec(v[0]),
                y: self.y.sub_spec(v[1]),
            }),
    {
        self - Point::from(v)
    }
}

impl<S: Copy + Sub<Output = S>> vstd::std_specs::ops::SubSpecImpl<Vec2d<S>> for Point<S> {
    open spec fn obeys_sub_spec() -> bool {
        S::obeys_sub_spec()
    }

    open spec fn sub_req(self, v: Vec2d<S>) -> bool {
        self.x.sub_req(v[0]) && self.y.sub_req(v[1])
    }

    open spec fn sub_spec(self, v: Vec2d<S>) -> Point<S> {
        Point { x: self.x.sub_spec(v[0]), y: self.y.sub_spec(v[1]) }
    }
}

impl<S: Copy + Sub<Output = S>> Sub<(S, S)> for Point<S> {
    type Output = Point<S>;

    /// Subtracts the point that the pair `(x, y)` stands for.
    fn sub(self, pair: (S, S)) -> (r: Point<S>)
        ensures
            is_difference(self.x, pair.0, r.x),
            is_difference(self.y, pair.1, r.y),
            S::obeys_sub_spec() ==> r == (Point {
                x: self.x.sub_spec(pair.0),
                y: self.y.sub_spec(pair.1),
            }),
    {
        self - Point::from(pair)
    }
}

impl<S: Copy + Sub<Output = S>> vstd::std_specs::ops::SubSpecImpl<(S, S)> for Point<S> {
    open spec fn obeys_sub_spec() -> bool {
        S::obeys_sub_spec()
    }

    open spec fn sub_req(self, pair: (S, S)) -> bool {
        self.x.sub_req(pair.0) && self.y.sub_req(pair.1)
    }

    open spec fn sub_spec(self, pair: (S, S)) -> Point<S> {
        Point { x: self.x.sub_spec(pair.0), y: self.y.sub_spec(pair.1) }
    }
}

impl<S: Copy + Sub<Output = S>> Sub<Size<S>> for Point<S> {
    type Output = Point<S>;

    /// Subtracts the point that the size stands for: its width from `x`, its height from `y`.
    fn sub(self, size: Size<S>) -> (r: Point<S>)
        ensures
            is_difference(self.x, size.w, r.x),
            is_difference(self.y, size.h, r.y),
            S::obeys_sub_spec() ==> r == (Point {
                x: self.x.sub_spec(size.w),
                y: self.y.sub_spec(size.h),
            }),
    {
        self - Point::from(size)
    }
}

impl<S: Copy + Sub<Output = S>> vstd::std_specs::ops::SubSpecImpl<Size<S>> for Point<S> {
    open spec fn obeys_sub_spec() -> bool {
        S::obeys_sub_spec()
    }

    open spec fn sub_req(self, size: Size<S>) -> bool {
        self.x.sub_req(size.w) && self.y.sub_req(size.h)
    }

    open spec fn sub_spec(self, size: Size<S>) -> Point<S> {
        Point { x: self.x.sub_spec(size.w), y: self.y.sub_spec(size.h) }
    }
}

} // verus!
