//! Addition: translating a point by a scalar, and adding a point-like value.
//!
//! A point-like value (another point, a 2-vector, a pair, a size) is first
//! converted to a point; the sum is then taken on each coordinate by the scalar
//! type's own `+`.
//!
//! Each contract says two things of a coordinate of the result. It is a value
//! which the scalar's `+` gives on the two operands: that holds of every scalar
//! type. And where the scalar's `+` has a specification (`obeys_add_spec()`), it
//! equals `add_spec` of the operands. An addition may be called where the
//! scalar's `+` may be called on both pairs of coordinates (`add_req`).

use crate::point::Point;
use crate::size::Size;
use graphics::math::Vec2d;
use std::ops::Add;
use vstd::prelude::*;
use vstd::std_specs::ops::AddSpec;

verus! {

/// `r` is a value that the scalar's `+` gives on `a` and `b`.
pub open spec fn is_sum<S: Add<Output = S>>(a: S, b: S, r: S) -> bool {
    call_ensures(<S as Add>::add, (a, b), r)
}

impl<S: Copy + Add<Output = S>> Add<S> for Point<S> {
    type Output = Point<S>;

    /// Translates the point by `s` along both axes.
    fn add(self, s: S) -> (r: Point<S>)
        ensures
            is_sum(self.x, s, r.x),
            is_sum(self.y, s, r.y),
            S::obeys_add_spec() ==> r == (Point { x: self.x.add_spec(s), y: self.y.add_spec(s) }),
    {
        Point { x: self.x + s, y: self.y + s }
    }
}

impl<S: Copy + Add<Output = S>> vstd::std_specs::ops::AddSpecImpl<S> for Point<S> {
    open spec fn obeys_add_spec() -> bool {
        S::obeys_add_spec()
    }

    open spec fn add_req(self, s: S) -> bool {
        self.x.add_req(s) && self.y.add_req(s)
    }

    open spec fn add_spec(self, s: S) -> Point<S> {
        Point { x: self.x.add_spec(s), y: self.y.add_spec(s) }
    }
}

impl<S: Copy + Add<Output = S>> Add<Point<S>> for Point<S> {
    type Output = Point<S>;

    /// Adds the two points coordinate by coordinate.
    fn add(self, q: Point<S>) -> (r: Point<S>)
        ensures
            is_sum(self.x, q.x, r.x),
            is_sum(self.y, q.y, r.y),
            S::obeys_add_spec() ==> r == (Point {
                x: self.x.add_spec(q.x),
                y: self.y.add_spec(q.y),
            }),
    {
        Point { x: self.x + q.x, y: self.y + q.y }
    }
}

impl<S: Copy + Add<Output = S>> vstd::std_specs::ops::AddSpecImpl<Point<S>> for Point<S> {
    open spec fn obeys_add_spec() -> bool {
        S::obeys_add_spec()
    }

    open spec fn add_req(self, q: Point<S>) -> bool {
        self.x.add_req(q.x) && self.y.add_req(q.y)
    }

    open spec fn add_spec(self, q: Point<S>) -> Point<S> {
        Point { x: self.x.add_spec(q.x), y: self.y.add_spec(q.y) }
    }
}

impl<S: Copy + Add<Output = S>> Add<Vec2d<S>> for Point<S> {
    type Output = Point<S>;

    /// Adds the point that the vector `[x, y]` stands for.
    fn add(self, v: Vec2d<S>) -> (r: Point<S>)
        ensures
            is_sum(self.x, v[0], r.x),
            is_sum(self.y, v[1], r.y),
            S::obeys_add_spec() ==> r == (Point {
                x: self.x.add_spec(v[0]),
                y: self.y.add_spec(v[1]),
            }),
    {
        self + Point::from(v)
    }
}

impl<S: Copy + Add<Output = S>> vstd::std_specs::ops::AddSpecImpl<Vec2d<S>> for Point<S> {
    open spec fn obeys_add_spec() -> bool {
        S::obeys_add_spec()
    }

    open spec fn add_req(self, v: Vec2d<S>) -> bool {
        self.x.add_req(v[0]) && self.y.add_req(v[1])
    }

    open spec fn add_spec(self, v: Vec2d<S>) -> Point<S> {
        Point { x: self.x.add_spec(v[0]), y: self.y.add_spec(v[1]) }
    }
}

impl<S: Copy + Add<Output = S>> Add<(S, S)> for Point<S> {
    type Output = Point<S>;

    /// Adds the point that the pair `(x, y)` stands for.
    fn add(self, pair: (S, S)) -> (r: Point<S>)
        ensures
            is_sum(self.x, pair.0, r.x),
            is_sum(self.y, pair.1, r.y),
            S::obeys_add_spec() ==> r == (Point {
                x: self.x.add_spec(pair.0),
                y: self.y.add_spec(pair.1),
            }),
    {
        self + Point::from(pair)
    }
}

impl<S: Copy + Add<Output = S>> vstd::std_specs::ops::AddSpecImpl<(S, S)> for Point<S> {
    open spec fn obeys_add_spec() -> bool {
        S::obeys_add_spec()
    }

    open spec fn add_req(self, pair: (S, S)) -> bool {
        self.x.add_req(pair.0) && self.y.add_req(pair.1)
    }

    open spec fn add_spec(self, pair: (S, S)) -> Point<S> {
        Point { x: self.x.add_spec(pair.0), y: self.y.add_spec(pair.1) }
    }
}

impl<S: Copy + Add<Output = S>> Add<Size<S>> for Point<S> {
    type Output = Point<S>;

    /// Adds the point that the size stands for: its width to `x`, its height to `y`.
    fn add(self, size: Size<S>) -> (r: Point<S>)
        ensures
            is_sum(self.x, size.w, r.x),
            is_sum(self.y, size.h, r.y),
            S::obeys_add_spec() ==> r == (Point {
                x: self.x.add_spec(size.w),
                y: self.y.add_spec(size.h),
            }),
    {
        self + Point::from(size)
    }
}

impl<S: Copy + Add<Output = S>> vstd::std_specs::ops::AddSpecImpl<Size<S>> for Point<S> {
    open spec fn obeys_add_spec() -> bool {
        S::obeys_add_spec()
    }

    open spec fn add_req(self, size: Size<S>) -> bool {
        self.x.add_req(size.w) && self.y.add_req(size.h)
    }

    open spec fn add_spec(self, size: Size<S>) -> Point<S> {
        Point { x: self.x.add_spec(size.w), y: self.y.add_spec(size.h) }
    }
}

} // verus!
