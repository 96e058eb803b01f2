//! Scaling a point by a scalar.
//!
//! The product is taken on each coordinate by the scalar type's own `*`. The
//! contract says two things of a coordinate of the result. It is a value which
//! the scalar's `*` gives on the two operands: that holds of every scalar type.
//! And where the scalar's `*` has a specification (`obeys_mul_spec()`), it equals
//! `mul_spec` of the operands. The scaling may be called where the scalar's `*`
//! may be called on both coordinates with the factor (`mul_req`).

use crate::point::Point;
use std::ops::Mul;
use vstd::prelude::*;
use vstd::std_specs::ops::MulSpec;

verus! {

/// `r` is a value that the scalar's `*` gives on `a` and `b`.
pub open spec fn is_product<S: Mul<Output = S>>(a: S, b: S, r: S) -> bool {
    call_ensures(<S as Mul>::mul, (a, b), r)
}

impl<S: Copy + Mul<Output = S>> Mul<S> for Point<S> {
    type Output = Point<S>;

    /// Scales the point by `s` along both axes.
    fn mul(self, s: S) -> (r: Point<S>)
        ensures
            is_product(self.x, s, r.x),
            is_product(self.y, s, r.y),
            S::obeys_mul_spec() ==> r == (Point { x: self.x.mul_spec(s), y: self.y.mul_spec(s) }),
    {
        Point { x: self.x * s, y: self.y * s }
    }
}

impl<S: Copy + Mul<Output = S>> vstd::std_specs::ops::MulSpecImpl<S> for Point<S> {
    open spec fn obeys_mul_spec() -> bool {
        S::obeys_mul_spec()
    }

    open spec fn mul_req(self, s: S) -> bool {
        self.x.mul_req(s) && self.y.mul_req(s)
    }

    open spec fn mul_spec(self, s: S) -> Point<S> {
        Point { x: self.x.mul_spec(s), y: self.y.mul_spec(s) }
    }
}

} // verus!
