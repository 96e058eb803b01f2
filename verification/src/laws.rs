//! What holds of the conversions and of the arithmetic, for every scalar type.
//!
//! The conversions move coordinates and nothing else, so their laws hold
//! outright. The arithmetic is done by the scalar's own operators, so a law of
//! arithmetic holds of points as far as it holds of their coordinates: the
//! lemmas below say exactly how far.

use crate::point::Point;
use crate::size::Size;
use graphics::math::Vec2d;
use std::ops::{Add, Mul, Sub};
use vstd::prelude::*;
use vstd::std_specs::convert::FromSpec;
use vstd::std_specs::ops::{AddSpec, MulSpec, SubSpec};

verus! {

/// A point laid out as a vector and read back is the same point.
pub proof fn lemma_vector_round_trip<S: Copy>(p: Point<S>)
    ensures
        Point::<S>::from_spec(Vec2d::<S>::from_spec(p)) == p,
{
}

/// A vector read as a point and laid out again is the same vector.
pub proof fn lemma_point_round_trip<S: Copy>(v: Vec2d<S>)
    ensures
        Vec2d::<S>::from_spec(Point::<S>::from_spec(v)) == v,
{
    let w = Vec2d::<S>::from_spec(Point::<S>::from_spec(v));
    assert(w[0] == v[0] && w[1] == v[1]);
    assert(w =~= v);
}

/// The pair of a point's coordinates, read as a point, is the same point.
pub proof fn lemma_pair_round_trip<S>(p: Point<S>)
    ensures
        Point::<S>::from_spec((p.x, p.y)) == p,
{
}

/// A size read as a point has the width for `x` and the height for `y`.
pub proof fn lemma_size_as_point<S>(w: S, h: S)
    ensures
        Point::<S>::from_spec(Size { w, h }) == (Point { x: w, y: h }),
{
}

/// Adding a point-like value is adding the point that it converts to, and may
/// be done where that point may be added.
pub proof fn lemma_add_point_like<S: Copy + Add<Output = S>>(
    p: Point<S>,
    v: Vec2d<S>,
    pair: (S, S),
    size: Size<S>,
)
    ensures
        p.add_spec(v) == p.add_spec(Point::<S>::from_spec(v)),
        p.add_req(v) == p.add_req(Point::<S>::from_spec(v)),
        p.add_spec(pair) == p.add_spec(Point::<S>::from_spec(pair)),
        p.add_req(pair) == p.add_req(Point::<S>::from_spec(pair)),
        p.add_spec(size) == p.add_spec(Point::<S>::from_spec(size)),
        p.add_req(size) == p.add_req(Point::<S>::from_spec(size)),
{
}

/// Subtracting a point-like value is subtracting the point that it converts
/// to, and may be done where that point may be subtracted.
pub proof fn lemma_sub_point_like<S: Copy + Sub<Output = S>>(
    p: Point<S>,
    v: Vec2d<S>,
    pair: (S, S),
    size: Size<S>,
)
    ensures
        p.sub_spec(v) == p.sub_spec(Point::<S>::from_spec(v)),
        p.sub_req(v) == p.sub_req(Point::<S>::from_spec(v)),
        p.sub_spec(pair) == p.sub_spec(Point::<S>::from_spec(pair)),
        p.sub_req(pair) == p.sub_req(Point::<S>::from_spec(pair)),
        p.sub_spec(size) == p.sub_spec(Point::<S>::from_spec(size)),
        p.sub_req(size) == p.sub_req(Point::<S>::from_spec(size)),
{
}

/// The sum of two points is the same in either order exactly when the sum of
/// their coordinates is, on each axis; and then it is the same through every
/// point-like form of the right-hand point.
pub proof fn lemma_add_commutes<S: Copy + Add<Output = S>>(p: Point<S>, q: Point<S>)
    ensures
        p.add_spec(q) == q.add_spec(p) <==> {
            &&& p.x.add_spec(q.x) == q.x.add_spec(p.x)
            &&& p.y.add_spec(q.y) == q.y.add_spec(p.y)
        },
        p.add_spec(q) == q.add_spec(p) ==> {
            &&& p.add_spec(Vec2d::<S>::from_spec(q)) == q.add_spec(Vec2d::<S>::from_spec(p))
            &&& p.add_spec((q.x, q.y)) == q.add_spec((p.x, p.y))
            &&& p.add_spec(Size { w: q.x, h: q.y }) == q.add_spec(Size { w: p.x, h: p.y })
        },
{
}

/// Translating a point by `s` and back gives the point again exactly when
/// adding `s` and taking it away again gives each coordinate again.
pub proof fn lemma_translate_and_back<S: Copy + Add<Output = S> + Sub<Output = S>>(
    p: Point<S>,
    s: S,
)
    ensures
        p.add_spec(s).sub_spec(s) == p <==> {
            &&& p.x.add_spec(s).sub_spec(s) == p.x
            &&& p.y.add_spec(s).sub_spec(s) == p.y
        },
{
}

/// Scaling a point by `s` and then by `t` is scaling it by the product of `s`
/// and `t` exactly when that holds of each coordinate.
pub proof fn lemma_scale_twice<S: Copy + Mul<Output = S>>(p: Point<S>, s: S, t: S)
    ensures
        p.mul_spec(s).mul_spec(t) == p.mul_spec(s.mul_spec(t)) <==> {
            &&& p.x.mul_spec(s).mul_spec(t) == p.x.mul_spec(s.mul_spec(t))
            &&& p.y.mul_spec(s).mul_spec(t) == p.y.mul_spec(s.mul_spec(t))
        },
{
}

} // verus!
