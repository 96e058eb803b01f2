use graphics::math::{Scalar, Vec2d};
use point2d::{Point, Size};

const TOLERANCE: Scalar = 1e-12;

fn close(p: Point<Scalar>, q: Point<Scalar>) -> bool {
    (p.x - q.x).abs() <= TOLERANCE && (p.y - q.y).abs() <= TOLERANCE
}

#[test]
fn add_scalar_translates_both_axes() {
    let p: Point<Scalar> = Point { x: 1.0, y: 2.0 };
    assert_eq!(p + 3.0, Point { x: 4.0, y: 5.0 });
}

#[test]
fn add_point_is_field_wise() {
    let p: Point<Scalar> = Point { x: 1.0, y: 2.0 };
    let q: Point<Scalar> = Point { x: 3.0, y: 4.0 };
    assert_eq!(p + q, Point { x: 4.0, y: 6.0 });
}

#[test]
fn sub_pair_is_field_wise() {
    let p: Point<Scalar> = Point { x: 5.0, y: 5.0 };
    assert_eq!(p - (2.0, 1.0), Point { x: 3.0, y: 4.0 });
}

#[test]
fn mul_scalar_scales_both_axes() {
    let p: Point<Scalar> = Point { x: 2.0, y: 3.0 };
    assert_eq!(p * 2.0, Point { x: 4.0, y: 6.0 });
}

#[test]
fn point_converts_to_vector_in_order() {
    let p: Point<Scalar> = Point { x: 7.0, y: 8.0 };
    let v: Vec2d = Vec2d::from(p);
    assert_eq!(v, [7.0, 8.0]);
}

#[test]
fn literal_operands_need_no_annotation() {
    assert_eq!(Point { x: 1.0, y: 2.0 } + 3.0, Point { x: 4.0, y: 5.0 });
    assert_eq!(
        Point { x: 1.0, y: 2.0 } + Point { x: 3.0, y: 4.0 },
        Point { x: 4.0, y: 6.0 }
    );
    assert_eq!(Point { x: 5.0, y: 5.0 } - (2.0, 1.0), Point { x: 3.0, y: 4.0 });
    assert_eq!(Point { x: 2.0, y: 3.0 } * 2.0, Point { x: 4.0, y: 6.0 });
}

#[test]
fn sub_scalar_translates_back_both_axes() {
    let p: Point<Scalar> = Point { x: 4.5, y: -1.0 };
    assert_eq!(p - 1.5, Point { x: 3.0, y: -2.5 });
}

#[test]
fn sub_point_is_field_wise() {
    let p: Point<Scalar> = Point { x: 10.0, y: 1.0 };
    let q: Point<Scalar> = Point { x: 4.0, y: 3.0 };
    assert_eq!(p - q, Point { x: 6.0, y: -2.0 });
    assert_eq!(q - p, Point { x: -6.0, y: 2.0 });
}

#[test]
fn add_takes_every_point_like_form() {
    let p: Point<Scalar> = Point { x: 1.0, y: 2.0 };
    let expected = Point { x: 11.0, y: 22.0 };
    assert_eq!(p + Point { x: 10.0, y: 20.0 }, expected);
    assert_eq!(p + [10.0, 20.0], expected);
    assert_eq!(p + (10.0, 20.0), expected);
    assert_eq!(p + Size { w: 10.0, h: 20.0 }, expected);
}

#[test]
fn sub_takes_every_point_like_form() {
    let p: Point<Scalar> = Point { x: 1.0, y: 2.0 };
    let expected = Point { x: -9.0, y: -18.0 };
    assert_eq!(p - Point { x: 10.0, y: 20.0 }, expected);
    assert_eq!(p - [10.0, 20.0], expected);
    assert_eq!(p - (10.0, 20.0), expected);
    assert_eq!(p - Size { w: 10.0, h: 20.0 }, expected);
}

#[test]
fn point_like_operand_keeps_its_axes_apart() {
    let p: Point<Scalar> = Point { x: 0.0, y: 0.0 };
    assert_eq!(p + [1.0, 2.0], Point { x: 1.0, y: 2.0 });
    assert_eq!(p + (1.0, 2.0), Point { x: 1.0, y: 2.0 });
    assert_eq!(p + Size { w: 1.0, h: 2.0 }, Point { x: 1.0, y: 2.0 });
    assert_eq!(p - [1.0, 2.0], Point { x: -1.0, y: -2.0 });
}

#[test]
fn translate_and_back_is_the_point_within_tolerance() {
    let points: [Point<Scalar>; 4] = [
        Point { x: 0.0, y: 0.0 },
        Point { x: 1.0, y: 2.0 },
        Point { x: -3.25, y: 7.5 },
        Point { x: 0.1, y: 0.2 },
    ];
    let scalars: [Scalar; 4] = [0.0, 3.0, -0.7, 0.3];
    for p in points {
        for s in scalars {
            assert!(close((p + s) - s, p));
        }
    }
}

#[test]
fn translate_and_back_is_exact_on_small_integers_held_as_floats() {
    let p: Point<Scalar> = Point { x: 1.0, y: 2.0 };
    assert_eq!((p + 3.0) - 3.0, p);
}

#[test]
fn add_commutes_through_every_point_like_form() {
    let p: Point<Scalar> = Point { x: 1.5, y: -2.0 };
    let q: Point<Scalar> = Point { x: 0.1, y: 0.2 };
    assert_eq!(p + q, q + p);
    assert_eq!(p + Vec2d::from(q), q + Vec2d::from(p));
    assert_eq!(p + (q.x, q.y), q + (p.x, p.y));
    assert_eq!(p + Size { w: q.x, h: q.y }, q + Size { w: p.x, h: p.y });
    assert_eq!(p + q, Point { x: 1.6, y: -1.8 });
}

#[test]
fn scaling_twice_is_scaling_by_the_product_within_tolerance() {
    let p: Point<Scalar> = Point { x: 0.1, y: -3.0 };
    let s: Scalar = 0.3;
    let t: Scalar = 7.0;
    assert!(close((p * s) * t, p * (s * t)));
    let q: Point<Scalar> = Point { x: 2.0, y: 3.0 };
    assert_eq!((q * 2.0) * 4.0, q * (2.0 * 4.0));
    assert_eq!((q * 2.0) * 4.0, Point { x: 16.0, y: 24.0 });
}

#[test]
fn vector_round_trip_is_lossless() {
    let points: [Point<Scalar>; 3] = [
        Point { x: 7.0, y: 8.0 },
        Point { x: -0.1, y: 1e300 },
        Point { x: Scalar::MIN_POSITIVE, y: Scalar::MAX },
    ];
    for p in points {
        assert_eq!(Point::from(Vec2d::from(p)), p);
    }
    let v: Vec2d = [3.5, -4.5];
    assert_eq!(Vec2d::from(Point::from(v)), v);
}

#[test]
fn vector_converts_to_point_in_order() {
    let v: Vec2d = [7.0, 8.0];
    assert_eq!(Point::from(v), Point { x: 7.0, y: 8.0 });
}

#[test]
fn pair_round_trip_is_lossless() {
    let points: [Point<Scalar>; 2] = [Point { x: 7.0, y: 8.0 }, Point { x: -0.1, y: 1e-300 }];
    for p in points {
        assert_eq!(Point::from((p.x, p.y)), p);
    }
}

#[test]
fn pair_converts_to_point_in_order() {
    let p: Point<Scalar> = Point::from((1.0, 2.0));
    assert_eq!(p.x, 1.0);
    assert_eq!(p.y, 2.0);
}

#[test]
fn size_converts_width_to_x_and_height_to_y() {
    let sizes: [(Scalar, Scalar); 3] = [(640.0, 480.0), (0.0, -1.0), (1e-9, 1e9)];
    for (w, h) in sizes {
        assert_eq!(Point::from(Size { w, h }), Point { x: w, y: h });
    }
}

#[test]
fn into_reaches_every_conversion() {
    let from_vector: Point<Scalar> = [1.0, 2.0].into();
    let from_pair: Point<Scalar> = (1.0, 2.0).into();
    let from_size: Point<Scalar> = Size { w: 1.0, h: 2.0 }.into();
    let expected = Point { x: 1.0, y: 2.0 };
    assert_eq!(from_vector, expected);
    assert_eq!(from_pair, expected);
    assert_eq!(from_size, expected);
    let vector: Vec2d = expected.into();
    assert_eq!(vector, [1.0, 2.0]);
}

#[test]
fn operands_are_left_untouched() {
    let p: Point<Scalar> = Point { x: 1.0, y: 2.0 };
    let q: Point<Scalar> = Point { x: 3.0, y: 4.0 };
    let _ = p + q;
    let _ = p - q;
    let _ = p * 2.0;
    let _ = p + 1.0;
    assert_eq!(p, Point { x: 1.0, y: 2.0 });
    assert_eq!(q, Point { x: 3.0, y: 4.0 });
    let copy = p.clone();
    assert_eq!(copy, p);
}

#[test]
fn equality_is_field_wise() {
    let p: Point<Scalar> = Point { x: 1.0, y: 2.0 };
    assert_eq!(p, Point { x: 1.0, y: 2.0 });
    assert_ne!(p, Point { x: 2.0, y: 1.0 });
    assert_ne!(p, Point { x: 1.0, y: 2.5 });
    assert_ne!(p, Point { x: 1.5, y: 2.0 });
    let s: Size<Scalar> = Size { w: 1.0, h: 2.0 };
    assert_eq!(s, Size { w: 1.0, h: 2.0 });
    assert_ne!(s, Size { w: 2.0, h: 1.0 });
    assert_eq!(s.clone(), s);
}

#[test]
fn infinity_propagates() {
    let p: Point<Scalar> = Point { x: Scalar::INFINITY, y: 1.0 };
    let r = p + 1.0;
    assert_eq!(r, Point { x: Scalar::INFINITY, y: 2.0 });
    let r = p * -1.0;
    assert_eq!(r, Point { x: Scalar::NEG_INFINITY, y: -1.0 });
    let r = Point { x: Scalar::MAX, y: 0.0 } * 2.0;
    assert_eq!(r, Point { x: Scalar::INFINITY, y: 0.0 });
}

#[test]
fn not_a_number_propagates() {
    let p: Point<Scalar> = Point { x: Scalar::NAN, y: 1.0 };
    let r = p + 1.0;
    assert!(r.x.is_nan());
    assert_eq!(r.y, 2.0);
    let r = Point { x: Scalar::INFINITY, y: 1.0 } - Point { x: Scalar::INFINITY, y: 1.0 };
    assert!(r.x.is_nan());
    assert_eq!(r.y, 0.0);
    let r = Point { x: 0.0, y: 3.0 } * Scalar::INFINITY;
    assert!(r.x.is_nan());
    assert_eq!(r.y, Scalar::INFINITY);
    let v: Vec2d = Vec2d::from(p);
    assert!(v[0].is_nan());
    assert_eq!(v[1], 1.0);
}

#[test]
fn single_precision_scalars_work_the_same() {
    let p: Point<f32> = Point { x: 1.0, y: 2.0 };
    assert_eq!(p + 3.0f32, Point { x: 4.0, y: 5.0 });
    assert_eq!(p - [1.0f32, 1.0], Point { x: 0.0, y: 1.0 });
    assert_eq!(p * 0.5f32, Point { x: 0.5, y: 1.0 });
    let v: Vec2d<f32> = p.into();
    assert_eq!(v, [1.0f32, 2.0]);
}

#[test]
fn integer_scalars_obey_the_laws_exactly() {
    let p: Point<i64> = Point { x: 7, y: -8 };
    let q: Point<i64> = Point { x: -100, y: 3 };
    assert_eq!(p + 5, Point { x: 12, y: -3 });
    assert_eq!(p - 5, Point { x: 2, y: -13 });
    assert_eq!(p * 3, Point { x: 21, y: -24 });
    assert_eq!(p + q, Point { x: -93, y: -5 });
    assert_eq!(p - q, Point { x: 107, y: -11 });
    assert_eq!((p + 5) - 5, p);
    assert_eq!(p + q, q + p);
    assert_eq!((p * 3) * 4, p * (3 * 4));
    assert_eq!(Point::from(<[i64; 2]>::from(p)), p);
    assert_eq!(Point::from((p.x, p.y)), p);
    assert_eq!(Point::from(Size { w: 3i64, h: 4 }), Point { x: 3, y: 4 });
}
