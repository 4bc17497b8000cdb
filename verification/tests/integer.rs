use ray_tracer::canvas::Canvas;
use ray_tracer::color::Color;
use ray_tracer::integer::ROOT_LIMIT;
use ray_tracer::scalar::{compare, is_close, Scalar};
use std::cmp::Ordering;
use ray_tracer::tuple::{Point, Tuple, Vector};

#[test]
fn integer_arithmetic_wraps() {
    assert_eq!(i64::MAX.plus(1), i64::MIN);
    assert_eq!(i64::MIN.minus(1), i64::MAX);
    assert_eq!(i64::MAX.times(2), -2);
    assert_eq!(i64::MIN.negate(), i64::MIN);
    assert_eq!(5i64.negate(), -5);
    assert_eq!(3i64.plus(4), 7);
    assert_eq!(3i64.minus(4), -1);
    assert_eq!((-3i64).times(4), -12);
    assert_eq!(<i64 as Scalar>::zero(), 0);
    assert_eq!(<i64 as Scalar>::one(), 1);
}

#[test]
fn integer_quotient_rounds_towards_zero() {
    assert_eq!(7i64.divided_by(2), 3);
    assert_eq!((-7i64).divided_by(2), -3);
    assert_eq!(7i64.divided_by(-2), -3);
    assert_eq!((-7i64).divided_by(-2), 3);
    assert_eq!(7i64.divided_by(0), 0);
    assert_eq!(i64::MIN.divided_by(-1), 0);
    assert_eq!(i64::MIN.divided_by(1), i64::MIN);
}

#[test]
fn integer_root_is_the_floor_of_the_square_root() {
    let cases: [(i64, i64); 12] = [
        (-4, 0),
        (0, 0),
        (1, 1),
        (2, 1),
        (3, 1),
        (4, 2),
        (15, 3),
        (16, 4),
        (17, 4),
        (1_000_000, 1_000),
        (999_999, 999),
        (i64::MAX, 3_037_000_499),
    ];
    for (n, root) in cases {
        assert_eq!(n.root(), root);
    }
    assert!((ROOT_LIMIT as u128) * (ROOT_LIMIT as u128) > i64::MAX as u128);
}

#[test]
fn integers_compare_exactly() {
    assert!(3i64.equals(3));
    assert!(!3i64.equals(4));
    assert!(3i64.less_than(4));
    assert!(!4i64.less_than(4));
    assert_eq!(<i64 as Scalar>::tolerance(), 1);
    assert!(is_close(5i64, 5));
    assert!(!is_close(5i64, 6));
    assert!(!is_close(6i64, 5));
    assert!(!is_close(i64::MIN, 0));
    assert!(!is_close(0, i64::MIN));
    assert!(!is_close(i64::MAX, -1));
    assert!(is_close(i64::MIN, i64::MIN));
    assert_ne!(Tuple::new(i64::MIN, 0, 0, 0), Tuple::new(0, 0, 0, 0));
}

#[test]
fn integers_compare_three_ways() {
    assert_eq!(compare(1i64, 2), Some(Ordering::Less));
    assert_eq!(compare(2i64, 2), Some(Ordering::Equal));
    assert_eq!(compare(3i64, 2), Some(Ordering::Greater));
}

#[test]
fn tuples_are_ordered_component_by_component() {
    let a = Tuple::new(1i64, 2, 3, 4);
    assert_eq!(a.partial_cmp(&a), Some(Ordering::Equal));
    assert_eq!(a.partial_cmp(&Tuple::new(2, 0, 0, 0)), Some(Ordering::Less));
    assert_eq!(a.partial_cmp(&Tuple::new(1, 1, 9, 9)), Some(Ordering::Greater));
    assert_eq!(a.partial_cmp(&Tuple::new(1, 2, 4, 0)), Some(Ordering::Less));
    assert_eq!(a.partial_cmp(&Tuple::new(1, 2, 3, 3)), Some(Ordering::Greater));
    assert!(a < Tuple::new(1, 2, 3, 5));
    assert!(a >= Tuple::new(1, 2, 3, 4));
    assert!(Point::new(1i64, 2, 3) < Point::new(1, 2, 4));
    assert!(Vector::new(1i64, 2, 3) > Vector::new(1, 1, 9));
    assert_eq!(Point::new(0i64, 0, 0).partial_cmp(&Point::new(0, 0, 0)), Some(Ordering::Equal));
}

#[test]
fn integer_levels() {
    assert_eq!(0i64.level(), 0);
    assert_eq!((-3i64).level(), 0);
    assert_eq!(1i64.level(), 255);
    assert_eq!(9i64.level(), 255);
}

#[test]
fn integer_tuples() {
    let a = Tuple::new(3i64, -2, 5, 1);
    let b = Tuple::new(-2i64, 3, 1, 0);
    assert_eq!(a + b, Tuple::new(1, 1, 6, 1));
    assert_eq!(a - b, Tuple::new(5, -5, 4, 1));
    assert_eq!(-a, Tuple::new(-3, 2, -5, -1));
    assert_eq!(a * 2, Tuple::new(6, -4, 10, 2));
    assert_eq!(a / 2, Tuple::new(1, -1, 2, 0));
    assert_eq!(a.dot(&b), -6 - 6 + 5);
    assert_eq!(a.cross(&b), Tuple::new(-17, -13, 5, 0));
    assert!(a.is_point());
    assert!(!a.is_vector());
    assert!(b.is_vector());
    assert!(!b.is_point());
    assert!(Tuple::point(1i64, 2, 3).is_point());
    assert!(Tuple::vector(1i64, 2, 3).is_vector());
    assert_ne!(a, b);
}

#[test]
fn integer_magnitude_and_normalize() {
    let v = Tuple::new(3i64, 4, 12, 7);
    assert_eq!(v.magnitude(), 13);
    assert_eq!(v.normalize(), Tuple::new(0, 0, 0, 0));
    let axis = Vector::new(0i64, -5, 0);
    assert_eq!(axis.magnitude(), 5);
    assert_eq!(axis.normalize(), Vector::new(0, -1, 0));
    let kept = Vector(Tuple::new(2i64, 0, 0, 9));
    assert_eq!(kept.normalize().0.w, 9);
}

#[test]
fn integer_points_and_vectors() {
    let p = Point::new(3i64, 2, 1);
    let q = Point::new(5i64, 6, 7);
    let v = Vector::new(1i64, 1, 1);
    assert_eq!(p - q, Vector::new(-2, -4, -6));
    assert_eq!(p + v, Point::new(4, 3, 2));
    assert_eq!(p - v, Point::new(2, 1, 0));
    assert_eq!(v + v, Vector::new(2, 2, 2));
    assert_eq!(v - v, Vector::new(0, 0, 0));
    assert_eq!(p, Tuple::new(3, 2, 1, 1));
    assert_eq!(Tuple::new(1i64, 1, 1, 0), v);
    assert_ne!(Tuple::new(1i64, 1, 1, 1), v);
    let a = Vector::new(1i64, 2, 3);
    let b = Vector::new(2i64, 3, 4);
    assert_eq!(a.dot(&b), 20);
    assert_eq!(a.cross(&b), Vector::new(-1, 2, -1));
    assert_eq!(b.cross(&a), Vector::new(1, -2, 1));
}

#[test]
fn points_and_vectors_read_as_tuples() {
    let p = Point::new(3i64, 2, 1);
    assert_eq!((p.x, p.y, p.z, p.w), (3, 2, 1, 1));
    assert!(p.is_point());
    let v = Vector::new(-1i64, 0, 4);
    assert_eq!((v.x, v.y, v.z, v.w), (-1, 0, 4, 0));
    assert!(v.is_vector());
}

#[test]
fn integer_colors() {
    let a = Color::new(1i64, 2, 3);
    let b = Color::new(4i64, 0, -1);
    assert_eq!(a + b, Color::new(5, 2, 2));
    assert_eq!(a - b, Color::new(-3, 2, 4));
    assert_eq!(a * b, Color::new(4, 0, -3));
    assert_eq!(a * 3, Color::new(3, 6, 9));
    assert_eq!(Color::<i64>::default(), Color::new(0, 0, 0));
    assert_eq!(b.to_rgb8(), [255, 0, 0]);
    assert_ne!(a, b);
}

#[test]
fn canvas_ignores_places_outside() {
    let mut c = Canvas::<i64>::new(3, 2);
    let white = Color::new(1i64, 1, 1);
    c.write_pixel(3, 0, white);
    c.write_pixel(0, 2, white);
    assert!(c.pixels.iter().all(|p| *p == Color::default()));
    assert_eq!(c.pixel_at(3, 0), Color::default());
    assert_eq!(c.pixel_at(0, 2), Color::default());
    c.write_pixel(2, 1, white);
    assert_eq!(c.pixel_at(2, 1), white);
    assert_eq!(c.pixels[5], white);
    assert_eq!(c.pixels.iter().filter(|p| **p == white).count(), 1);
}

#[test]
fn default_canvas_is_empty() {
    let c = Canvas::<i64>::default();
    assert_eq!((c.width, c.height, c.pixels.len()), (0, 0, 0));
    assert_eq!(c.to_ppm(), "P3\n0 0\n255\n\n");
}

#[test]
fn canvas_text_of_integers() {
    let mut c = Canvas::<i64>::new(2, 2);
    c.write_pixel(0, 0, Color::new(1, 0, 0));
    c.write_pixel(1, 1, Color::new(0, 1, 1));
    assert_eq!(c.to_ppm(), "P3\n2 2\n255\n255 0 0 0 0 0\n0 0 0 0 255 255\n\n");
}

#[test]
fn canvas_without_columns_has_no_lines() {
    let c = Canvas::<i64>::new(0, 3);
    assert_eq!(c.to_ppm(), "P3\n0 3\n255\n\n");
}
