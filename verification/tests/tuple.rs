use ray_tracer::scalar::Scalar;
use ray_tracer::tuple::{Point, Tuple, Vector};

/// Single-precision numbers as scalars.
#[derive(Clone, Copy, Debug, PartialEq)]
struct Real(f32);

impl Scalar for Real {
    fn zero_value() -> Self {
        Real(0.)
    }

    fn one_value() -> Self {
        Real(1.)
    }

    fn sum(self, rhs: Self) -> Self {
        Real(self.0 + rhs.0)
    }

    fn difference(self, rhs: Self) -> Self {
        Real(self.0 - rhs.0)
    }

    fn product(self, rhs: Self) -> Self {
        Real(self.0 * rhs.0)
    }

    fn negation(self) -> Self {
        Real(-self.0)
    }

    fn quotient(self, rhs: Self) -> Self {
        Real(self.0 / rhs.0)
    }

    fn root_value(self) -> Self {
        Real(self.0.sqrt())
    }

    fn same(self, rhs: Self) -> bool {
        self.0 == rhs.0
    }

    fn less(self, rhs: Self) -> bool {
        self.0 < rhs.0
    }

    fn tolerance_value() -> Self {
        Real(1e-5)
    }

    fn level_value(self) -> u8 {
        (self.0.clamp(0., 1.) * 255.0).round() as u8
    }

    fn zero() -> Self {
        Self::zero_value()
    }

    fn one() -> Self {
        Self::one_value()
    }

    fn plus(self, rhs: Self) -> Self {
        self.sum(rhs)
    }

    fn minus(self, rhs: Self) -> Self {
        self.difference(rhs)
    }

    fn times(self, rhs: Self) -> Self {
        self.product(rhs)
    }

    fn negate(self) -> Self {
        self.negation()
    }

    fn divided_by(self, rhs: Self) -> Self {
        self.quotient(rhs)
    }

    fn root(self) -> Self {
        self.root_value()
    }

    fn equals(self, rhs: Self) -> bool {
        self.same(rhs)
    }

    fn less_than(self, rhs: Self) -> bool {
        self.less(rhs)
    }

    fn tolerance() -> Self {
        Self::tolerance_value()
    }

    fn level(self) -> u8 {
        self.level_value()
    }
}

fn tuple(x: f32, y: f32, z: f32, w: f32) -> Tuple<Real> {
    Tuple::new(Real(x), Real(y), Real(z), Real(w))
}

fn point(x: f32, y: f32, z: f32) -> Point<Real> {
    Point::new(Real(x), Real(y), Real(z))
}

fn vector(x: f32, y: f32, z: f32) -> Vector<Real> {
    Vector::new(Real(x), Real(y), Real(z))
}

#[test]
fn tuple_is_point() {
    let (x, y, z, w) = (4.3, -4.2, 3.1, 1.);
    let a = tuple(x, y, z, w);
    assert_eq!(a.x, Real(4.3));
    assert_eq!(a.y, Real(-4.2));
    assert_eq!(a.z, Real(3.1));
    assert_eq!(a.w, Real(1.));
    assert_eq!(a, point(x, y, z));
    assert_ne!(a, vector(x, y, z));
}

#[test]
fn tuple_is_vector() {
    let (x, y, z, w) = (4.3, -4.2, 3.1, 0.);
    let a = tuple(x, y, z, w);
    assert_eq!(a.x, Real(4.3));
    assert_eq!(a.y, Real(-4.2));
    assert_eq!(a.z, Real(3.1));
    assert_eq!(a.w, Real(0.));
    assert_eq!(a, vector(x, y, z));
    assert_ne!(a, point(x, y, z));
}

#[test]
fn tuple_point() {
    let p = point(4.3, -4.2, 3.1);
    assert_eq!(p, tuple(4.3, -4.2, 3.1, 1.));
}

#[test]
fn tuple_vector() {
    let p = vector(4.3, -4.2, 3.1);
    assert_eq!(p, tuple(4.3, -4.2, 3.1, 0.));
}

#[test]
fn tuple_add() {
    let a1 = tuple(3., -2., 5., 1.);
    let a2 = tuple(-2., 3., 1., 0.);
    assert_eq!(a1 + a2, tuple(1., 1., 6., 1.));
}

#[test]
fn sub_points() {
    let p1 = point(3., 2., 1.);
    let p2 = point(5., 6., 7.);
    assert_eq!(p1 - p2, vector(-2., -4., -6.));
}

#[test]
fn sub_vector_from_point() {
    let p = point(3., 2., 1.);
    let v = vector(5., 6., 7.);
    assert_eq!(p - v, point(-2., -4., -6.));
}

#[test]
fn sub_vectors() {
    let v1 = vector(3., 2., 1.);
    let v2 = vector(5., 6., 7.);
    assert_eq!(v1 - v2, vector(-2., -4., -6.));
}

#[test]
fn sub_vector_from_zero() {
    // it's essentially the same as negating the vector
    let zero = vector(0., 0., 0.);
    let v = vector(1., -2., 3.);
    assert_eq!(zero - v, vector(-1., 2., -3.));
}

#[test]
fn tuple_neg() {
    let a = tuple(1., -2., 3., -4.);
    assert_eq!(-a, tuple(-1., 2., -3., 4.));
}

#[test]
fn tuple_mul() {
    let a = tuple(1., -2., 3., -4.);
    assert_eq!(a * Real(3.5), tuple(3.5, -7., 10.5, -14.));
    assert_eq!(a * Real(0.5), tuple(0.5, -1., 1.5, -2.));
}

#[test]
fn tuple_div() {
    let a = tuple(1., -2., 3., -4.);
    assert_eq!(a / Real(2.), tuple(0.5, -1., 1.5, -2.));
}

#[test]
fn vec_magnitude() {
    let v = vector(1., 0., 0.);
    assert_eq!(v.magnitude(), Real(1.));

    let v = vector(0., 1., 0.);
    assert_eq!(v.magnitude(), Real(1.));

    let v = vector(0., 0., 1.);
    assert_eq!(v.magnitude(), Real(1.));

    let v = vector(1., 2., 3.);
    assert_eq!(v.magnitude(), Real(14_f32.sqrt()));

    let v = vector(-1., -2., -3.);
    assert_eq!(v.magnitude(), Real(14_f32.sqrt()));
}

#[test]
fn vec_normalize() {
    let v = vector(4., 0., 0.);
    assert_eq!(v.normalize(), vector(1., 0., 0.));

    let v = vector(1., 2., 3.);
    assert_eq!(v.normalize(), vector(0.26726, 0.53452, 0.80178));
}

#[test]
fn vec_dot() {
    let a = vector(1., 2., 3.);
    let b = vector(2., 3., 4.);
    assert_eq!(a.dot(&b), Real(20.));
}

#[test]
fn vec_cross() {
    let a = vector(1., 2., 3.);
    let b = vector(2., 3., 4.);
    assert_eq!(a.cross(&b), vector(-1., 2., -1.));
    assert_eq!(b.cross(&a), vector(1., -2., 1.));
}

#[test]
fn tuples_order_exactly_and_equal_approximately() {
    let a = tuple(1., 2., 3., 0.);
    let near = tuple(1., 2., 3.000001, 0.);
    assert_eq!(a, near);
    assert!(a < near);
    assert_eq!(a.partial_cmp(&near), Some(std::cmp::Ordering::Less));
    assert_eq!(a.partial_cmp(&tuple(f32::NAN, 0., 0., 0.)), None);
    assert!(point(1., 2., 3.) < point(1., 2.5, 0.));
    assert!(vector(1., 2., 3.) > vector(0., 9., 9.));
}

#[test]
fn closeness_is_below_the_tolerance_in_either_direction() {
    assert_eq!(tuple(1., 0., 0., 0.), tuple(1.000009, 0., 0., 0.));
    assert_eq!(tuple(1.000009, 0., 0., 0.), tuple(1., 0., 0., 0.));
    assert_ne!(tuple(1., 0., 0., 0.), tuple(1.00002, 0., 0., 0.));
    assert_ne!(tuple(1.00002, 0., 0., 0.), tuple(1., 0., 0., 0.));
    assert_ne!(tuple(f32::NAN, 0., 0., 0.), tuple(f32::NAN, 0., 0., 0.));
}
