use ray_tracer::color::Color;
use ray_tracer::scalar::Scalar;

/// Single-precision numbers as scalars.
#[derive(Clone, Copy, Debug, PartialEq)]
struct Real(f32);

impl Scalar for Real {
    fn zero_value() -> Self {
        Real(0.)
    }

    fn one_value() -> Self {
        Real(1.)
    }

    fn sum(self, rhs: Self) -> Self {
        Real(self.0 + rhs.0)
    }

    fn difference(self, rhs: Self) -> Self {
        Real(self.0 - rhs.0)
    }

    fn product(self, rhs: Self) -> Self {
        Real(self.0 * rhs.0)
    }

    fn negation(self) -> Self {
        Real(-self.0)
    }

    fn quotient(self, rhs: Self) -> Self {
        Real(self.0 / rhs.0)
    }

    fn root_value(self) -> Self {
        Real(self.0.sqrt())
    }

    fn same(self, rhs: Self) -> bool {
        self.0 == rhs.0
    }

    fn less(self, rhs: Self) -> bool {
        self.0 < rhs.0
    }

    fn tolerance_value() -> Self {
        Real(1e-5)
    }

    fn level_value(self) -> u8 {
        (self.0.clamp(0., 1.) * 255.0).round() as u8
    }

    fn zero() -> Self {
        Self::zero_value()
    }

    fn one() -> Self {
        Self::one_value()
    }

    fn plus(self, rhs: Self) -> Self {
        self.sum(rhs)
    }

    fn minus(self, rhs: Self) -> Self {
        self.difference(rhs)
    }

    fn times(self, rhs: Self) -> Self {
        self.product(rhs)
    }

    fn negate(self) -> Self {
        self.negation()
    }

    fn divided_by(self, rhs: Self) -> Self {
        self.quotient(rhs)
    }

    fn root(self) -> Self {
        self.root_value()
    }

    fn equals(self, rhs: Self) -> bool {
        self.same(rhs)
    }

    fn less_than(self, rhs: Self) -> bool {
        self.less(rhs)
    }

    fn tolerance() -> Self {
        Self::tolerance_value()
    }

    fn level(self) -> u8 {
        self.level_value()
    }
}

fn color(r: f32, g: f32, b: f32) -> Color<Real> {
    Color::new(Real(r), Real(g), Real(b))
}

#[test]
fn colors() {
    let c = color(-0.5, 0.4, 1.7);
    assert_eq!(c.r, Real(-0.5));
    assert_eq!(c.g, Real(0.4));
    assert_eq!(c.b, Real(1.7));
}

#[test]
fn add_colors() {
    let c1 = color(0.9, 0.6, 0.75);
    let c2 = color(0.7, 0.1, 0.25);
    assert_eq!(c1 + c2, color(1.6, 0.7, 1.));
}

#[test]
fn sub_colors() {
    let c1 = color(0.9, 0.6, 0.75);
    let c2 = color(0.7, 0.1, 0.25);
    assert_eq!(c1 - c2, color(0.2, 0.5, 0.5));
}

#[test]
fn mul_color_by_scalar() {
    let c = color(0.2, 0.3, 0.4);
    assert_eq!(c * Real(2.), color(0.4, 0.6, 0.8));
}

#[test]
fn mul_colors() {
    let c1 = color(1., 0.2, 0.4);
    let c2 = color(0.9, 1., 0.1);
    assert_eq!(c1 * c2, color(0.9, 0.2, 0.04));
}
