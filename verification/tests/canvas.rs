use ray_tracer::canvas::Canvas;
use ray_tracer::color::Color;
use ray_tracer::scalar::Scalar;

/// Single-precision numbers as scalars.
#[derive(Clone, Copy, Debug, PartialEq)]
struct Real(f32);

impl Scalar for Real {
    fn zero_value() -> Self {
        Real(0.)
    }

    fn one_value() -> Self {
        Real(1.)
    }

    fn sum(self, rhs: Self) -> Self {
        Real(self.0 + rhs.0)
    }

    fn difference(self, rhs: Self) -> Self {
        Real(self.0 - rhs.0)
    }

    fn product(self, rhs: Self) -> Self {
        Real(self.0 * rhs.0)
    }

    fn negation(self) -> Self {
        Real(-self.0)
    }

    fn quotient(self, rhs: Self) -> Self {
        Real(self.0 / rhs.0)
    }

    fn root_value(self) -> Self {
        Real(self.0.sqrt())
    }

    fn same(self, rhs: Self) -> bool {
        self.0 == rhs.0
    }

    fn less(self, rhs: Self) -> bool {
        self.0 < rhs.0
    }

    fn tolerance_value() -> Self {
        Real(1e-5)
    }

    fn level_value(self) -> u8 {
        (self.0.clamp(0., 1.) * 255.0).round() as u8
    }

    fn zero() -> Self {
        Self::zero_value()
    }

    fn one() -> Self {
        Self::one_value()
    }

    fn plus(self, rhs: Self) -> Self {
        self.sum(rhs)
    }

    fn minus(self, rhs: Self) -> Self {
        self.difference(rhs)
    }

    fn times(self, rhs: Self) -> Self {
        self.product(rhs)
    }

    fn negate(self) -> Self {
        self.negation()
    }

    fn divided_by(self, rhs: Self) -> Self {
        self.quotient(rhs)
    }

    fn root(self) -> Self {
        self.root_value()
    }

    fn equals(self, rhs: Self) -> bool {
        self.same(rhs)
    }

    fn less_than(self, rhs: Self) -> bool {
        self.less(rhs)
    }

    fn tolerance() -> Self {
        Self::tolerance_value()
    }

    fn level(self) -> u8 {
        self.level_value()
    }
}

fn color(r: f32, g: f32, b: f32) -> Color<Real> {
    Color::new(Real(r), Real(g), Real(b))
}

#[test]
fn canvas() {
    let c = Canvas::<Real>::new(10, 20);
    assert_eq!(c.width, 10);
    assert_eq!(c.height, 20);
    assert!(c.pixels.into_iter().all(|p| p == Color::default()));
}

#[test]
fn write_pixels_to_canvas() {
    let mut c = Canvas::new(10, 20);
    let red = color(1., 0., 0.);
    c.write_pixel(2, 3, red);
    assert_eq!(c.pixel_at(2, 3), red);
}

#[test]
fn canvas_to_ppm() {
    let c = Canvas::<Real>::new(5, 3);
    let ppm = c.to_ppm();
    assert_eq!(
        ppm.lines().take(3).collect::<Vec<_>>(),
        vec!["P3", "5 3", "255"]
    );
}

#[test]
fn construct_ppm_from_canvas() {
    let mut c = Canvas::new(5, 3);
    let c1 = color(1.5, 0., 0.);
    let c2 = color(0., 0.5, 0.);
    let c3 = color(-0.5, 0., 1.);

    c.write_pixel(0, 0, c1);
    c.write_pixel(2, 1, c2);
    c.write_pixel(4, 2, c3);

    let ppm = c.to_ppm();

    assert_eq!(
        ppm.lines().skip(3).take(3).collect::<Vec<_>>(),
        vec![
            "255 0 0 0 0 0 0 0 0 0 0 0 0 0 0",
            "0 0 0 0 0 0 0 128 0 0 0 0 0 0 0",
            "0 0 0 0 0 0 0 0 0 0 0 0 0 0 255",
        ]
    );
}

#[test]
fn split_long_lines_in_ppm() {
    let mut c = Canvas::new(10, 2);
    c.pixels
        .iter_mut()
        .for_each(|p| *p = color(1., 0.8, 0.6));
    let ppm = c.to_ppm();
    assert_eq!(
        ppm.lines().skip(3).take(4).collect::<Vec<_>>(),
        vec![
            "255 204 153 255 204 153 255 204 153 255 204 153 255 204 153 255 204",
            "153 255 204 153 255 204 153 255 204 153 255 204 153",
            "255 204 153 255 204 153 255 204 153 255 204 153 255 204 153 255 204",
            "153 255 204 153 255 204 153 255 204 153 255 204 153"
        ]
    );
}

#[test]
fn ppm_terminates_with_newline() {
    let c = Canvas::<Real>::new(5, 3);
    let ppm = c.to_ppm();
    assert_eq!(ppm.lines().last().unwrap(), "");
}
