//! Four-component tuples, and the points and vectors made of them.

use crate::scalar::{close, compare, compared, decided_or, is_close, Scalar};
use core::cmp::Ordering;
use vstd::prelude::*;
use vstd::std_specs::cmp::{PartialEqSpecImpl, PartialOrdSpecImpl};

verus! {

/// Four numbers. By convention `w` is one for a point and zero for a vector;
/// arithmetic may produce any other `w`.
#[derive(Debug)]
pub struct Tuple<T> {
    pub x: T,
    pub y: T,
    pub z: T,
    pub w: T,
}

impl<T: Copy> Clone for Tuple<T> {
    fn clone(&self) -> (out: Self)
        ensures
            out == *self,
    {
        *self
    }
}

impl<T: Copy> Copy for Tuple<T> {

}

impl<T> View for Tuple<T> {
    type V = Seq<T>;

    open spec fn view(&self) -> Seq<T> {
        seq![self.x, self.y, self.z, self.w]
    }
}

impl<T: Scalar> Tuple<T> {
    /// The tuple of the four given numbers.
    pub fn new(x: T, y: T, z: T, w: T) -> (out: Self)
        ensures
            out == (Tuple { x, y, z, w }),
    {
        Tuple { x, y, z, w }
    }

    /// The point at `(x, y, z)`.
    pub fn point(x: T, y: T, z: T) -> (out: Self)
        ensures
            out == (Tuple { x, y, z, w: T::one_value() }),
    {
        Tuple { x, y, z, w: T::one() }
    }

    /// The vector `(x, y, z)`.
    pub fn vector(x: T, y: T, z: T) -> (out: Self)
        ensures
            out == (Tuple { x, y, z, w: T::zero_value() }),
    {
        Tuple { x, y, z, w: T::zero() }
    }

    /// Whether `w` is exactly one.
    pub fn is_point(&self) -> (r: bool)
        ensures
            r == self.w.same(T::one_value()),
    {
        self.w.equals(T::one())
    }

    /// Whether `w` is exactly zero.
    pub fn is_vector(&self) -> (r: bool)
        ensures
            r == self.w.same(T::zero_value()),
    {
        self.w.equals(T::zero())
    }

    /// `x * x' + y * y' + z * z' + w * w'`, added from left to right.
    pub open spec fn dot_value(self, other: Self) -> T {
        self.x.product(other.x).sum(self.y.product(other.y)).sum(self.z.product(other.z)).sum(
            self.w.product(other.w),
        )
    }

    /// The cross product of the first three components, as a vector.
    pub open spec fn cross_value(self, other: Self) -> Self {
        Tuple {
            x: self.y.product(other.z).difference(self.z.product(other.y)),
            y: self.z.product(other.x).difference(self.x.product(other.z)),
            z: self.x.product(other.y).difference(self.y.product(other.x)),
            w: T::zero_value(),
        }
    }

    /// The component-wise sum.
    pub open spec fn sum(self, rhs: Self) -> Self {
        Tuple {
            x: self.x.sum(rhs.x),
            y: self.y.sum(rhs.y),
            z: self.z.sum(rhs.z),
            w: self.w.sum(rhs.w),
        }
    }

    /// The component-wise difference.
    pub open spec fn difference(self, rhs: Self) -> Self {
        Tuple {
            x: self.x.difference(rhs.x),
            y: self.y.difference(rhs.y),
            z: self.z.difference(rhs.z),
            w: self.w.difference(rhs.w),
        }
    }

    /// Every component negated.
    pub open spec fn negation(self) -> Self {
        Tuple {
            x: self.x.negation(),
            y: self.y.negation(),
            z: self.z.negation(),
            w: self.w.negation(),
        }
    }

    /// Every component multiplied by `factor`.
    pub open spec fn scaled(self, factor: T) -> Self {
        Tuple {
            x: self.x.product(factor),
            y: self.y.product(factor),
            z: self.z.product(factor),
            w: self.w.product(factor),
        }
    }

    /// Every component divided by `divisor`.
    pub open spec fn shrunk(self, divisor: T) -> Self {
        Tuple {
            x: self.x.quotient(divisor),
            y: self.y.quotient(divisor),
            z: self.z.quotient(divisor),
            w: self.w.quotient(divisor),
        }
    }

    /// The length of the first three components: the root of the sum of
    /// their squares, added from left to right.
    pub open spec fn magnitude_value(self) -> T {
        self.x.product(self.x).sum(self.y.product(self.y)).sum(
            self.z.product(self.z),
        ).root_value()
    }

    /// The vector of the first three components, each divided by the
    /// magnitude.
    pub open spec fn normalized(self) -> Self {
        let m = self.magnitude_value();
        Tuple {
            x: self.x.quotient(m),
            y: self.y.quotient(m),
            z: self.z.quotient(m),
            w: T::zero_value(),
        }
    }

    /// How `self` stands to `other`: as their first components that do not
    /// compare equal stand to each other, going from `x` to `w`. The
    /// comparison of the components is exact.
    pub open spec fn compared_to(self, other: Self) -> Option<Ordering> {
        decided_or(
            compared(self.x, other.x),
            decided_or(
                compared(self.y, other.y),
                decided_or(compared(self.z, other.z), compared(self.w, other.w)),
            ),
        )
    }

    /// Whether each component of `self` is close to that of `other`.
    pub open spec fn close_to(self, other: Self) -> bool {
        close(self.x, other.x) && close(self.y, other.y) && close(self.z, other.z) && close(
            self.w,
            other.w,
        )
    }

    /// The tuple whose components are what `op` makes of the components of
    /// `self` and `rhs`, pair by pair.
    fn apply_op<F: Fn(T, T) -> T>(&self, rhs: Self, op: F) -> (out: Self)
        requires
            op.requires((self.x, rhs.x)),
            op.requires((self.y, rhs.y)),
            op.requires((self.z, rhs.z)),
            op.requires((self.w, rhs.w)),
        ensures
            op.ensures((self.x, rhs.x), out.x),
            op.ensures((self.y, rhs.y), out.y),
            op.ensures((self.z, rhs.z), out.z),
            op.ensures((self.w, rhs.w), out.w),
    {
        Self::new(op(self.x, rhs.x), op(self.y, rhs.y), op(self.z, rhs.z), op(self.w, rhs.w))
    }

    /// The length of the first three components.
    pub fn magnitude(&self) -> (r: T)
        ensures
            r == self.magnitude_value(),
    {
        self.x.times(self.x).plus(self.y.times(self.y)).plus(self.z.times(self.z)).root()
    }

    /// The first three components divided by the magnitude, as a vector.
    pub fn normalize(&self) -> (out: Self)
        ensures
            out == self.normalized(),
    {
        let magnitude = self.magnitude();
        Self::vector(
            self.x.divided_by(magnitude),
            self.y.divided_by(magnitude),
            self.z.divided_by(magnitude),
        )
    }

    /// The dot product of all four components.
    pub fn dot(&self, other: &Self) -> (r: T)
        ensures
            r == self.dot_value(*other),
    {
        self.x.times(other.x).plus(self.y.times(other.y)).plus(self.z.times(other.z)).plus(
            self.w.times(other.w),
        )
    }

    /// The cross product of the first three components, as a vector.
    pub fn cross(&self, other: &Self) -> (out: Self)
        ensures
            out == self.cross_value(*other),
    {
        Self::vector(
            self.y.times(other.z).minus(self.z.times(other.y)),
            self.z.times(other.x).minus(self.x.times(other.z)),
            self.x.times(other.y).minus(self.y.times(other.x)),
        )
    }
}

impl<T: Scalar> vstd::std_specs::ops::AddSpecImpl for Tuple<T> {
    open spec fn obeys_add_spec() -> bool {
        true
    }

    open spec fn add_req(self, rhs: Tuple<T>) -> bool {
        true
    }

    open spec fn add_spec(self, rhs: Tuple<T>) -> Tuple<T> {
        self.sum(rhs)
    }
}

impl<T: Scalar> core::ops::Add for Tuple<T> {
    type Output = Tuple<T>;

    fn add(self, rhs: Tuple<T>) -> (out: Tuple<T>) {
        let plus = (|a: T, b: T| -> (r: T)
            ensures
                r == a.sum(b),
            { a.plus(b) });
        self.apply_op(rhs, plus)
    }
}

impl<T: Scalar> PartialEqSpecImpl for Tuple<T> {
    open spec fn obeys_eq_spec() -> bool {
        true
    }

    open spec fn eq_spec(&self, other: &Tuple<T>) -> bool {
        self.close_to(*other)
    }
}

/// Two tuples are equal when their components are close: equality is
/// approximate.
impl<T: Scalar> PartialEq for Tuple<T> {
    fn eq(&self, other: &Tuple<T>) -> (r: bool) {
        is_close(self.x, other.x) && is_close(self.y, other.y) && is_close(self.z, other.z)
            && is_close(self.w, other.w)
    }
}

impl<T: Scalar> Eq for Tuple<T> {

}

impl<T: Scalar> PartialOrdSpecImpl for Tuple<T> {
    open spec fn obeys_partial_cmp_spec() -> bool {
        true
    }

    open spec fn partial_cmp_spec(&self, other: &Tuple<T>) -> Option<Ordering> {
        self.compared_to(*other)
    }
}

/// Tuples are ordered component by component, from `x` to `w`, and exactly:
/// the order knows no tolerance.
impl<T: Scalar> PartialOrd for Tuple<T> {
    fn partial_cmp(&self, other: &Tuple<T>) -> (r: Option<Ordering>) {
        let by_x = compare(self.x, other.x);
        match by_x {
            Some(Ordering::Equal) => {},
            _ => {
                return by_x;
            },
        }
        let by_y = compare(self.y, other.y);
        match by_y {
            Some(Ordering::Equal) => {},
            _ => {
                return by_y;
            },
        }
        let by_z = compare(self.z, other.z);
        match by_z {
            Some(Ordering::Equal) => {},
            _ => {
                return by_z;
            },
        }
        compare(self.w, other.w)
    }
}

impl<T: Scalar> vstd::std_specs::ops::SubSpecImpl for Tuple<T> {
    open spec fn obeys_sub_spec() -> bool {
        true
    }

    open spec fn sub_req(self, rhs: Tuple<T>) -> bool {
        true
    }

    open spec fn sub_spec(self, rhs: Tuple<T>) -> Tuple<T> {
        self.difference(rhs)
    }
}

impl<T: Scalar> core::ops::Sub for Tuple<T> {
    type Output = Tuple<T>;

    fn sub(self, rhs: Tuple<T>) -> (out: Tuple<T>) {
        let minus = (|a: T, b: T| -> (r: T)
            ensures
                r == a.difference(b),
            { a.minus(b) });
        self.apply_op(rhs, minus)
    }
}

impl<T: Scalar> vstd::std_specs::ops::NegSpecImpl for Tuple<T> {
    open spec fn obeys_neg_spec() -> bool {
        true
    }

    open spec fn neg_req(self) -> bool {
        true
    }

    open spec fn neg_spec(self) -> Tuple<T> {
        self.negation()
    }
}

impl<T: Scalar> core::ops::Neg for Tuple<T> {
    type Output = Tuple<T>;

    fn neg(self) -> (out: Tuple<T>) {
        Tuple { x: self.x.negate(), y: self.y.negate(), z: self.z.negate(), w: self.w.negate() }
    }
}

/// A tuple times a number: every component is multiplied by it.
impl<T: Scalar> vstd::std_specs::ops::MulSpecImpl<T> for Tuple<T> {
    open spec fn obeys_mul_spec() -> bool {
        true
    }

    open spec fn mul_req(self, rhs: T) -> bool {
        true
    }

    open spec fn mul_spec(self, rhs: T) -> Tuple<T> {
        self.scaled(rhs)
    }
}

impl<T: Scalar> core::ops::Mul<T> for Tuple<T> {
    type Output = Tuple<T>;

    fn mul(self, rhs: T) -> (out: Tuple<T>) {
        Tuple {
            x: self.x.times(rhs),
            y: self.y.times(rhs),
            z: self.z.times(rhs),
            w: self.w.times(rhs),
        }
    }
}

/// A tuple divided by a number: every component is divided by it.
impl<T: Scalar> vstd::std_specs::ops::DivSpecImpl<T> for Tuple<T> {
    open spec fn obeys_div_spec() -> bool {
        true
    }

    open spec fn div_req(self, rhs: T) -> bool {
        true
    }

    open spec fn div_spec(self, rhs: T) -> Tuple<T> {
        self.shrunk(rhs)
    }
}

impl<T: Scalar> core::ops::Div<T> for Tuple<T> {
    type Output = Tuple<T>;

    fn div(self, rhs: T) -> (out: Tuple<T>) {
        Tuple {
            x: self.x.divided_by(rhs),
            y: self.y.divided_by(rhs),
            z: self.z.divided_by(rhs),
            w: self.w.divided_by(rhs),
        }
    }
}

/// A tuple whose `w` was made one.
#[derive(Debug)]
pub struct Point<T>(pub Tuple<T>);

impl<T: Copy> Clone for Point<T> {
    fn clone(&self) -> (out: Self)
        ensures
            out == *self,
    {
        *self
    }
}

impl<T: Copy> Copy for Point<T> {

}

/// A tuple whose `w` was made zero.
#[derive(Debug)]
pub struct Vector<T>(pub Tuple<T>);

impl<T: Copy> Clone for Vector<T> {
    fn clone(&self) -> (out: Self)
        ensures
            out == *self,
    {
        *self
    }
}

impl<T: Copy> Copy for Vector<T> {

}

/// A point can be read as the tuple it holds.
impl<T> core::ops::Deref for Point<T> {
    type Target = Tuple<T>;

    fn deref(&self) -> (out: &Tuple<T>)
        ensures
            *out == self.0,
    {
        &self.0
    }
}

/// A vector can be read as the tuple it holds.
impl<T> core::ops::Deref for Vector<T> {
    type Target = Tuple<T>;

    fn deref(&self) -> (out: &Tuple<T>)
        ensures
            *out == self.0,
    {
        &self.0
    }
}

impl<T: Scalar> Point<T> {
    /// The point at `(x, y, z)`.
    pub fn new(x: T, y: T, z: T) -> (out: Self)
        ensures
            out.0 == (Tuple { x, y, z, w: T::one_value() }),
    {
        Point(Tuple::new(x, y, z, T::one()))
    }
}

impl<T: Scalar> Vector<T> {
    /// The vector `(x, y, z)`.
    pub fn new(x: T, y: T, z: T) -> (out: Self)
        ensures
            out.0 == (Tuple { x, y, z, w: T::zero_value() }),
    {
        Vector(Tuple::new(x, y, z, T::zero()))
    }

    /// The vector with the first three components divided by the magnitude,
    /// and the fourth as it is.
    pub open spec fn normalized(self) -> Self {
        let m = self.0.magnitude_value();
        Vector(
            Tuple {
                x: self.0.x.quotient(m),
                y: self.0.y.quotient(m),
                z: self.0.z.quotient(m),
                w: self.0.w,
            },
        )
    }

    /// The length of the vector.
    pub fn magnitude(&self) -> (r: T)
        ensures
            r == self.0.magnitude_value(),
    {
        self.0.magnitude()
    }

    /// The vector with its first three components divided by the magnitude.
    pub fn normalize(&self) -> (out: Self)
        ensures
            out == self.normalized(),
    {
        let magnitude = self.magnitude();
        Vector(
            Tuple::new(
                self.0.x.divided_by(magnitude),
                self.0.y.divided_by(magnitude),
                self.0.z.divided_by(magnitude),
                self.0.w,
            ),
        )
    }

    /// The cross product of the first three components; the fourth is the
    /// product of the two fourth components.
    pub open spec fn cross_value(self, other: Self) -> Self {
        Vector(
            Tuple {
                x: self.0.y.product(other.0.z).difference(self.0.z.product(other.0.y)),
                y: self.0.z.product(other.0.x).difference(self.0.x.product(other.0.z)),
                z: self.0.x.product(other.0.y).difference(self.0.y.product(other.0.x)),
                w: self.0.w.product(other.0.w),
            },
        )
    }

    /// The dot product of all four components.
    pub fn dot(&self, other: &Self) -> (r: T)
        ensures
            r == self.0.dot_value(other.0),
    {
        self.0.dot(&other.0)
    }

    /// The cross product of the first three components.
    pub fn cross(&self, other: &Self) -> (out: Self)
        ensures
            out == self.cross_value(*other),
    {
        let a = &self.0;
        let b = &other.0;
        Vector(
            Tuple::new(
                a.y.times(b.z).minus(a.z.times(b.y)),
                a.z.times(b.x).minus(a.x.times(b.z)),
                a.x.times(b.y).minus(a.y.times(b.x)),
                a.w.times(b.w),
            ),
        )
    }
}

impl<T: Scalar> PartialEqSpecImpl for Point<T> {
    open spec fn obeys_eq_spec() -> bool {
        true
    }

    open spec fn eq_spec(&self, other: &Point<T>) -> bool {
        self.0.close_to(other.0)
    }
}

impl<T: Scalar> PartialEq for Point<T> {
    fn eq(&self, other: &Point<T>) -> (r: bool) {
        self.0 == other.0
    }
}

impl<T: Scalar> PartialOrdSpecImpl for Point<T> {
    open spec fn obeys_partial_cmp_spec() -> bool {
        true
    }

    open spec fn partial_cmp_spec(&self, other: &Point<T>) -> Option<Ordering> {
        self.0.compared_to(other.0)
    }
}

/// Points are ordered as their tuples.
impl<T: Scalar> PartialOrd for Point<T> {
    fn partial_cmp(&self, other: &Point<T>) -> (r: Option<Ordering>) {
        self.0.partial_cmp(&other.0)
    }
}

impl<T: Scalar> PartialEqSpecImpl<Point<T>> for Tuple<T> {
    open spec fn obeys_eq_spec() -> bool {
        true
    }

    open spec fn eq_spec(&self, other: &Point<T>) -> bool {
        self.close_to(other.0)
    }
}

impl<T: Scalar> PartialEq<Point<T>> for Tuple<T> {
    fn eq(&self, other: &Point<T>) -> (r: bool) {
        *self == other.0
    }
}

impl<T: Scalar> PartialEqSpecImpl<Tuple<T>> for Point<T> {
    open spec fn obeys_eq_spec() -> bool {
        true
    }

    open spec fn eq_spec(&self, other: &Tuple<T>) -> bool {
        self.0.close_to(*other)
    }
}

impl<T: Scalar> PartialEq<Tuple<T>> for Point<T> {
    fn eq(&self, other: &Tuple<T>) -> (r: bool) {
        self.0 == *other
    }
}

impl<T: Scalar> PartialEqSpecImpl for Vector<T> {
    open spec fn obeys_eq_spec() -> bool {
        true
    }

    open spec fn eq_spec(&self, other: &Vector<T>) -> bool {
        self.0.close_to(other.0)
    }
}

impl<T: Scalar> PartialEq for Vector<T> {
    fn eq(&self, other: &Vector<T>) -> (r: bool) {
        self.0 == other.0
    }
}

impl<T: Scalar> PartialOrdSpecImpl for Vector<T> {
    open spec fn obeys_partial_cmp_spec() -> bool {
        true
    }

    open spec fn partial_cmp_spec(&self, other: &Vector<T>) -> Option<Ordering> {
        self.0.compared_to(other.0)
    }
}

/// Vectors are ordered as their tuples.
impl<T: Scalar> PartialOrd for Vector<T> {
    fn partial_cmp(&self, other: &Vector<T>) -> (r: Option<Ordering>) {
        self.0.partial_cmp(&other.0)
    }
}

impl<T: Scalar> PartialEqSpecImpl<Vector<T>> for Tuple<T> {
    open spec fn obeys_eq_spec() -> bool {
        true
    }

    open spec fn eq_spec(&self, other: &Vector<T>) -> bool {
        self.close_to(other.0)
    }
}

impl<T: Scalar> PartialEq<Vector<T>> for Tuple<T> {
    fn eq(&self, other: &Vector<T>) -> (r: bool) {
        *self == other.0
    }
}

impl<T: Scalar> PartialEqSpecImpl<Tuple<T>> for Vector<T> {
    open spec fn obeys_eq_spec() -> bool {
        true
    }

    open spec fn eq_spec(&self, other: &Tuple<T>) -> bool {
        self.0.close_to(*other)
    }
}

impl<T: Scalar> PartialEq<Tuple<T>> for Vector<T> {
    fn eq(&self, other: &Tuple<T>) -> (r: bool) {
        self.0 == *other
    }
}

/// A point moved by a vector is a point.
impl<T: Scalar> vstd::std_specs::ops::AddSpecImpl<Vector<T>> for Point<T> {
    open spec fn obeys_add_spec() -> bool {
        true
    }

    open spec fn add_req(self, rhs: Vector<T>) -> bool {
        true
    }

    open spec fn add_spec(self, rhs: Vector<T>) -> Point<T> {
        Point(self.0.sum(rhs.0))
    }
}

impl<T: Scalar> core::ops::Add<Vector<T>> for Point<T> {
    type Output = Point<T>;

    fn add(self, rhs: Vector<T>) -> (out: Point<T>) {
        Point(self.0 + rhs.0)
    }
}

/// The difference of two points is the vector from the second to the first.
impl<T: Scalar> vstd::std_specs::ops::SubSpecImpl for Point<T> {
    open spec fn obeys_sub_spec() -> bool {
        true
    }

    open spec fn sub_req(self, rhs: Point<T>) -> bool {
        true
    }

    open spec fn sub_spec(self, rhs: Point<T>) -> Vector<T> {
        Vector(self.0.difference(rhs.0))
    }
}

impl<T: Scalar> core::ops::Sub for Point<T> {
    type Output = Vector<T>;

    fn sub(self, rhs: Point<T>) -> (out: Vector<T>) {
        Vector(self.0 - rhs.0)
    }
}

/// A point moved back by a vector is a point.
impl<T: Scalar> vstd::std_specs::ops::SubSpecImpl<Vector<T>> for Point<T> {
    open spec fn obeys_sub_spec() -> bool {
        true
    }

    open spec fn sub_req(self, rhs: Vector<T>) -> bool {
        true
    }

    open spec fn sub_spec(self, rhs: Vector<T>) -> Point<T> {
        Point(self.0.difference(rhs.0))
    }
}

impl<T: Scalar> core::ops::Sub<Vector<T>> for Point<T> {
    type Output = Point<T>;

    fn sub(self, rhs: Vector<T>) -> (out: Point<T>) {
        Point(self.0 - rhs.0)
    }
}

impl<T: Scalar> vstd::std_specs::ops::AddSpecImpl for Vector<T> {
    open spec fn obeys_add_spec() -> bool {
        true
    }

    open spec fn add_req(self, rhs: Vector<T>) -> bool {
        true
    }

    open spec fn add_spec(self, rhs: Vector<T>) -> Vector<T> {
        Vector(self.0.sum(rhs.0))
    }
}

impl<T: Scalar> core::ops::Add for Vector<T> {
    type Output = Vector<T>;

    fn add(self, rhs: Vector<T>) -> (out: Vector<T>) {
        Vector(self.0 + rhs.0)
    }
}

impl<T: Scalar> vstd::std_specs::ops::SubSpecImpl for Vector<T> {
    open spec fn obeys_sub_spec() -> bool {
        true
    }

    open spec fn sub_req(self, rhs: Vector<T>) -> bool {
        true
    }

    open spec fn sub_spec(self, rhs: Vector<T>) -> Vector<T> {
        Vector(self.0.difference(rhs.0))
    }
}

impl<T: Scalar> core::ops::Sub for Vector<T> {
    type Output = Vector<T>;

    fn sub(self, rhs: Vector<T>) -> (out: Vector<T>) {
        Vector(self.0 - rhs.0)
    }
}

} // verus!
