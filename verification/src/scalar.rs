//! The numbers that matrices, tuples and colors are made of.

use core::cmp::Ordering;
use vstd::prelude::*;

verus! {

/// A kind of number with total arithmetic.
///
/// Each operation comes twice. The `spec` function (`sum`, `product`, ...) says
/// which value an operation yields; the executable function (`plus`, `times`,
/// ...) computes that value. No operation has a precondition: an implementation
/// picks a total arithmetic, such as wrapping integers.
///
/// Nothing here asks for algebraic laws. Results that need them name the laws
/// they need, see [`has_identities`] and [`has_minus_one`].
///
/// Whatever is proved of a matrix, a tuple or a canvas over a scalar type rests
/// on that type's executable functions returning what its `spec` functions
/// say. For `i64` that is proved, see [`crate::integer`].
pub trait Scalar: Copy {
    /// The additive identity.
    spec fn zero_value() -> Self;

    /// The multiplicative identity.
    spec fn one_value() -> Self;

    /// `self + rhs`.
    spec fn sum(self, rhs: Self) -> Self;

    /// `self - rhs`.
    spec fn difference(self, rhs: Self) -> Self;

    /// `self * rhs`.
    spec fn product(self, rhs: Self) -> Self;

    /// `-self`.
    spec fn negation(self) -> Self;

    /// `self / rhs`.
    spec fn quotient(self, rhs: Self) -> Self;

    /// The square root of `self`.
    spec fn root_value(self) -> Self;

    /// Whether the two numbers compare equal. This is the number's own exact
    /// comparison, with no tolerance.
    spec fn same(self, rhs: Self) -> bool;

    /// Whether `self` is strictly less than `rhs`.
    spec fn less(self, rhs: Self) -> bool;

    /// The distance below which two numbers count as close, see [`close`].
    spec fn tolerance_value() -> Self;

    /// The number as one of 256 levels of intensity: zero and all below it is
    /// level 0, one and all above it is level 255, and what lies between is
    /// scaled and rounded to the nearest level.
    spec fn level_value(self) -> u8;

    /// Zero.
    fn zero() -> (r: Self)
        ensures
            r == Self::zero_value(),
    ;

    /// One.
    fn one() -> (r: Self)
        ensures
            r == Self::one_value(),
    ;

    /// Adds.
    fn plus(self, rhs: Self) -> (r: Self)
        ensures
            r == self.sum(rhs),
    ;

    /// Subtracts.
    fn minus(self, rhs: Self) -> (r: Self)
        ensures
            r == self.difference(rhs),
    ;

    /// Multiplies.
    fn times(self, rhs: Self) -> (r: Self)
        ensures
            r == self.product(rhs),
    ;

    /// Negates.
    fn negate(self) -> (r: Self)
        ensures
            r == self.negation(),
    ;

    /// Divides.
    fn divided_by(self, rhs: Self) -> (r: Self)
        ensures
            r == self.quotient(rhs),
    ;

    /// Takes the square root.
    fn root(self) -> (r: Self)
        ensures
            r == self.root_value(),
    ;

    /// Compares for equality, exactly.
    fn equals(self, rhs: Self) -> (r: bool)
        ensures
            r == self.same(rhs),
    ;

    /// Compares for order.
    fn less_than(self, rhs: Self) -> (r: bool)
        ensures
            r == self.less(rhs),
    ;

    /// The tolerance.
    fn tolerance() -> (r: Self)
        ensures
            r == Self::tolerance_value(),
    ;

    /// The level of intensity.
    fn level(self) -> (r: u8)
        ensures
            r == self.level_value(),
    ;
}

/// Whether `a` and `b` differ by less than the tolerance, in either
/// direction: their difference lies strictly between minus the tolerance and
/// the tolerance.
pub open spec fn close<T: Scalar>(a: T, b: T) -> bool {
    let d = a.difference(b);
    T::tolerance_value().negation().less(d) && d.less(T::tolerance_value())
}

/// Decides [`close`].
pub fn is_close<T: Scalar>(a: T, b: T) -> (r: bool)
    ensures
        r == close(a, b),
{
    let d = a.minus(b);
    let tolerance = T::tolerance();
    tolerance.negate().less_than(d) && d.less_than(tolerance)
}

/// How `a` stands to `b`: equal where they compare equal, else less or
/// greater where one is less than the other, and nothing where neither holds.
pub open spec fn compared<T: Scalar>(a: T, b: T) -> Option<Ordering> {
    if a.same(b) {
        Some(Ordering::Equal)
    } else if a.less(b) {
        Some(Ordering::Less)
    } else if b.less(a) {
        Some(Ordering::Greater)
    } else {
        None
    }
}

/// Decides [`compared`].
pub fn compare<T: Scalar>(a: T, b: T) -> (r: Option<Ordering>)
    ensures
        r == compared(a, b),
{
    if a.equals(b) {
        Some(Ordering::Equal)
    } else if a.less_than(b) {
        Some(Ordering::Less)
    } else if b.less_than(a) {
        Some(Ordering::Greater)
    } else {
        None
    }
}

/// The first comparison where it decides, and the next one where the first
/// finds equality.
pub open spec fn decided_or(first: Option<Ordering>, next: Option<Ordering>) -> Option<
    Ordering,
> {
    if first == Some(Ordering::Equal) {
        next
    } else {
        first
    }
}

/// Zero and one behave as identities towards `x`: adding zero to `x` and
/// multiplying `x` by one change nothing, and multiplying `x` by zero gives
/// zero, on either side.
pub open spec fn respects_identities<T: Scalar>(x: T) -> bool {
    &&& T::zero_value().sum(x) == x
    &&& x.sum(T::zero_value()) == x
    &&& x.product(T::one_value()) == x
    &&& T::one_value().product(x) == x
    &&& x.product(T::zero_value()) == T::zero_value()
    &&& T::zero_value().product(x) == T::zero_value()
}

/// Multiplying `x` by minus one negates it.
pub open spec fn negated_by_minus_one<T: Scalar>(x: T) -> bool {
    x.product(T::one_value().negation()) == x.negation()
}

/// Zero and one behave as identities towards every number.
pub open spec fn has_identities<T: Scalar>() -> bool {
    forall|x: T| #[trigger] respects_identities(x)
}

/// Multiplying by minus one negates every number.
pub open spec fn has_minus_one<T: Scalar>() -> bool {
    forall|x: T| #[trigger] negated_by_minus_one(x)
}

} // verus!
