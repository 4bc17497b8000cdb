//! Colors of three channels.

use crate::scalar::{close, is_close, Scalar};
use vstd::prelude::*;
use vstd::std_specs::cmp::PartialEqSpecImpl;

verus! {

/// A color by its red, green and blue parts. Zero is no light and one is full
/// intensity; arithmetic may leave that range.
#[derive(Debug)]
pub struct Color<T> {
    pub r: T,
    pub g: T,
    pub b: T,
}

impl<T: Copy> Clone for Color<T> {
    fn clone(&self) -> (out: Self)
        ensures
            out == *self,
    {
        *self
    }
}

impl<T: Copy> Copy for Color<T> {

}

impl<T: Scalar> Color<T> {
    /// The color of the three given parts.
    pub fn new(r: T, g: T, b: T) -> (out: Self)
        ensures
            out == (Color { r, g, b }),
    {
        Color { r, g, b }
    }

    /// The color without any light.
    pub open spec fn black() -> Self {
        Color { r: T::zero_value(), g: T::zero_value(), b: T::zero_value() }
    }

    /// The channel-wise sum.
    pub open spec fn sum(self, rhs: Self) -> Self {
        Color { r: self.r.sum(rhs.r), g: self.g.sum(rhs.g), b: self.b.sum(rhs.b) }
    }

    /// The channel-wise difference.
    pub open spec fn difference(self, rhs: Self) -> Self {
        Color {
            r: self.r.difference(rhs.r),
            g: self.g.difference(rhs.g),
            b: self.b.difference(rhs.b),
        }
    }

    /// The channel-wise product.
    pub open spec fn blend(self, rhs: Self) -> Self {
        Color { r: self.r.product(rhs.r), g: self.g.product(rhs.g), b: self.b.product(rhs.b) }
    }

    /// Every channel multiplied by `factor`.
    pub open spec fn scaled(self, factor: T) -> Self {
        Color { r: self.r.product(factor), g: self.g.product(factor), b: self.b.product(factor) }
    }

    /// Whether each channel of `self` is close to that of `other`.
    pub open spec fn close_to(self, other: Self) -> bool {
        close(self.r, other.r) && close(self.g, other.g) && close(self.b, other.b)
    }

    /// The levels of the three channels, red first.
    pub open spec fn levels(self) -> Seq<u8> {
        seq![self.r.level_value(), self.g.level_value(), self.b.level_value()]
    }

    /// The color whose channels are what `op` makes of the channels of `self`
    /// and `rhs`, pair by pair.
    fn apply_op<F: Fn(T, T) -> T>(&self, rhs: Self, op: F) -> (out: Self)
        requires
            op.requires((self.r, rhs.r)),
            op.requires((self.g, rhs.g)),
            op.requires((self.b, rhs.b)),
        ensures
            op.ensures((self.r, rhs.r), out.r),
            op.ensures((self.g, rhs.g), out.g),
            op.ensures((self.b, rhs.b), out.b),
    {
        Self::new(op(self.r, rhs.r), op(self.g, rhs.g), op(self.b, rhs.b))
    }

    /// The color as three bytes: the level of each channel, red first.
    pub fn to_rgb8(&self) -> (out: [u8; 3])
        ensures
            out@ == self.levels(),
    {
        let out = [self.r.level(), self.g.level(), self.b.level()];
        proof {
            assert(out@ =~= self.levels());
        }
        out
    }
}

impl<T: Scalar> Default for Color<T> {
    fn default() -> (out: Self)
        ensures
            out == Color::<T>::black(),
    {
        Color { r: T::zero(), g: T::zero(), b: T::zero() }
    }
}

impl<T: Scalar> vstd::std_specs::ops::AddSpecImpl for Color<T> {
    open spec fn obeys_add_spec() -> bool {
        true
    }

    open spec fn add_req(self, rhs: Color<T>) -> bool {
        true
    }

    open spec fn add_spec(self, rhs: Color<T>) -> Color<T> {
        self.sum(rhs)
    }
}

impl<T: Scalar> core::ops::Add for Color<T> {
    type Output = Color<T>;

    fn add(self, rhs: Color<T>) -> (out: Color<T>) {
        let plus = (|a: T, b: T| -> (r: T)
            ensures
                r == a.sum(b),
            { a.plus(b) });
        self.apply_op(rhs, plus)
    }
}

impl<T: Scalar> vstd::std_specs::ops::SubSpecImpl for Color<T> {
    open spec fn obeys_sub_spec() -> bool {
        true
    }

    open spec fn sub_req(self, rhs: Color<T>) -> bool {
        true
    }

    open spec fn sub_spec(self, rhs: Color<T>) -> Color<T> {
        self.difference(rhs)
    }
}

impl<T: Scalar> core::ops::Sub for Color<T> {
    type Output = Color<T>;

    fn sub(self, rhs: Color<T>) -> (out: Color<T>) {
        let minus = (|a: T, b: T| -> (r: T)
            ensures
                r == a.difference(b),
            { a.minus(b) });
        self.apply_op(rhs, minus)
    }
}

/// Two colors multiply channel by channel.
impl<T: Scalar> vstd::std_specs::ops::MulSpecImpl for Color<T> {
    open spec fn obeys_mul_spec() -> bool {
        true
    }

    open spec fn mul_req(self, rhs: Color<T>) -> bool {
        true
    }

    open spec fn mul_spec(self, rhs: Color<T>) -> Color<T> {
        self.blend(rhs)
    }
}

impl<T: Scalar> core::ops::Mul for Color<T> {
    type Output = Color<T>;

    fn mul(self, rhs: Color<T>) -> (out: Color<T>) {
        let times = (|a: T, b: T| -> (r: T)
            ensures
                r == a.product(b),
            { a.times(b) });
        self.apply_op(rhs, times)
    }
}

/// A color times a number: every channel is multiplied by it.
impl<T: Scalar> vstd::std_specs::ops::MulSpecImpl<T> for Color<T> {
    open spec fn obeys_mul_spec() -> bool {
        true
    }

    open spec fn mul_req(self, rhs: T) -> bool {
        true
    }

    open spec fn mul_spec(self, rhs: T) -> Color<T> {
        self.scaled(rhs)
    }
}

impl<T: Scalar> core::ops::Mul<T> for Color<T> {
    type Output = Color<T>;

    fn mul(self, rhs: T) -> (out: Color<T>) {
        Color { r: self.r.times(rhs), g: self.g.times(rhs), b: self.b.times(rhs) }
    }
}

impl<T: Scalar> PartialEqSpecImpl for Color<T> {
    open spec fn obeys_eq_spec() -> bool {
        true
    }

    open spec fn eq_spec(&self, other: &Color<T>) -> bool {
        self.close_to(*other)
    }
}

/// Two colors are equal when their channels are close: equality is
/// approximate.
impl<T: Scalar> PartialEq for Color<T> {
    fn eq(&self, other: &Color<T>) -> (r: bool) {
        is_close(self.r, other.r) && is_close(self.g, other.g) && is_close(self.b, other.b)
    }
}

} // verus!
