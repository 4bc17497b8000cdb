//! Wrapping 64-bit integers as scalars.

use crate::scalar::{
    close,
    has_identities,
    has_minus_one,
    negated_by_minus_one,
    respects_identities,
    Scalar,
};
use vstd::prelude::*;

verus! {

/// No 64-bit integer has a root as large as this.
pub const ROOT_LIMIT: u64 = 3_037_000_500;

/// The largest number whose square does not exceed `n`.
pub open spec fn floor_root(n: nat) -> nat
    decreases n,
{
    if n == 0 {
        0
    } else {
        let r = floor_root((n - 1) as nat);
        if (r + 1) * (r + 1) <= n {
            r + 1
        } else {
            r
        }
    }
}

/// The square of the root does not exceed the number, and the next square
/// does.
pub proof fn lemma_floor_root_bounds(n: nat)
    ensures
        floor_root(n) * floor_root(n) <= n < (floor_root(n) + 1) * (floor_root(n) + 1),
    decreases n,
{
    if n > 0 {
        lemma_floor_root_bounds((n - 1) as nat);
        let r = floor_root((n - 1) as nat);
        if (r + 1) * (r + 1) <= n {
            assert(floor_root(n) == r + 1);
            assert(n < (r + 1 + 1) * (r + 1 + 1)) by (nonlinear_arith)
                requires
                    n - 1 < (r + 1) * (r + 1),
                    r >= 0,
            ;
        } else {
            assert(floor_root(n) == r);
        }
    } else {
        assert(floor_root(n) == 0);
        assert((0 + 1) * (0 + 1) == 1) by (nonlinear_arith);
    }
}

/// A number between whose square and next square `n` lies is the root of
/// `n`.
pub proof fn lemma_floor_root_is(n: nat, r: nat)
    requires
        r * r <= n < (r + 1) * (r + 1),
    ensures
        floor_root(n) == r,
{
    lemma_floor_root_bounds(n);
    let f = floor_root(n);
    if f < r {
        assert((f + 1) * (f + 1) <= r * r) by (nonlinear_arith)
            requires
                f + 1 <= r,
                f >= 0,
        ;
    } else if r < f {
        assert((r + 1) * (r + 1) <= f * f) by (nonlinear_arith)
            requires
                r + 1 <= f,
                r >= 0,
        ;
    }
}

/// Integers modulo 2^64: sums, differences and products wrap around.
///
/// A quotient is rounded towards zero, and is zero where the divisor is zero
/// or the quotient does not fit. The root is the largest integer whose square
/// does not exceed the number, and zero for a negative number. The tolerance
/// is one, so that two integers are close exactly when they are equal, see
/// [`lemma_i64_close_is_equal`]. There are two levels of intensity: none below
/// one, and full from one on.
impl Scalar for i64 {
    open spec fn zero_value() -> Self {
        0
    }

    open spec fn one_value() -> Self {
        1
    }

    open spec fn sum(self, rhs: Self) -> Self {
        self.wrapping_add(rhs)
    }

    open spec fn difference(self, rhs: Self) -> Self {
        self.wrapping_sub(rhs)
    }

    open spec fn product(self, rhs: Self) -> Self {
        self.wrapping_mul(rhs)
    }

    open spec fn negation(self) -> Self {
        0i64.wrapping_sub(self)
    }

    open spec fn quotient(self, rhs: Self) -> Self {
        match self.checked_div(rhs) {
            Some(q) => q,
            None => 0,
        }
    }

    open spec fn root_value(self) -> Self {
        if self <= 0 {
            0
        } else {
            floor_root(self as nat) as i64
        }
    }

    open spec fn same(self, rhs: Self) -> bool {
        self == rhs
    }

    open spec fn less(self, rhs: Self) -> bool {
        self < rhs
    }

    open spec fn tolerance_value() -> Self {
        1
    }

    open spec fn level_value(self) -> u8 {
        if self < 1 {
            0
        } else {
            255
        }
    }

    fn zero() -> (r: Self) {
        0
    }

    fn one() -> (r: Self) {
        1
    }

    fn plus(self, rhs: Self) -> (r: Self) {
        self.wrapping_add(rhs)
    }

    fn minus(self, rhs: Self) -> (r: Self) {
        self.wrapping_sub(rhs)
    }

    fn times(self, rhs: Self) -> (r: Self) {
        self.wrapping_mul(rhs)
    }

    fn negate(self) -> (r: Self) {
        0i64.wrapping_sub(self)
    }

    fn divided_by(self, rhs: Self) -> (r: Self) {
        match self.checked_div(rhs) {
            Some(q) => q,
            None => 0,
        }
    }

    fn root(self) -> (r: Self) {
        if self <= 0 {
            return 0;
        }
        let n: u64 = self as u64;
        // The root lies in [low, high).
        let mut low: u64 = 0;
        let mut high: u64 = if n < ROOT_LIMIT {
            n + 1
        } else {
            ROOT_LIMIT
        };
        proof {
            assert(n < high * high) by (nonlinear_arith)
                requires
                    high == n + 1 || (high == ROOT_LIMIT && n <= i64::MAX),
            ;
        }
        while high - low > 1
            invariant
                low < high <= ROOT_LIMIT,
                low * low <= n < high * high,
            decreases high - low,
        {
            let middle: u64 = low + (high - low) / 2;
            proof {
                assert(middle * middle < 0x1_0000_0000_0000_0000) by (nonlinear_arith)
                    requires
                        0 <= middle < ROOT_LIMIT,
                ;
            }
            if middle * middle <= n {
                low = middle;
            } else {
                high = middle;
            }
        }
        proof {
            lemma_floor_root_is(n as nat, low as nat);
        }
        low as i64
    }

    fn equals(self, rhs: Self) -> (r: bool) {
        self == rhs
    }

    fn less_than(self, rhs: Self) -> (r: bool) {
        self < rhs
    }

    fn tolerance() -> (r: Self) {
        1
    }

    fn level(self) -> (r: u8) {
        if self < 1 {
            0
        } else {
            255
        }
    }
}

/// Two wrapping 64-bit integers are close exactly when they are equal.
pub proof fn lemma_i64_close_is_equal(a: i64, b: i64)
    ensures
        close(a, b) <==> a == b,
{
    assert(1i64.negation() == -1i64);
}

/// Zero and one are identities towards every wrapping 64-bit integer.
pub proof fn lemma_i64_has_identities()
    ensures
        has_identities::<i64>(),
{
    assert forall|x: i64| #[trigger] respects_identities(x) by {
        assert(x * 1 == x);
        assert(1 * x == x);
        assert(x * 0 == 0);
        assert(0 * x == 0);
    }
}

/// Among wrapping 64-bit integers, multiplying by minus one negates.
pub proof fn lemma_i64_has_minus_one()
    ensures
        has_minus_one::<i64>(),
{
    assert forall|x: i64| #[trigger] negated_by_minus_one(x) by {
        assert(1i64.negation() == -1i64);
        assert(x * (-1) == -x);
    }
}

} // verus!
