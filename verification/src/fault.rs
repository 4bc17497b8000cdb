//! The ways in which an operation can be refused.

use vstd::prelude::*;

verus! {

/// Why an operation was refused.
#[derive(Clone, Copy, Debug, PartialEq, Eq, Structural)]
pub enum Fault {
    /// The shapes of the operands do not fit the operation.
    DimensionMismatch,
    /// A row or column number lies outside the matrix.
    OutOfBounds,
}

} // verus!
