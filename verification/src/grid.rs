//! The mathematical model of a matrix, and what each matrix operation means.

use crate::scalar::Scalar;
use vstd::prelude::*;

verus! {

/// A table of values: `lines.len()` rows of `cols` entries each.
///
/// The number of columns is kept beside the rows so that a table without rows
/// still has a width.
pub struct Grid<T> {
    pub cols: nat,
    pub lines: Seq<Seq<T>>,
}

/// Where the `i`-th item that is left stood before the item at `removed` was
/// taken out.
pub open spec fn skip(i: int, removed: int) -> int {
    if i < removed {
        i
    } else {
        i + 1
    }
}

impl<T> Grid<T> {
    /// The number of rows.
    pub open spec fn rows(self) -> nat {
        self.lines.len()
    }

    /// Every row has `cols` entries.
    pub open spec fn wf(self) -> bool {
        forall|r: int| 0 <= r < self.lines.len() ==> (#[trigger] self.lines[r]).len() == self.cols
    }

    /// Whether `(r, c)` names an entry.
    pub open spec fn has(self, r: int, c: int) -> bool {
        0 <= r < self.rows() && 0 <= c < self.cols
    }

    /// The entry in row `r`, column `c`.
    pub open spec fn at(self, r: int, c: int) -> T {
        self.lines[r][c]
    }

    /// Column `c`, read from the first row to the last.
    pub open spec fn column(self, c: int) -> Seq<T> {
        Seq::new(self.rows(), |r: int| self.lines[r][c])
    }

    /// All entries in one sequence, row after row.
    pub open spec fn cells(self) -> Seq<T> {
        Seq::new(
            self.rows() * self.cols,
            |i: int| self.lines[i / (self.cols as int)][i % (self.cols as int)],
        )
    }

    /// Whether the table has as many rows as columns.
    pub open spec fn is_square(self) -> bool {
        self.rows() == self.cols
    }

    /// The table of the given shape whose entries are all `value`.
    pub open spec fn filled(rows: nat, cols: nat, value: T) -> Grid<T> {
        Grid { cols, lines: Seq::new(rows, |r: int| Seq::new(cols, |c: int| value)) }
    }

    /// The table made of the given rows. Its width is that of the first row, and
    /// zero if there is no row.
    pub open spec fn of_rows(lines: Seq<Seq<T>>) -> Grid<T> {
        Grid {
            cols: if lines.len() == 0 {
                0
            } else {
                lines[0].len()
            },
            lines,
        }
    }

    /// This table with the entry at `(r, c)` replaced by `value`.
    pub open spec fn updated(self, r: int, c: int, value: T) -> Grid<T> {
        Grid { cols: self.cols, lines: self.lines.update(r, self.lines[r].update(c, value)) }
    }

    /// Rows and columns exchanged: entry `(c, r)` of the result is entry `(r, c)`
    /// of this table.
    pub open spec fn transposed(self) -> Grid<T> {
        Grid { cols: self.rows(), lines: Seq::new(self.cols, |c: int| self.column(c)) }
    }

    /// This table with row `row` and column `col` taken out. The entries that
    /// are left keep their order.
    pub open spec fn without(self, row: int, col: int) -> Grid<T> {
        let rows: nat = if self.rows() > 0 {
            (self.rows() - 1) as nat
        } else {
            0
        };
        let cols: nat = if self.cols > 0 {
            (self.cols - 1) as nat
        } else {
            0
        };
        Grid {
            cols,
            lines: Seq::new(
                rows,
                |r: int| Seq::new(cols, |c: int| self.lines[skip(r, row)][skip(c, col)]),
            ),
        }
    }
}

/// `zero + a[0] * b[0] + ... + a[n - 1] * b[n - 1]`, added from left to right.
pub open spec fn dot_upto<T: Scalar>(a: Seq<T>, b: Seq<T>, n: nat) -> T
    decreases n,
{
    if n == 0 {
        T::zero_value()
    } else {
        dot_upto(a, b, (n - 1) as nat).sum(a[n - 1].product(b[n - 1]))
    }
}

/// The dot product of `a` with a sequence `b` that is at least as long.
pub open spec fn dot<T: Scalar>(a: Seq<T>, b: Seq<T>) -> T {
    dot_upto(a, b, a.len())
}

/// Whether `a` and `b` have the same length and, place by place, numbers that
/// compare equal.
pub open spec fn same_items<T: Scalar>(a: Seq<T>, b: Seq<T>) -> bool {
    &&& a.len() == b.len()
    &&& forall|i: int| 0 <= i < a.len() ==> (#[trigger] a[i]).same(b[i])
}

/// `value` with the sign of position `(row, col)`: unchanged where `row + col`
/// is even, negated where it is odd.
pub open spec fn signed<T: Scalar>(value: T, row: int, col: int) -> T {
    if (row + col) % 2 == 0 {
        value
    } else {
        value.negation()
    }
}

impl<T: Scalar> Grid<T> {
    /// The table of the given shape whose entries are all zero.
    pub open spec fn zeros(rows: nat, cols: nat) -> Grid<T> {
        Grid::filled(rows, cols, T::zero_value())
    }

    /// The table of the given shape with ones on the diagonal and zeros
    /// elsewhere.
    pub open spec fn identity(rows: nat, cols: nat) -> Grid<T> {
        Grid {
            cols,
            lines: Seq::new(
                rows,
                |r: int|
                    Seq::new(
                        cols,
                        |c: int|
                            if r == c {
                                T::one_value()
                            } else {
                                T::zero_value()
                            },
                    ),
            ),
        }
    }

    /// The matrix product: entry `(i, j)` is the dot product of row `i` of this
    /// table with column `j` of `other`.
    pub open spec fn times(self, other: Grid<T>) -> Grid<T> {
        Grid {
            cols: other.cols,
            lines: Seq::new(
                self.rows(),
                |i: int| Seq::new(other.cols, |j: int| dot(self.lines[i], other.column(j))),
            ),
        }
    }

    /// The product with a column vector: entry `i` is the dot product of row
    /// `i` with `v`.
    pub open spec fn apply(self, v: Seq<T>) -> Seq<T> {
        Seq::new(self.rows(), |i: int| dot(self.lines[i], v))
    }

    /// The determinant of a square table.
    ///
    /// The empty table has determinant one, a single entry is its own
    /// determinant, and two by two it is `a * d - b * c`. A larger table is
    /// expanded along its first row.
    pub open spec fn determinant(self) -> T
        decreases self.lines.len(), 1nat, 0nat,
    {
        let n = self.lines.len();
        if n == 0 {
            T::one_value()
        } else if n == 1 {
            self.at(0, 0)
        } else if n == 2 {
            self.at(0, 0).product(self.at(1, 1)).difference(self.at(0, 1).product(self.at(1, 0)))
        } else {
            self.expansion(n)
        }
    }

    /// The first `k` terms of the expansion along the first row, added from
    /// left to right, starting from zero: term `c` is entry `(0, c)` times its
    /// cofactor.
    pub open spec fn expansion(self, k: nat) -> T
        decreases self.lines.len(), 0nat, k,
    {
        if k == 0 || self.lines.len() == 0 {
            T::zero_value()
        } else {
            self.expansion((k - 1) as nat).sum(
                self.at(0, k - 1).product(signed(self.without(0, k - 1).determinant(), 0, k - 1)),
            )
        }
    }

    /// The determinant of what is left without row `row` and column `col`.
    pub open spec fn minor(self, row: int, col: int) -> T {
        self.without(row, col).determinant()
    }

    /// The minor at `(row, col)`, negated where `row + col` is odd.
    pub open spec fn cofactor(self, row: int, col: int) -> T {
        signed(self.minor(row, col), row, col)
    }
}

} // verus!
