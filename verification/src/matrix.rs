//! Dense matrices of any shape.
//!
//! A [`Matrix`] keeps its entries row after row in one buffer. What each
//! operation returns is stated over the matrix's view, a [`Grid`].
//!
//! The operations come in two forms. `get`, `set`, `row`, `set_row`,
//! `from_rows`, `submatrix`, `multiply`, `multiply_vector`, `determinant`,
//! `minor` and `cofactor` state as a precondition what the caller has to make
//! sure of: that the entry exists, that the shapes fit. Their counterparts
//! `try_get`, `try_set`, ... test it and answer with a [`Fault`].

use crate::fault::Fault;
use crate::grid::{dot, dot_upto, same_items, skip, Grid};
use crate::index::{lemma_flat_index, lemma_flat_index_distinct, lemma_row_end};
use crate::scalar::Scalar;
use crate::tuple::Tuple;
use vstd::arithmetic::div_mod::{lemma_fundamental_div_mod, lemma_mod_pos_bound};
use vstd::prelude::*;
use vstd::std_specs::cmp::PartialEqSpecImpl;

verus! {

/// A matrix of `rows` by `cols` entries, stored row after row in one buffer.
#[derive(Debug)]
pub struct Matrix<T> {
    data: Vec<T>,
    rows: usize,
    cols: usize,
}

impl<T> View for Matrix<T> {
    type V = Grid<T>;

    closed spec fn view(&self) -> Grid<T> {
        if self.inv() {
            Grid {
                cols: self.cols as nat,
                lines: Seq::new(
                    self.rows as nat,
                    |r: int| Seq::new(self.cols as nat, |c: int| self.data@[r * self.cols + c]),
                ),
            }
        } else {
            Grid { cols: 0, lines: Seq::empty() }
        }
    }
}

impl<T> Matrix<T> {
    #[verifier::type_invariant]
    spec fn inv(self) -> bool {
        self.data.len() == self.rows * self.cols
    }

    /// The view of a matrix is always a well-formed table.
    pub proof fn lemma_view_wf(self)
        ensures
            self@.wf(),
    {
    }

    /// A matrix has no more entries than a buffer can hold.
    pub proof fn lemma_size_fits(self)
        ensures
            self@.rows() * self@.cols <= usize::MAX,
    {
        if self.inv() {
            assert(self@.rows() * self@.cols == self.data.len());
        } else {
            assert(self@.rows() * self@.cols == 0) by (nonlinear_arith)
                requires
                    self@.rows() == 0,
            ;
        }
    }

    /// The buffer of a matrix lists the entries of its view, row after row.
    proof fn lemma_data_is_cells(self)
        requires
            self.inv(),
        ensures
            self.data@ == self@.cells(),
    {
        let rows = self.rows as int;
        let cols = self.cols as int;
        assert forall|i: int| 0 <= i < rows * cols implies self.data@[i] == self@.cells()[i] by {
            assert(cols > 0) by (nonlinear_arith)
                requires
                    0 <= i < rows * cols,
                    cols >= 0,
            ;
            lemma_fundamental_div_mod(i, cols);
            lemma_mod_pos_bound(i, cols);
            let r = i / cols;
            let c = i % cols;
            assert(cols * r == r * cols) by (nonlinear_arith);
            assert(0 <= r < rows) by (nonlinear_arith)
                requires
                    0 <= i < rows * cols,
                    i == r * cols + c,
                    0 <= c < cols,
            ;
        }
        assert(self.data@ =~= self@.cells());
    }

    /// A matrix whose buffer holds the entries of `g`, row after row, has `g` as
    /// its view.
    proof fn lemma_view_is(self, g: Grid<T>)
        requires
            self.inv(),
            g.wf(),
            g.rows() == self.rows,
            g.cols == self.cols,
            holds_prefix(self.data@, g),
        ensures
            self@ == g,
    {
        assert forall|r: int| 0 <= r < self.rows implies #[trigger] self@.lines[r]
            == g.lines[r] by {
            assert forall|c: int| 0 <= c < self.cols implies self@.lines[r][c]
                == g.lines[r][c] by {
                lemma_flat_index(self.rows as int, self.cols as int, r, c);
            }
            assert(self@.lines[r] =~= g.lines[r]);
        }
        assert(self@.lines =~= g.lines);
    }
}

/// The items of `data` are the first entries of `g`, row after row.
spec fn holds_prefix<T>(data: Seq<T>, g: Grid<T>) -> bool {
    forall|r: int, c: int|
        0 <= r < g.rows() && 0 <= c < g.cols && r * g.cols + c < data.len() ==> data[r * g.cols
            + c] == #[trigger] g.lines[r][c]
}

/// Appending the next entry of `g` keeps `data` a prefix of `g`.
proof fn lemma_push_entry<T>(data: Seq<T>, g: Grid<T>, r: int, c: int, value: T)
    requires
        0 <= r < g.rows(),
        0 <= c < g.cols,
        data.len() == r * g.cols + c,
        holds_prefix(data, g),
        value == g.lines[r][c],
    ensures
        holds_prefix(data.push(value), g),
{
    let cols = g.cols as int;
    assert forall|r2: int, c2: int|
        0 <= r2 < g.rows() && 0 <= c2 < g.cols && r2 * g.cols + c2 < data.len()
            + 1 implies data.push(value)[r2 * g.cols + c2] == #[trigger] g.lines[r2][c2] by {
        lemma_flat_index(g.rows() as int, cols, r2, c2);
        if r2 * cols + c2 == data.len() {
            lemma_flat_index_distinct(cols, r2, c2, r, c);
        }
    }
}

/// Two well-formed tables of one shape that have no entries are the same.
proof fn lemma_same_without_entries<T>(a: Grid<T>, b: Grid<T>)
    requires
        a.wf(),
        b.wf(),
        a.rows() == b.rows(),
        a.cols == b.cols,
        a.rows() == 0 || a.cols == 0,
    ensures
        a == b,
{
    assert forall|r: int| 0 <= r < a.rows() implies #[trigger] a.lines[r] == b.lines[r] by {
        assert(a.lines[r] =~= b.lines[r]);
    }
    assert(a.lines =~= b.lines);
}

/// The contents of the given rows, as sequences.
pub open spec fn lines_of<T>(rows: Seq<Vec<T>>) -> Seq<Seq<T>> {
    Seq::new(rows.len(), |i: int| rows[i]@)
}

/// Whether all the given rows have the length of the first.
pub open spec fn same_lengths<T>(rows: Seq<Vec<T>>) -> bool {
    forall|i: int| 0 <= i < rows.len() ==> (#[trigger] rows[i])@.len() == rows[0]@.len()
}

impl<T: Copy> Matrix<T> {
    /// The matrix of a shape that has no entries.
    fn without_entries(rows: usize, cols: usize) -> (out: Self)
        requires
            rows == 0 || cols == 0,
        ensures
            out@.rows() == rows,
            out@.cols == cols,
    {
        proof {
            assert(rows * cols == 0) by (nonlinear_arith)
                requires
                    rows == 0 || cols == 0,
            ;
        }
        Matrix { data: Vec::new(), rows, cols }
    }

    /// The matrix of the given shape whose entries are all `value`.
    fn filled(rows: usize, cols: usize, value: T) -> (out: Self)
        ensures
            out@ == Grid::filled(rows as nat, cols as nat, value),
    {
        let ghost g = Grid::filled(rows as nat, cols as nat, value);
        if rows == 0 || cols == 0 {
            let out = Self::without_entries(rows, cols);
            proof {
                out.lemma_view_wf();
                lemma_same_without_entries(out@, g);
            }
            return out;
        }
        let mut data: Vec<T> = Vec::new();
        let mut r: usize = 0;
        while r < rows
            invariant
                r <= rows,
                g == Grid::filled(rows as nat, cols as nat, value),
                data@.len() == r * cols,
                holds_prefix(data@, g),
            decreases rows - r,
        {
            let mut c: usize = 0;
            while c < cols
                invariant
                    r < rows,
                    c <= cols,
                    g == Grid::filled(rows as nat, cols as nat, value),
                    data@.len() == r * cols + c,
                    holds_prefix(data@, g),
                decreases cols - c,
            {
                proof {
                    lemma_push_entry(data@, g, r as int, c as int, value);
                }
                data.push(value);
                c += 1;
            }
            proof {
                lemma_row_end(r as int, cols as int);
            }
            r += 1;
        }
        let out = Matrix { data, rows, cols };
        proof {
            out.lemma_view_is(g);
        }
        out
    }

    /// The matrix made of the given rows, which must all have the same length.
    /// No rows give the matrix without rows and columns.
    pub fn from_rows(rows: &[Vec<T>]) -> (out: Self)
        requires
            same_lengths(rows@),
        ensures
            out@ == Grid::of_rows(lines_of(rows@)),
            out@.rows() == rows@.len(),
            forall|r: int| 0 <= r < rows@.len() ==> #[trigger] out@.lines[r] == rows@[r]@,
    {
        let n_rows: usize = rows.len();
        let n_cols: usize = if n_rows == 0 {
            0
        } else {
            rows[0].len()
        };
        let ghost g = Grid::of_rows(lines_of(rows@));
        let mut data: Vec<T> = Vec::new();
        let mut r: usize = 0;
        while r < n_rows
            invariant
                r <= n_rows,
                n_rows == rows@.len(),
                same_lengths(rows@),
                g == Grid::of_rows(lines_of(rows@)),
                g.cols == n_cols,
                data@.len() == r * n_cols,
                holds_prefix(data@, g),
            decreases n_rows - r,
        {
            let row = &rows[r];
            let mut c: usize = 0;
            while c < n_cols
                invariant
                    r < n_rows,
                    c <= n_cols,
                    n_rows == rows@.len(),
                    g == Grid::of_rows(lines_of(rows@)),
                    g.cols == n_cols,
                    row@ == rows@[r as int]@,
                    row@.len() == n_cols,
                    data@.len() == r * n_cols + c,
                    holds_prefix(data@, g),
                decreases n_cols - c,
            {
                let value = row[c];
                proof {
                    lemma_push_entry(data@, g, r as int, c as int, value);
                }
                data.push(value);
                c += 1;
            }
            proof {
                lemma_row_end(r as int, n_cols as int);
            }
            r += 1;
        }
        let out = Matrix { data, rows: n_rows, cols: n_cols };
        proof {
            out.lemma_view_is(g);
        }
        out
    }

    /// Row `index`, as a slice of the matrix's own buffer.
    pub fn row(&self, index: usize) -> (out: &[T])
        requires
            index < self@.rows(),
        ensures
            out@ == self@.lines[index as int],
    {
        proof {
            use_type_invariant(self);
            lemma_flat_index(self.rows as int, self.cols as int + 1, index as int, 0);
            if self.cols > 0 {
                lemma_flat_index(self.rows as int, self.cols as int, index as int, 0);
            }
            lemma_row_end(index as int, self.cols as int);
            assert((index + 1) * self.cols <= self.rows * self.cols) by (nonlinear_arith)
                requires
                    index + 1 <= self.rows,
                    self.cols >= 0,
            ;
        }
        let start: usize = index * self.cols;
        let end: usize = start + self.cols;
        let out = vstd::slice::slice_subrange(self.data.as_slice(), start, end);
        proof {
            assert(out@ =~= self@.lines[index as int]);
        }
        out
    }

    /// Rows and columns exchanged.
    pub fn transpose(&self) -> (out: Self)
        ensures
            out@ == self@.transposed(),
            out@.rows() == self@.cols,
            out@.cols == self@.rows(),
            forall|r: int, c: int|
                self@.has(r, c) ==> #[trigger] out@.at(c, r) == self@.at(r, c),
    {
        proof {
            use_type_invariant(self);
        }
        let ghost g = self@.transposed();
        if self.rows == 0 || self.cols == 0 {
            let out = Self::without_entries(self.cols, self.rows);
            proof {
                out.lemma_view_wf();
                lemma_same_without_entries(out@, g);
            }
            return out;
        }
        let mut data: Vec<T> = Vec::with_capacity(self.data.len());
        let mut c: usize = 0;
        while c < self.cols
            invariant
                self.inv(),
                c <= self.cols,
                g == self@.transposed(),
                data@.len() == c * self.rows,
                holds_prefix(data@, g),
            decreases self.cols - c,
        {
            let mut r: usize = 0;
            while r < self.rows
                invariant
                    self.inv(),
                    c < self.cols,
                    r <= self.rows,
                    g == self@.transposed(),
                    data@.len() == c * self.rows + r,
                    holds_prefix(data@, g),
                decreases self.rows - r,
            {
                let value = self.get(r, c);
                proof {
                    lemma_push_entry(data@, g, c as int, r as int, value);
                }
                data.push(value);
                r += 1;
            }
            proof {
                lemma_row_end(c as int, self.rows as int);
            }
            c += 1;
        }
        proof {
            assert(self.cols * self.rows == self.rows * self.cols) by (nonlinear_arith);
        }
        let out = Matrix { data, rows: self.cols, cols: self.rows };
        proof {
            out.lemma_view_is(g);
        }
        out
    }

    /// The matrix without row `row` and column `col`.
    pub fn submatrix(&self, row: usize, col: usize) -> (out: Self)
        requires
            self@.has(row as int, col as int),
        ensures
            out@ == self@.without(row as int, col as int),
            out@.rows() == self@.rows() - 1,
            out@.cols == self@.cols - 1,
            forall|r: int, c: int|
                out@.has(r, c) ==> #[trigger] out@.at(r, c) == self@.at(
                    skip(r, row as int),
                    skip(c, col as int),
                ),
    {
        proof {
            use_type_invariant(self);
        }
        let ghost g = self@.without(row as int, col as int);
        let n_rows: usize = self.rows - 1;
        let n_cols: usize = self.cols - 1;
        if n_rows == 0 || n_cols == 0 {
            let out = Self::without_entries(n_rows, n_cols);
            proof {
                out.lemma_view_wf();
                lemma_same_without_entries(out@, g);
            }
            return out;
        }
        let mut data: Vec<T> = Vec::new();
        let mut r: usize = 0;
        while r < n_rows
            invariant
                self.inv(),
                r <= n_rows,
                n_rows == self.rows - 1,
                n_cols == self.cols - 1,
                self@.has(row as int, col as int),
                g == self@.without(row as int, col as int),
                data@.len() == r * n_cols,
                holds_prefix(data@, g),
            decreases n_rows - r,
        {
            let from_row: usize = if r < row {
                r
            } else {
                r + 1
            };
            let mut c: usize = 0;
            while c < n_cols
                invariant
                    self.inv(),
                    r < n_rows,
                    c <= n_cols,
                    n_rows == self.rows - 1,
                    n_cols == self.cols - 1,
                    from_row == skip(r as int, row as int),
                    self@.has(row as int, col as int),
                    g == self@.without(row as int, col as int),
                    data@.len() == r * n_cols + c,
                    holds_prefix(data@, g),
                decreases n_cols - c,
            {
                let from_col: usize = if c < col {
                    c
                } else {
                    c + 1
                };
                let value = self.get(from_row, from_col);
                proof {
                    lemma_push_entry(data@, g, r as int, c as int, value);
                }
                data.push(value);
                c += 1;
            }
            proof {
                lemma_row_end(r as int, n_cols as int);
            }
            r += 1;
        }
        let out = Matrix { data, rows: n_rows, cols: n_cols };
        proof {
            out.lemma_view_is(g);
        }
        out
    }

    /// The number of rows.
    pub fn rows(&self) -> (n: usize)
        ensures
            n == self@.rows(),
    {
        proof {
            use_type_invariant(self);
        }
        self.rows
    }

    /// The number of columns.
    pub fn cols(&self) -> (n: usize)
        ensures
            n == self@.cols,
    {
        proof {
            use_type_invariant(self);
        }
        self.cols
    }

    /// The entry in row `row`, column `col`.
    pub fn get(&self, row: usize, col: usize) -> (value: T)
        requires
            self@.has(row as int, col as int),
        ensures
            value == self@.at(row as int, col as int),
    {
        proof {
            use_type_invariant(self);
            lemma_flat_index(self.rows as int, self.cols as int, row as int, col as int);
        }
        self.data[row * self.cols + col]
    }

    /// Replaces the entry in row `row`, column `col`.
    pub fn set(&mut self, row: usize, col: usize, value: T)
        requires
            old(self)@.has(row as int, col as int),
        ensures
            final(self)@ == old(self)@.updated(row as int, col as int, value),
    {
        proof {
            use_type_invariant(&*self);
            lemma_flat_index(self.rows as int, self.cols as int, row as int, col as int);
        }
        let index: usize = row * self.cols + col;
        self.data[index] = value;
        proof {
            let cols = self.cols as int;
            let before = old(self)@;
            assert forall|r: int| 0 <= r < self.rows implies #[trigger] self@.lines[r]
                == before.updated(row as int, col as int, value).lines[r] by {
                assert forall|c: int| 0 <= c < cols implies self@.lines[r][c] == before.updated(
                    row as int,
                    col as int,
                    value,
                ).lines[r][c] by {
                    lemma_flat_index(self.rows as int, cols, r, c);
                    if r * cols + c == index {
                        lemma_flat_index_distinct(cols, r, c, row as int, col as int);
                    }
                }
                assert(self@.lines[r] =~= before.updated(row as int, col as int, value).lines[r]);
            }
            assert(self@.lines =~= before.updated(row as int, col as int, value).lines);
        }
    }

    /// Replaces row `index` by the given values, of which there must be as
    /// many as the matrix has columns.
    pub fn set_row(&mut self, index: usize, values: &[T])
        requires
            index < old(self)@.rows(),
            values@.len() == old(self)@.cols,
        ensures
            final(self)@.cols == old(self)@.cols,
            final(self)@.lines == old(self)@.lines.update(index as int, values@),
    {
        let ghost before = self@;
        proof {
            self.lemma_view_wf();
        }
        let cols: usize = self.cols();
        let mut c: usize = 0;
        while c < cols
            invariant
                c <= cols,
                cols == before.cols,
                values@.len() == cols,
                index < before.rows(),
                before.wf(),
                self@.cols == before.cols,
                self@.lines.len() == before.lines.len(),
                self@.lines[index as int].len() == cols,
                forall|r: int|
                    0 <= r < before.rows() && r != index ==> #[trigger] self@.lines[r]
                        == before.lines[r],
                forall|k: int| 0 <= k < c ==> #[trigger] self@.lines[index as int][k] == values@[k],
            decreases cols - c,
        {
            self.set(index, c, values[c]);
            c += 1;
        }
        proof {
            assert(self@.lines[index as int] =~= values@);
            assert(self@.lines =~= before.lines.update(index as int, values@));
        }
    }

    /// Decides whether all the given rows have the length of the first.
    fn have_same_lengths(rows: &[Vec<T>]) -> (r: bool)
        ensures
            r == same_lengths(rows@),
    {
        let n: usize = rows.len();
        let mut i: usize = 0;
        while i < n
            invariant
                i <= n,
                n == rows@.len(),
                forall|k: int| 0 <= k < i ==> (#[trigger] rows@[k])@.len() == rows@[0]@.len(),
            decreases n - i,
        {
            if rows[i].len() != rows[0].len() {
                return false;
            }
            i += 1;
        }
        true
    }

    /// The matrix made of the given rows, or a dimension mismatch where the
    /// rows differ in length.
    pub fn try_from_rows(rows: &[Vec<T>]) -> (out: Result<Self, Fault>)
        ensures
            match out {
                Ok(m) => same_lengths(rows@) && m@ == Grid::of_rows(lines_of(rows@)),
                Err(fault) => !same_lengths(rows@) && fault == Fault::DimensionMismatch,
            },
    {
        if Self::have_same_lengths(rows) {
            Ok(Self::from_rows(rows))
        } else {
            Err(Fault::DimensionMismatch)
        }
    }

    /// The entry in row `row`, column `col`, or a bounds fault where the
    /// matrix has no such entry.
    pub fn try_get(&self, row: usize, col: usize) -> (out: Result<T, Fault>)
        ensures
            match out {
                Ok(value) => self@.has(row as int, col as int) && value == self@.at(
                    row as int,
                    col as int,
                ),
                Err(fault) => !self@.has(row as int, col as int) && fault == Fault::OutOfBounds,
            },
    {
        if row < self.rows() && col < self.cols() {
            Ok(self.get(row, col))
        } else {
            Err(Fault::OutOfBounds)
        }
    }

    /// Row `index`, or a bounds fault where the matrix has no such row.
    pub fn try_row(&self, index: usize) -> (out: Result<&[T], Fault>)
        ensures
            match out {
                Ok(row) => index < self@.rows() && row@ == self@.lines[index as int],
                Err(fault) => index >= self@.rows() && fault == Fault::OutOfBounds,
            },
    {
        if index < self.rows() {
            Ok(self.row(index))
        } else {
            Err(Fault::OutOfBounds)
        }
    }

    /// Replaces row `index` by the given values. Where the matrix has no such
    /// row it stays as it is and the result is a bounds fault; where it has
    /// the row but not as many columns as there are values, it stays as it is
    /// and the result is a dimension mismatch.
    pub fn try_set_row(&mut self, index: usize, values: &[T]) -> (out: Result<(), Fault>)
        ensures
            final(self)@.cols == old(self)@.cols,
            match out {
                Ok(_) => {
                    &&& index < old(self)@.rows()
                    &&& values@.len() == old(self)@.cols
                    &&& final(self)@.lines == old(self)@.lines.update(index as int, values@)
                },
                Err(fault) => {
                    &&& final(self)@ == old(self)@
                    &&& index >= old(self)@.rows() ==> fault == Fault::OutOfBounds
                    &&& index < old(self)@.rows() ==> values@.len() != old(self)@.cols && fault
                        == Fault::DimensionMismatch
                },
            },
    {
        if index >= self.rows() {
            Err(Fault::OutOfBounds)
        } else if values.len() != self.cols() {
            Err(Fault::DimensionMismatch)
        } else {
            self.set_row(index, values);
            Ok(())
        }
    }

    /// The matrix without row `row` and column `col`, or a bounds fault where
    /// the matrix has no such entry.
    pub fn try_submatrix(&self, row: usize, col: usize) -> (out: Result<Self, Fault>)
        ensures
            match out {
                Ok(m) => self@.has(row as int, col as int) && m@ == self@.without(
                    row as int,
                    col as int,
                ),
                Err(fault) => !self@.has(row as int, col as int) && fault == Fault::OutOfBounds,
            },
    {
        if row < self.rows() && col < self.cols() {
            Ok(self.submatrix(row, col))
        } else {
            Err(Fault::OutOfBounds)
        }
    }

    /// Replaces the entry in row `row`, column `col`. Where the matrix has no
    /// such entry it stays as it is, and the result is a bounds fault.
    pub fn try_set(&mut self, row: usize, col: usize, value: T) -> (out: Result<(), Fault>)
        ensures
            match out {
                Ok(_) => old(self)@.has(row as int, col as int) && final(self)@ == old(
                    self,
                )@.updated(row as int, col as int, value),
                Err(fault) => !old(self)@.has(row as int, col as int) && final(self)@ == old(
                    self,
                )@ && fault == Fault::OutOfBounds,
            },
    {
        if row < self.rows() && col < self.cols() {
            self.set(row, col, value);
            Ok(())
        } else {
            Err(Fault::OutOfBounds)
        }
    }
}

impl<T: Scalar> Matrix<T> {
    /// The matrix of the given shape whose entries are all zero.
    pub fn new(rows: usize, cols: usize) -> (out: Self)
        ensures
            out@ == Grid::<T>::zeros(rows as nat, cols as nat),
            out@.rows() == rows,
            out@.cols == cols,
            forall|r: int, c: int| out@.has(r, c) ==> #[trigger] out@.at(r, c) == T::zero_value(),
    {
        Self::filled(rows, cols, T::zero())
    }

    /// The matrix of the given shape with ones on the diagonal and zeros
    /// elsewhere. The shape need not be square.
    pub fn identity(rows: usize, cols: usize) -> (out: Self)
        ensures
            out@ == Grid::<T>::identity(rows as nat, cols as nat),
            out@.rows() == rows,
            out@.cols == cols,
            forall|r: int, c: int|
                out@.has(r, c) ==> #[trigger] out@.at(r, c) == if r == c {
                    T::one_value()
                } else {
                    T::zero_value()
                },
    {
        let ghost g = Grid::<T>::identity(rows as nat, cols as nat);
        if rows == 0 || cols == 0 {
            let out = Self::without_entries(rows, cols);
            proof {
                out.lemma_view_wf();
                lemma_same_without_entries(out@, g);
            }
            return out;
        }
        let mut data: Vec<T> = Vec::new();
        let mut r: usize = 0;
        while r < rows
            invariant
                r <= rows,
                g == Grid::<T>::identity(rows as nat, cols as nat),
                data@.len() == r * cols,
                holds_prefix(data@, g),
            decreases rows - r,
        {
            let mut c: usize = 0;
            while c < cols
                invariant
                    r < rows,
                    c <= cols,
                    g == Grid::<T>::identity(rows as nat, cols as nat),
                    data@.len() == r * cols + c,
                    holds_prefix(data@, g),
                decreases cols - c,
            {
                let value = if r == c {
                    T::one()
                } else {
                    T::zero()
                };
                proof {
                    lemma_push_entry(data@, g, r as int, c as int, value);
                }
                data.push(value);
                c += 1;
            }
            proof {
                lemma_row_end(r as int, cols as int);
            }
            r += 1;
        }
        let out = Matrix { data, rows, cols };
        proof {
            out.lemma_view_is(g);
        }
        out
    }

    /// The matrix product of `self` and `other`, which must have as many rows
    /// as `self` has columns.
    ///
    /// The right-hand matrix is transposed once, so that both operands are read
    /// row by row.
    pub fn multiply(&self, other: &Matrix<T>) -> (out: Self)
        requires
            self@.cols == other@.rows(),
        ensures
            out@ == self@.times(other@),
            out@.rows() == self@.rows(),
            out@.cols == other@.cols,
            forall|i: int, j: int|
                out@.has(i, j) ==> #[trigger] out@.at(i, j) == dot(
                    self@.lines[i],
                    other@.column(j),
                ),
    {
        proof {
            use_type_invariant(self);
            use_type_invariant(other);
        }
        let ghost g = self@.times(other@);
        let rows: usize = self.rows;
        let cols: usize = other.cols;
        let shared: usize = self.cols;
        if rows == 0 || cols == 0 {
            let out = Self::without_entries(rows, cols);
            proof {
                out.lemma_view_wf();
                lemma_same_without_entries(out@, g);
            }
            return out;
        }
        let flipped = other.transpose();
        let mut data: Vec<T> = Vec::new();
        let mut i: usize = 0;
        while i < rows
            invariant
                i <= rows,
                rows == self@.rows(),
                cols == other@.cols,
                shared == self@.cols,
                shared == other@.rows(),
                flipped@ == other@.transposed(),
                g == self@.times(other@),
                data@.len() == i * cols,
                holds_prefix(data@, g),
            decreases rows - i,
        {
            let mut j: usize = 0;
            while j < cols
                invariant
                    i < rows,
                    j <= cols,
                    rows == self@.rows(),
                    cols == other@.cols,
                    shared == self@.cols,
                    shared == other@.rows(),
                    flipped@ == other@.transposed(),
                    g == self@.times(other@),
                    data@.len() == i * cols + j,
                    holds_prefix(data@, g),
                decreases cols - j,
            {
                let mut total = T::zero();
                let mut k: usize = 0;
                while k < shared
                    invariant
                        i < rows,
                        j < cols,
                        k <= shared,
                        rows == self@.rows(),
                        cols == other@.cols,
                        shared == self@.cols,
                        shared == other@.rows(),
                        flipped@ == other@.transposed(),
                        total == dot_upto(self@.lines[i as int], other@.column(j as int), k as nat),
                    decreases shared - k,
                {
                    total = total.plus(self.get(i, k).times(flipped.get(j, k)));
                    k += 1;
                }
                proof {
                    self.lemma_view_wf();
                    lemma_push_entry(data@, g, i as int, j as int, total);
                }
                data.push(total);
                j += 1;
            }
            proof {
                lemma_row_end(i as int, cols as int);
            }
            i += 1;
        }
        let out = Matrix { data, rows, cols };
        proof {
            out.lemma_view_is(g);
        }
        out
    }

    /// The dot product of row `row` with `v`.
    fn apply_row(&self, row: usize, v: &Tuple<T>) -> (r: T)
        requires
            row < self@.rows(),
            self@.cols == 4,
        ensures
            r == dot(self@.lines[row as int], v@),
    {
        proof {
            self.lemma_view_wf();
            reveal_with_fuel(dot_upto, 5);
        }
        T::zero().plus(self.get(row, 0).times(v.x)).plus(self.get(row, 1).times(v.y)).plus(
            self.get(row, 2).times(v.z),
        ).plus(self.get(row, 3).times(v.w))
    }

    /// The product of this matrix, which must be four by four, with `v` as a
    /// column: each component is the dot product of one row with `v`.
    pub fn multiply_vector(&self, v: &Tuple<T>) -> (out: Tuple<T>)
        requires
            self@.rows() == 4,
            self@.cols == 4,
        ensures
            out@ == self@.apply(v@),
            out.x == dot(self@.lines[0], v@),
            out.y == dot(self@.lines[1], v@),
            out.z == dot(self@.lines[2], v@),
            out.w == dot(self@.lines[3], v@),
    {
        let out = Tuple::new(
            self.apply_row(0, v),
            self.apply_row(1, v),
            self.apply_row(2, v),
            self.apply_row(3, v),
        );
        proof {
            assert(out@ =~= self@.apply(v@));
        }
        out
    }

    /// The determinant of a square matrix, by expansion along the first row.
    ///
    /// The work grows with the factorial of the size: this is meant for the
    /// small matrices of geometric transformations.
    pub fn determinant(&self) -> (r: T)
        requires
            self@.is_square(),
        ensures
            r == self@.determinant(),
        decreases self@.rows(),
    {
        let n: usize = self.rows();
        if n == 0 {
            T::one()
        } else if n == 1 {
            self.get(0, 0)
        } else if n == 2 {
            self.get(0, 0).times(self.get(1, 1)).minus(self.get(0, 1).times(self.get(1, 0)))
        } else {
            let mut total = T::zero();
            let mut col: usize = 0;
            while col < n
                invariant
                    col <= n,
                    n > 2,
                    n == self@.rows(),
                    self@.is_square(),
                    total == self@.expansion(col as nat),
                decreases n - col,
            {
                let rest = self.submatrix(0, col);
                let minor = rest.determinant();
                let cofactor = if col % 2 == 0 {
                    minor
                } else {
                    minor.negate()
                };
                total = total.plus(self.get(0, col).times(cofactor));
                col += 1;
            }
            total
        }
    }

    /// The determinant of what is left of a square matrix without row `row`
    /// and column `col`.
    pub fn minor(&self, row: usize, col: usize) -> (r: T)
        requires
            self@.is_square(),
            self@.has(row as int, col as int),
        ensures
            r == self@.minor(row as int, col as int),
    {
        self.submatrix(row, col).determinant()
    }

    /// The minor at `(row, col)`, negated where `row + col` is odd.
    pub fn cofactor(&self, row: usize, col: usize) -> (r: T)
        requires
            self@.is_square(),
            self@.has(row as int, col as int),
        ensures
            r == self@.cofactor(row as int, col as int),
            (row + col) % 2 == 0 ==> r == self@.minor(row as int, col as int),
            (row + col) % 2 == 1 ==> r == self@.minor(row as int, col as int).negation(),
    {
        let minor = self.minor(row, col);
        if row % 2 == col % 2 {
            minor
        } else {
            minor.negate()
        }
    }

    /// The matrix product, or a dimension mismatch where `other` has not as
    /// many rows as `self` has columns.
    pub fn try_multiply(&self, other: &Matrix<T>) -> (out: Result<Self, Fault>)
        ensures
            match out {
                Ok(m) => self@.cols == other@.rows() && m@ == self@.times(other@),
                Err(fault) => self@.cols != other@.rows() && fault == Fault::DimensionMismatch,
            },
    {
        if self.cols() == other.rows() {
            Ok(self.multiply(other))
        } else {
            Err(Fault::DimensionMismatch)
        }
    }

    /// The product with `v` as a column, or a dimension mismatch where the
    /// matrix is not four by four.
    pub fn try_multiply_vector(&self, v: &Tuple<T>) -> (out: Result<Tuple<T>, Fault>)
        ensures
            match out {
                Ok(t) => self@.rows() == 4 && self@.cols == 4 && t@ == self@.apply(v@),
                Err(fault) => !(self@.rows() == 4 && self@.cols == 4) && fault
                    == Fault::DimensionMismatch,
            },
    {
        if self.rows() == 4 && self.cols() == 4 {
            Ok(self.multiply_vector(v))
        } else {
            Err(Fault::DimensionMismatch)
        }
    }

    /// The minor at `(row, col)`: a dimension mismatch where the matrix is not
    /// square, and a bounds fault where it is square and has no such entry.
    pub fn try_minor(&self, row: usize, col: usize) -> (out: Result<T, Fault>)
        ensures
            match out {
                Ok(value) => {
                    &&& self@.is_square()
                    &&& self@.has(row as int, col as int)
                    &&& value == self@.minor(row as int, col as int)
                },
                Err(fault) => {
                    &&& !self@.is_square() ==> fault == Fault::DimensionMismatch
                    &&& self@.is_square() ==> !self@.has(row as int, col as int) && fault
                        == Fault::OutOfBounds
                },
            },
    {
        if self.rows() != self.cols() {
            Err(Fault::DimensionMismatch)
        } else if row < self.rows() && col < self.cols() {
            Ok(self.minor(row, col))
        } else {
            Err(Fault::OutOfBounds)
        }
    }

    /// The cofactor at `(row, col)`: a dimension mismatch where the matrix is
    /// not square, and a bounds fault where it is square and has no such
    /// entry.
    pub fn try_cofactor(&self, row: usize, col: usize) -> (out: Result<T, Fault>)
        ensures
            match out {
                Ok(value) => {
                    &&& self@.is_square()
                    &&& self@.has(row as int, col as int)
                    &&& value == self@.cofactor(row as int, col as int)
                },
                Err(fault) => {
                    &&& !self@.is_square() ==> fault == Fault::DimensionMismatch
                    &&& self@.is_square() ==> !self@.has(row as int, col as int) && fault
                        == Fault::OutOfBounds
                },
            },
    {
        if self.rows() != self.cols() {
            Err(Fault::DimensionMismatch)
        } else if row < self.rows() && col < self.cols() {
            Ok(self.cofactor(row, col))
        } else {
            Err(Fault::OutOfBounds)
        }
    }

    /// The determinant, or a dimension mismatch where the matrix is not
    /// square.
    pub fn try_determinant(&self) -> (out: Result<T, Fault>)
        ensures
            match out {
                Ok(d) => self@.is_square() && d == self@.determinant(),
                Err(fault) => !self@.is_square() && fault == Fault::DimensionMismatch,
            },
    {
        if self.rows() == self.cols() {
            Ok(self.determinant())
        } else {
            Err(Fault::DimensionMismatch)
        }
    }
}

impl<T: Copy> Clone for Matrix<T> {
    fn clone(&self) -> (out: Self)
        ensures
            out@ == self@,
    {
        proof {
            use_type_invariant(self);
        }
        let n: usize = self.data.len();
        let mut data: Vec<T> = Vec::with_capacity(n);
        let mut i: usize = 0;
        while i < n
            invariant
                i <= n,
                n == self.data@.len(),
                data@ == self.data@.subrange(0, i as int),
            decreases n - i,
        {
            data.push(self.data[i]);
            proof {
                assert(data@ =~= self.data@.subrange(0, i + 1));
            }
            i += 1;
        }
        proof {
            assert(data@ =~= self.data@);
        }
        Matrix { data, rows: self.rows, cols: self.cols }
    }
}

impl<T: Scalar> PartialEqSpecImpl for Matrix<T> {
    open spec fn obeys_eq_spec() -> bool {
        true
    }

    open spec fn eq_spec(&self, other: &Matrix<T>) -> bool {
        &&& self@.rows() == other@.rows()
        &&& self@.cols == other@.cols
        &&& same_items(self@.cells(), other@.cells())
    }
}

/// Two matrices are equal when they have the same shape and each entry
/// compares equal to the entry at the same place. The comparison is the
/// scalar's exact one: there is no tolerance.
impl<T: Scalar> PartialEq for Matrix<T> {
    fn eq(&self, other: &Matrix<T>) -> (r: bool) {
        proof {
            use_type_invariant(self);
            use_type_invariant(other);
            self.lemma_data_is_cells();
            other.lemma_data_is_cells();
        }
        if self.rows != other.rows || self.cols != other.cols {
            return false;
        }
        let n: usize = self.data.len();
        let mut i: usize = 0;
        while i < n
            invariant
                i <= n,
                n == self.data@.len(),
                n == other.data@.len(),
                self@.rows() == other@.rows(),
                self@.cols == other@.cols,
                self.data@ == self@.cells(),
                other.data@ == other@.cells(),
                forall|k: int| 0 <= k < i ==> (#[trigger] self.data@[k]).same(other.data@[k]),
            decreases n - i,
        {
            if !self.data[i].equals(other.data[i]) {
                return false;
            }
            i += 1;
        }
        true
    }
}

} // verus!
