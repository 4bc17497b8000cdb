//! What holds of the matrix operations, whatever the matrix.

use crate::grid::{dot, dot_upto, same_items, skip, Grid};
use crate::integer::{lemma_i64_has_identities, lemma_i64_has_minus_one};
use crate::matrix::Matrix;
use crate::scalar::{negated_by_minus_one, respects_identities, Scalar};
use vstd::arithmetic::div_mod::{
    lemma_fundamental_div_mod,
    lemma_fundamental_div_mod_converse,
    lemma_mod_pos_bound,
};
use vstd::prelude::*;
use vstd::std_specs::cmp::PartialEqSpec;

verus! {

/// Transposing exchanges the numbers of rows and columns and gives a
/// well-formed table.
pub proof fn lemma_transposed_shape<T>(g: Grid<T>)
    ensures
        g.transposed().wf(),
        g.transposed().rows() == g.cols,
        g.transposed().cols == g.rows(),
        forall|r: int, c: int| g.has(r, c) ==> #[trigger] g.transposed().at(c, r) == g.at(r, c),
{
}

/// Transposing twice gives the table back.
pub proof fn lemma_transpose_twice<T>(g: Grid<T>)
    requires
        g.wf(),
    ensures
        g.transposed().transposed() == g,
{
    let back = g.transposed().transposed();
    assert forall|r: int| 0 <= r < g.rows() implies #[trigger] back.lines[r] == g.lines[r] by {
        assert(back.lines[r] =~= g.lines[r]);
    }
    assert(back.lines =~= g.lines);
}

/// A product has the rows of its left factor and the columns of its right
/// factor.
pub proof fn lemma_times_shape<T: Scalar>(a: Grid<T>, b: Grid<T>)
    requires
        a.cols == b.rows(),
    ensures
        a.times(b).wf(),
        a.times(b).rows() == a.rows(),
        a.times(b).cols == b.cols,
{
}

/// The dot product with a sequence that is one at place `j` and zero
/// elsewhere picks the item at `j`.
proof fn lemma_dot_picks_right<T: Scalar>(a: Seq<T>, unit: Seq<T>, j: int, n: nat)
    requires
        respects_identities(T::zero_value()),
        forall|k: int| 0 <= k < n ==> respects_identities(#[trigger] a[k]),
        forall|k: int|
            0 <= k < n ==> #[trigger] unit[k] == if k == j {
                T::one_value()
            } else {
                T::zero_value()
            },
    ensures
        dot_upto(a, unit, n) == if 0 <= j < n {
            a[j]
        } else {
            T::zero_value()
        },
    decreases n,
{
    if n > 0 {
        lemma_dot_picks_right(a, unit, j, (n - 1) as nat);
        assert(respects_identities(a[n - 1]));
        assert(unit[n - 1] == if n - 1 == j {
            T::one_value()
        } else {
            T::zero_value()
        });
        if 0 <= j < n - 1 {
            assert(respects_identities(a[j]));
        }
    }
}

/// The dot product of a sequence that is one at place `i` and zero elsewhere
/// with `b` picks the item of `b` at `i`.
proof fn lemma_dot_picks_left<T: Scalar>(unit: Seq<T>, b: Seq<T>, i: int, n: nat)
    requires
        respects_identities(T::zero_value()),
        forall|k: int| 0 <= k < n ==> respects_identities(#[trigger] b[k]),
        forall|k: int|
            0 <= k < n ==> #[trigger] unit[k] == if k == i {
                T::one_value()
            } else {
                T::zero_value()
            },
    ensures
        dot_upto(unit, b, n) == if 0 <= i < n {
            b[i]
        } else {
            T::zero_value()
        },
    decreases n,
{
    if n > 0 {
        lemma_dot_picks_left(unit, b, i, (n - 1) as nat);
        assert(respects_identities(b[n - 1]));
        assert(unit[n - 1] == if n - 1 == i {
            T::one_value()
        } else {
            T::zero_value()
        });
        if 0 <= i < n - 1 {
            assert(respects_identities(b[i]));
        }
    }
}

/// Zero and one are identities towards zero and towards every entry of `g`.
pub open spec fn entries_respect_identities<T: Scalar>(g: Grid<T>) -> bool {
    &&& respects_identities(T::zero_value())
    &&& forall|r: int, c: int| g.has(r, c) ==> respects_identities(#[trigger] g.lines[r][c])
}

/// A table times the identity of its width is the table itself, where zero
/// and one are identities towards its entries.
pub proof fn lemma_times_identity<T: Scalar>(g: Grid<T>)
    requires
        g.wf(),
        entries_respect_identities(g),
    ensures
        g.times(Grid::identity(g.cols, g.cols)) == g,
{
    let id = Grid::<T>::identity(g.cols, g.cols);
    let p = g.times(id);
    assert forall|r: int| 0 <= r < g.rows() implies #[trigger] p.lines[r] == g.lines[r] by {
        assert forall|c: int| 0 <= c < g.cols implies p.lines[r][c] == g.lines[r][c] by {
            assert forall|k: int| 0 <= k < g.cols implies respects_identities(
                #[trigger] g.lines[r][k],
            ) by {
                assert(g.has(r, k));
            }
            lemma_dot_picks_right(g.lines[r], id.column(c), c, g.cols);
        }
        assert(p.lines[r] =~= g.lines[r]);
    }
    assert(p.lines =~= g.lines);
}

/// The identity of a table's height times the table is the table itself,
/// where zero and one are identities towards its entries.
pub proof fn lemma_identity_times<T: Scalar>(g: Grid<T>)
    requires
        g.wf(),
        entries_respect_identities(g),
    ensures
        Grid::identity(g.rows(), g.rows()).times(g) == g,
{
    let id = Grid::<T>::identity(g.rows(), g.rows());
    let p = id.times(g);
    assert forall|r: int| 0 <= r < g.rows() implies #[trigger] p.lines[r] == g.lines[r] by {
        assert forall|c: int| 0 <= c < g.cols implies p.lines[r][c] == g.lines[r][c] by {
            assert forall|k: int| 0 <= k < g.rows() implies respects_identities(
                #[trigger] g.column(c)[k],
            ) by {
                assert(g.has(k, c));
                assert(g.column(c)[k] == g.lines[k][c]);
            }
            lemma_dot_picks_left(id.lines[r], g.column(c), r, g.rows());
        }
        assert(p.lines[r] =~= g.lines[r]);
    }
    assert(p.lines =~= g.lines);
}

/// Taking out one row and one column leaves one row and one column less, and
/// the entries that are left keep their order: entry `(r, c)` of the result is
/// the entry of the whole table at the `r`-th row and `c`-th column that were
/// kept.
pub proof fn lemma_without_shape<T>(g: Grid<T>, row: int, col: int)
    requires
        g.wf(),
        g.has(row, col),
    ensures
        g.without(row, col).wf(),
        g.without(row, col).rows() == g.rows() - 1,
        g.without(row, col).cols == g.cols - 1,
        forall|r: int, c: int|
            g.without(row, col).has(r, c) ==> #[trigger] g.without(row, col).at(r, c) == g.at(
                skip(r, row),
                skip(c, col),
            ),
        forall|r: int, c: int|
            #[trigger] g.without(row, col).has(r, c) ==> g.has(skip(r, row), skip(c, col))
                && skip(r, row) != row && skip(c, col) != col,
{
}

/// Taking out row `row` and column `col` is removing line `row` and, from
/// each line that is left, the item at `col`.
pub proof fn lemma_without_removes<T>(g: Grid<T>, row: int, col: int)
    requires
        g.wf(),
        g.has(row, col),
    ensures
        g.without(row, col).lines == g.lines.remove(row).map_values(
            |line: Seq<T>| line.remove(col),
        ),
{
    let left = g.without(row, col).lines;
    let right = g.lines.remove(row).map_values(|line: Seq<T>| line.remove(col));
    assert forall|r: int| 0 <= r < left.len() implies #[trigger] left[r] == right[r] by {
        assert(g.lines.remove(row)[r] == g.lines[skip(r, row)]);
        assert(left[r] =~= g.lines[skip(r, row)].remove(col));
    }
    assert(left =~= right);
}

/// The cofactor is the minor where the row and column numbers add up to an
/// even number, and its negation where they add up to an odd one.
pub proof fn lemma_cofactor_sign<T: Scalar>(g: Grid<T>, row: int, col: int)
    ensures
        (row + col) % 2 == 0 ==> g.cofactor(row, col) == g.minor(row, col),
        (row + col) % 2 != 0 ==> g.cofactor(row, col) == g.minor(row, col).negation(),
{
}

/// Minus one to the power `k`.
pub open spec fn alternating_unit<T: Scalar>(k: int) -> T {
    if k % 2 == 0 {
        T::one_value()
    } else {
        T::one_value().negation()
    }
}

/// The cofactor is the minor times minus one to the power `row + col`, where
/// multiplying the minor by one changes nothing and multiplying it by minus
/// one negates it.
pub proof fn lemma_cofactor_is_signed_minor<T: Scalar>(g: Grid<T>, row: int, col: int)
    requires
        respects_identities(g.minor(row, col)),
        negated_by_minus_one(g.minor(row, col)),
    ensures
        g.cofactor(row, col) == g.minor(row, col).product(alternating_unit::<T>(row + col)),
{
}

/// The determinant of the empty table is one, that of a single entry is the
/// entry, and that of a two by two table is `a * d - b * c`.
pub proof fn lemma_determinant_small<T: Scalar>(g: Grid<T>)
    ensures
        g.rows() == 0 ==> g.determinant() == T::one_value(),
        g.rows() == 1 ==> g.determinant() == g.at(0, 0),
        g.rows() == 2 ==> g.determinant() == g.at(0, 0).product(g.at(1, 1)).difference(
            g.at(0, 1).product(g.at(1, 0)),
        ),
{
}

/// The determinant of a table of more than two rows is the expansion along
/// the first row: the sum over the columns, from left to right and starting
/// from zero, of the first row's entry times its cofactor.
pub proof fn lemma_determinant_expands<T: Scalar>(g: Grid<T>)
    requires
        g.rows() > 2,
    ensures
        g.determinant() == g.expansion(g.rows()),
        g.expansion(0) == T::zero_value(),
        forall|k: nat|
            0 < k <= g.rows() ==> #[trigger] g.expansion(k) == g.expansion((k - 1) as nat).sum(
                g.at(0, k - 1).product(g.cofactor(0, k - 1)),
            ),
{
}

/// The determinant of a three by three table, written out: the three entries
/// of the first row, each times its cofactor, added to zero from left to
/// right.
pub proof fn lemma_determinant_of_three<T: Scalar>(g: Grid<T>)
    requires
        g.rows() == 3,
    ensures
        g.determinant() == T::zero_value().sum(g.at(0, 0).product(g.cofactor(0, 0))).sum(
            g.at(0, 1).product(g.cofactor(0, 1)),
        ).sum(g.at(0, 2).product(g.cofactor(0, 2))),
{
    lemma_determinant_expands(g);
    assert(g.expansion(1) == g.expansion(0).sum(g.at(0, 0).product(g.cofactor(0, 0))));
    assert(g.expansion(2) == g.expansion(1).sum(g.at(0, 1).product(g.cofactor(0, 1))));
    assert(g.expansion(3) == g.expansion(2).sum(g.at(0, 2).product(g.cofactor(0, 2))));
}

/// The determinant of a four by four table, written out in the same way.
pub proof fn lemma_determinant_of_four<T: Scalar>(g: Grid<T>)
    requires
        g.rows() == 4,
    ensures
        g.determinant() == T::zero_value().sum(g.at(0, 0).product(g.cofactor(0, 0))).sum(
            g.at(0, 1).product(g.cofactor(0, 1)),
        ).sum(g.at(0, 2).product(g.cofactor(0, 2))).sum(g.at(0, 3).product(g.cofactor(0, 3))),
{
    lemma_determinant_expands(g);
    assert(g.expansion(1) == g.expansion(0).sum(g.at(0, 0).product(g.cofactor(0, 0))));
    assert(g.expansion(2) == g.expansion(1).sum(g.at(0, 1).product(g.cofactor(0, 1))));
    assert(g.expansion(3) == g.expansion(2).sum(g.at(0, 2).product(g.cofactor(0, 2))));
    assert(g.expansion(4) == g.expansion(3).sum(g.at(0, 3).product(g.cofactor(0, 3))));
}

/// The dot product of two sequences of four items, written out.
pub proof fn lemma_dot_of_four<T: Scalar>(a: Seq<T>, b: Seq<T>)
    requires
        a.len() == 4,
    ensures
        dot(a, b) == T::zero_value().sum(a[0].product(b[0])).sum(a[1].product(b[1])).sum(
            a[2].product(b[2]),
        ).sum(a[3].product(b[3])),
{
    reveal_with_fuel(dot_upto, 5);
}

/// Tables of one shape have equal listings exactly when each entry compares
/// equal to the entry at the same place.
pub proof fn lemma_equality_by_entries<T: Scalar>(a: Grid<T>, b: Grid<T>)
    requires
        a.wf(),
        b.wf(),
        a.rows() == b.rows(),
        a.cols == b.cols,
    ensures
        same_items(a.cells(), b.cells()) <==> forall|r: int, c: int|
            a.has(r, c) ==> (#[trigger] a.at(r, c)).same(b.at(r, c)),
{
    let rows = a.rows() as int;
    let cols = a.cols as int;
    if same_items(a.cells(), b.cells()) {
        assert forall|r: int, c: int| a.has(r, c) implies (#[trigger] a.at(r, c)).same(
            b.at(r, c),
        ) by {
            let i = r * cols + c;
            lemma_fundamental_div_mod_converse(i, cols, r, c);
            assert(0 <= i < rows * cols) by (nonlinear_arith)
                requires
                    0 <= r < rows,
                    0 <= c < cols,
                    i == r * cols + c,
            ;
            assert(a.cells()[i].same(b.cells()[i]));
        }
    }
    if forall|r: int, c: int| a.has(r, c) ==> (#[trigger] a.at(r, c)).same(b.at(r, c)) {
        assert forall|i: int| 0 <= i < a.cells().len() implies (#[trigger] a.cells()[i]).same(
            b.cells()[i],
        ) by {
            assert(cols > 0) by (nonlinear_arith)
                requires
                    0 <= i < rows * cols,
                    cols >= 0,
            ;
            lemma_fundamental_div_mod(i, cols);
            lemma_mod_pos_bound(i, cols);
            let r = i / cols;
            let c = i % cols;
            assert(0 <= r < rows) by (nonlinear_arith)
                requires
                    0 <= i < rows * cols,
                    i == cols * r + c,
                    0 <= c < cols,
            ;
            assert(a.has(r, c));
            assert(a.at(r, c).same(b.at(r, c)));
        }
    }
}

/// Two matrices are equal exactly when they have the same shape and each
/// entry of the one compares equal to the entry of the other at the same
/// place.
pub proof fn lemma_matrix_equality<T: Scalar>(a: Matrix<T>, b: Matrix<T>)
    ensures
        a.eq_spec(&b) <==> {
            &&& a@.rows() == b@.rows()
            &&& a@.cols == b@.cols
            &&& forall|r: int, c: int| a@.has(r, c) ==> (#[trigger] a@.at(r, c)).same(b@.at(r, c))
        },
{
    a.lemma_view_wf();
    b.lemma_view_wf();
    if a@.rows() == b@.rows() && a@.cols == b@.cols {
        lemma_equality_by_entries(a@, b@);
    }
}

/// A table of wrapping 64-bit integers times the identity of its width is the
/// table itself.
pub proof fn lemma_integer_times_identity(g: Grid<i64>)
    requires
        g.wf(),
    ensures
        g.times(Grid::identity(g.cols, g.cols)) == g,
        Grid::identity(g.rows(), g.rows()).times(g) == g,
{
    lemma_i64_has_identities();
    lemma_times_identity(g);
    lemma_identity_times(g);
}

/// Among wrapping 64-bit integers the cofactor is the minor times minus one
/// to the power `row + col`.
pub proof fn lemma_integer_cofactor_is_signed_minor(g: Grid<i64>, row: int, col: int)
    ensures
        g.cofactor(row, col) == g.minor(row, col).product(alternating_unit::<i64>(row + col)),
{
    lemma_i64_has_identities();
    lemma_i64_has_minus_one();
    lemma_cofactor_is_signed_minor(g, row, col);
}

} // verus!
