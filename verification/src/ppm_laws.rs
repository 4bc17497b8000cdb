//! What holds of every image written as text.

use crate::ppm::{body_from, decimal, header, row_text, text, wrap_from, LINE_LIMIT};
use vstd::prelude::*;

verus! {

/// The characters of `text` from `i` up to `j` hold no line break.
pub open spec fn is_stretch(text: Seq<char>, i: int, j: int) -> bool {
    0 <= i <= j <= text.len() && forall|k: int| i <= k < j ==> text[k] != '\n'
}

/// No line of `text` is longer than `limit`: every stretch without a line
/// break has at most `limit` characters.
pub open spec fn lines_within(text: Seq<char>, limit: int) -> bool {
    forall|i: int, j: int| #[trigger] is_stretch(text, i, j) ==> j - i <= limit
}

/// `text` is empty or ends with a line break.
pub open spec fn ends_lines(text: Seq<char>) -> bool {
    text.len() == 0 || text.last() == '\n'
}

/// `text` holds no line break.
pub open spec fn is_one_line(text: Seq<char>) -> bool {
    forall|k: int| 0 <= k < text.len() ==> text[k] != '\n'
}

/// A decimal notation holds digits only, so it is no longer than one line, and
/// has at least one digit.
pub proof fn lemma_decimal_is_one_line(n: nat)
    ensures
        is_one_line(decimal(n)),
        decimal(n).len() >= 1,
    decreases n,
{
    if n >= 10 {
        lemma_decimal_is_one_line(n / 10);
    }
}

/// A number below ten thousand million has at most ten digits.
pub proof fn lemma_decimal_of_word(n: nat)
    requires
        n <= u32::MAX,
    ensures
        decimal(n).len() <= 10,
{
    reveal_with_fuel(decimal, 11);
}

/// A line within the limit, with its line break, is text within the limit.
proof fn lemma_line_within(line: Seq<char>, limit: int)
    requires
        is_one_line(line),
        line.len() <= limit,
    ensures
        lines_within(line.push('\n'), limit),
        ends_lines(line.push('\n')),
{
    let text = line.push('\n');
    assert forall|i: int, j: int| #[trigger] is_stretch(text, i, j) implies j - i <= limit by {
        if j > line.len() && i <= line.len() {
            assert(text[line.len() as int] == '\n');
        }
    }
}

/// Text within the limit that ends its last line, followed by text within the
/// limit, is text within the limit.
proof fn lemma_join_within(first: Seq<char>, second: Seq<char>, limit: int)
    requires
        lines_within(first, limit),
        lines_within(second, limit),
        ends_lines(first),
    ensures
        lines_within(first + second, limit),
        ends_lines(second) ==> ends_lines(first + second),
{
    let whole = first + second;
    let n = first.len() as int;
    assert forall|i: int, j: int| #[trigger] is_stretch(whole, i, j) implies j - i <= limit by {
        if j <= n {
            assert forall|k: int| i <= k < j implies first[k] != '\n' by {
                assert(whole[k] == first[k]);
            }
            assert(is_stretch(first, i, j));
        } else if i >= n {
            assert forall|k: int| i - n <= k < j - n implies second[k] != '\n' by {
                assert(whole[k + n] == second[k]);
            }
            assert(is_stretch(second, i - n, j - n));
        } else {
            assert(whole[n - 1] == first[n - 1]);
            assert(first[n - 1] == first.last());
        }
    }
    if ends_lines(second) {
        if second.len() > 0 {
            assert(whole.last() == second.last());
        } else {
            assert(whole =~= first);
        }
    }
}

/// The lines of the samples from `i` on, together with the line being
/// written, stay within the limit and end with a line break.
pub proof fn lemma_wrap_within(values: Seq<u8>, i: int, line: Seq<char>)
    requires
        0 <= i,
        is_one_line(line),
        line.len() <= LINE_LIMIT,
    ensures
        lines_within(wrap_from(values, i, line), LINE_LIMIT as int),
        ends_lines(wrap_from(values, i, line)),
    decreases values.len() - i,
{
    let limit = LINE_LIMIT as int;
    if i >= values.len() {
        if line.len() == 0 {
            assert forall|a: int, b: int| #[trigger]
                is_stretch(Seq::<char>::empty(), a, b) implies b - a <= limit by {}
        } else {
            lemma_line_within(line, limit);
        }
    } else {
        let word = decimal(values[i] as nat);
        lemma_decimal_is_one_line(values[i] as nat);
        crate::ppm::lemma_decimal_of_byte(values[i]);
        let gap: nat = if line.len() == 0 {
            0
        } else {
            1
        };
        if line.len() + gap + word.len() > LINE_LIMIT {
            lemma_line_within(line, limit);
            lemma_wrap_within(values, i + 1, word);
            lemma_join_within(line.push('\n'), wrap_from(values, i + 1, word), limit);
        } else if line.len() == 0 {
            lemma_wrap_within(values, i + 1, word);
        } else {
            let longer = line.push(' ') + word;
            assert(is_one_line(longer));
            lemma_wrap_within(values, i + 1, longer);
        }
    }
}

/// The lines of the rows from `y` on stay within the limit and end with a
/// line break.
pub proof fn lemma_body_within(rows: Seq<Seq<u8>>, y: int)
    requires
        0 <= y,
    ensures
        lines_within(body_from(rows, y), LINE_LIMIT as int),
        ends_lines(body_from(rows, y)),
    decreases rows.len() - y,
{
    let limit = LINE_LIMIT as int;
    if y >= rows.len() {
        assert forall|a: int, b: int| #[trigger]
            is_stretch(Seq::<char>::empty(), a, b) implies b - a <= limit by {}
    } else {
        lemma_wrap_within(rows[y], 0, Seq::empty());
        lemma_body_within(rows, y + 1);
        lemma_join_within(row_text(rows[y]), body_from(rows, y + 1), limit);
    }
}

/// The three lines of the header stay within the limit.
pub proof fn lemma_header_within(width: u32, height: u32)
    ensures
        lines_within(header(width as nat, height as nat), LINE_LIMIT as int),
        ends_lines(header(width as nat, height as nat)),
{
    let limit = LINE_LIMIT as int;
    let size = decimal(width as nat) + seq![' '] + decimal(height as nat);
    lemma_decimal_is_one_line(width as nat);
    lemma_decimal_is_one_line(height as nat);
    lemma_decimal_of_word(width as nat);
    lemma_decimal_of_word(height as nat);
    assert(is_one_line(size));
    lemma_line_within(seq!['P', '3'], limit);
    lemma_line_within(size, limit);
    lemma_line_within(seq!['2', '5', '5'], limit);
    lemma_join_within(seq!['P', '3'].push('\n'), size.push('\n'), limit);
    lemma_join_within(
        seq!['P', '3'].push('\n') + size.push('\n'),
        seq!['2', '5', '5'].push('\n'),
        limit,
    );
    assert(header(width as nat, height as nat) =~= seq!['P', '3'].push('\n') + size.push('\n')
        + seq!['2', '5', '5'].push('\n'));
}

/// No line of an image written as text is longer than the limit, and the text
/// ends with a line break.
pub proof fn lemma_text_within(width: u32, height: u32, rows: Seq<Seq<u8>>)
    ensures
        lines_within(text(width as nat, height as nat, rows), LINE_LIMIT as int),
        ends_lines(text(width as nat, height as nat, rows)),
{
    let limit = LINE_LIMIT as int;
    lemma_header_within(width, height);
    lemma_body_within(rows, 0);
    lemma_line_within(Seq::empty(), limit);
    assert(Seq::<char>::empty().push('\n') =~= seq!['\n']);
    lemma_join_within(header(width as nat, height as nat), body_from(rows, 0), limit);
    lemma_join_within(
        header(width as nat, height as nat) + body_from(rows, 0),
        seq!['\n'],
        limit,
    );
}

} // verus!
