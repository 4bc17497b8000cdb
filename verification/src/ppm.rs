//! The plain-text image format.
//!
//! An image is written as a header, then the samples of each row of pixels as
//! decimal numbers separated by single spaces, in lines of at most
//! [`LINE_LIMIT`] characters, then one empty line.

use vstd::prelude::*;
use vstd::string::StringExecFns;

verus! {

/// The longest line of samples, in characters, without its line break.
pub const LINE_LIMIT: usize = 70;

/// The character of a decimal digit.
pub open spec fn digit(d: nat) -> char {
    if d == 0 {
        '0'
    } else if d == 1 {
        '1'
    } else if d == 2 {
        '2'
    } else if d == 3 {
        '3'
    } else if d == 4 {
        '4'
    } else if d == 5 {
        '5'
    } else if d == 6 {
        '6'
    } else if d == 7 {
        '7'
    } else if d == 8 {
        '8'
    } else {
        '9'
    }
}

/// The decimal notation of `n`, without leading zeros.
pub open spec fn decimal(n: nat) -> Seq<char>
    decreases n,
{
    if n < 10 {
        seq![digit(n)]
    } else {
        decimal(n / 10).push(digit(n % 10))
    }
}

/// The header of an image of the given size whose samples go up to 255.
pub open spec fn header(width: nat, height: nat) -> Seq<char> {
    seq!['P', '3', '\n'] + decimal(width) + seq![' '] + decimal(height) + seq![
        '\n',
        '2',
        '5',
        '5',
        '\n',
    ]
}

/// The lines that hold the samples `values[i..]`, where `line` is what the
/// line being written holds so far.
///
/// A sample goes on the line being written if the line, a space and the
/// sample have room within the limit; if not, that line ends and the sample
/// starts the next one. After the last sample the line ends, unless it is
/// empty.
pub open spec fn wrap_from(values: Seq<u8>, i: int, line: Seq<char>) -> Seq<char>
    decreases values.len() - i,
{
    if i < 0 || i >= values.len() {
        if line.len() == 0 {
            Seq::empty()
        } else {
            line.push('\n')
        }
    } else {
        let word = decimal(values[i] as nat);
        let gap: nat = if line.len() == 0 {
            0
        } else {
            1
        };
        if line.len() + gap + word.len() > LINE_LIMIT {
            line.push('\n') + wrap_from(values, i + 1, word)
        } else if line.len() == 0 {
            wrap_from(values, i + 1, word)
        } else {
            wrap_from(values, i + 1, line.push(' ') + word)
        }
    }
}

/// The lines that hold one row of samples.
pub open spec fn row_text(values: Seq<u8>) -> Seq<char> {
    wrap_from(values, 0, Seq::empty())
}

/// The lines that hold the rows of samples `rows[y..]`, each row starting a
/// new line.
pub open spec fn body_from(rows: Seq<Seq<u8>>, y: int) -> Seq<char>
    decreases rows.len() - y,
{
    if y < 0 || y >= rows.len() {
        Seq::empty()
    } else {
        row_text(rows[y]) + body_from(rows, y + 1)
    }
}

/// The whole image: the header, the rows of samples and an empty line.
pub open spec fn text(width: nat, height: nat, rows: Seq<Seq<u8>>) -> Seq<char> {
    header(width, height) + body_from(rows, 0) + seq!['\n']
}

/// The decimal notation of a byte has one to three digits.
pub proof fn lemma_decimal_of_byte(v: u8)
    ensures
        decimal(v as nat).len() == if v < 10 {
            1nat
        } else if v < 100 {
            2nat
        } else {
            3nat
        },
{
    reveal_with_fuel(decimal, 3);
}

/// Appends one decimal digit.
fn push_digit(out: &mut String, d: u32)
    requires
        d < 10,
    ensures
        final(out)@ == old(out)@.push(digit(d as nat)),
{
    proof {
        reveal_strlit("0");
        reveal_strlit("1");
        reveal_strlit("2");
        reveal_strlit("3");
        reveal_strlit("4");
        reveal_strlit("5");
        reveal_strlit("6");
        reveal_strlit("7");
        reveal_strlit("8");
        reveal_strlit("9");
    }
    let ghost before = out@;
    if d == 0 {
        out.append("0");
    } else if d == 1 {
        out.append("1");
    } else if d == 2 {
        out.append("2");
    } else if d == 3 {
        out.append("3");
    } else if d == 4 {
        out.append("4");
    } else if d == 5 {
        out.append("5");
    } else if d == 6 {
        out.append("6");
    } else if d == 7 {
        out.append("7");
    } else if d == 8 {
        out.append("8");
    } else {
        out.append("9");
    }
    proof {
        assert(out@ =~= before.push(digit(d as nat)));
    }
}

/// Appends the decimal notation of `n`.
pub fn push_decimal(out: &mut String, n: u32)
    ensures
        final(out)@ == old(out)@ + decimal(n as nat),
    decreases n,
{
    let ghost before = out@;
    if n < 10 {
        push_digit(out, n);
        proof {
            assert(out@ =~= before + decimal(n as nat));
        }
    } else {
        push_decimal(out, n / 10);
        push_digit(out, n % 10);
        proof {
            assert(out@ =~= before + decimal(n as nat));
        }
    }
}

/// Appends the header of an image of the given size.
pub fn push_header(out: &mut String, width: u32, height: u32)
    ensures
        final(out)@ == old(out)@ + header(width as nat, height as nat),
{
    proof {
        reveal_strlit("P3\n");
        reveal_strlit(" ");
        reveal_strlit("\n255\n");
    }
    let ghost before = out@;
    out.append("P3\n");
    push_decimal(out, width);
    out.append(" ");
    push_decimal(out, height);
    out.append("\n255\n");
    proof {
        assert(out@ =~= before + header(width as nat, height as nat));
    }
}

/// Appends the lines that hold one row of samples.
pub fn push_row(out: &mut String, values: &[u8])
    ensures
        final(out)@ == old(out)@ + row_text(values@),
{
    proof {
        reveal_strlit(" ");
        reveal_strlit("\n");
    }
    let ghost before = out@;
    // What `out` holds is `done` and then `line`, the line being written.
    let ghost mut done: Seq<char> = out@;
    let ghost mut line: Seq<char> = Seq::empty();
    let mut line_len: usize = 0;
    let n: usize = values.len();
    let mut i: usize = 0;
    proof {
        assert(out@ =~= done + line);
        assert(before + row_text(values@) =~= done + wrap_from(values@, 0, line));
    }
    while i < n
        invariant
            i <= n,
            n == values@.len(),
            line_len == line.len(),
            line_len <= LINE_LIMIT,
            out@ == done + line,
            before + row_text(values@) == done + wrap_from(values@, i as int, line),
        decreases n - i,
    {
        let value: u8 = values[i];
        let ghost word = decimal(value as nat);
        proof {
            reveal_strlit(" ");
            reveal_strlit("\n");
            lemma_decimal_of_byte(value);
        }
        let word_len: usize = if value < 10 {
            1
        } else if value < 100 {
            2
        } else {
            3
        };
        let gap: usize = if line_len == 0 {
            0
        } else {
            1
        };
        let ghost target = done + wrap_from(values@, i as int, line);
        if line_len + gap + word_len > LINE_LIMIT {
            out.append("\n");
            proof {
                assert(target =~= (done + line.push('\n')) + wrap_from(
                    values@,
                    i + 1,
                    word,
                ));
                assert(out@ =~= done + line.push('\n'));
                done = done + line.push('\n');
                line = Seq::empty();
            }
            line_len = 0;
        }
        if line_len != 0 {
            out.append(" ");
            proof {
                assert(out@ =~= done + line.push(' '));
                line = line.push(' ');
            }
            line_len += 1;
        }
        push_decimal(out, value as u32);
        proof {
            assert(out@ =~= done + (line + word));
            line = line + word;
        }
        line_len += word_len;
        i += 1;
    }
    if line_len != 0 {
        out.append("\n");
    }
    proof {
        assert(out@ =~= done + wrap_from(values@, n as int, line));
    }
}

} // verus!
