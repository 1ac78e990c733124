//! Text of the rendered line.
//!
//! Spec functions describe each piece of the line as a sequence of
//! characters — padded fields, repeated symbols, the decimal percentage
//! label — and executable builders produce exactly those sequences.

use vstd::prelude::*;
use vstd::string::*;

verus! {

/// `n` space characters (none for `n <= 0`).
pub open spec fn spaces(n: int) -> Seq<char>
    decreases n,
{
    if n <= 0 {
        Seq::empty()
    } else {
        spaces(n - 1).push(' ')
    }
}

/// A symbol repeated `n` times (not at all for `n <= 0`).
pub open spec fn repeat_sym(s: Seq<char>, n: int) -> Seq<char>
    decreases n,
{
    if n <= 0 {
        Seq::empty()
    } else {
        repeat_sym(s, n - 1) + s
    }
}

/// `s` left-aligned in a field of `w` columns: padded with trailing
/// spaces when shorter, left as it stands when longer.
pub open spec fn pad_right(s: Seq<char>, w: int) -> Seq<char> {
    s + spaces(w - s.len())
}

/// `s` right-aligned in a field of `w` columns: padded with leading
/// spaces when shorter, left as it stands when longer.
pub open spec fn pad_left(s: Seq<char>, w: int) -> Seq<char> {
    spaces(w - s.len()) + s
}

/// The decimal digit character for a value in `[0, 10)`.
pub open spec fn digit_char(d: int) -> char {
    if d == 0 {
        '0'
    } else if d == 1 {
        '1'
    } else if d == 2 {
        '2'
    } else if d == 3 {
        '3'
    } else if d == 4 {
        '4'
    } else if d == 5 {
        '5'
    } else if d == 6 {
        '6'
    } else if d == 7 {
        '7'
    } else if d == 8 {
        '8'
    } else {
        '9'
    }
}

/// The decimal digits of a non-negative integer, most significant first.
pub open spec fn dec_digits(n: int) -> Seq<char>
    decreases n,
{
    if n < 10 {
        seq![digit_char(n)]
    } else {
        dec_digits(n / 10).push(digit_char(n % 10))
    }
}

/// The decimal rendering of an integer, with a leading minus sign when
/// negative.
pub open spec fn int_str(p: int) -> Seq<char> {
    if p < 0 {
        seq!['-'] + dec_digits(-p)
    } else {
        dec_digits(p)
    }
}

/// The single-character string for a digit value.
fn digit_str(d: u64) -> (r: &'static str)
    requires
        d < 10,
    ensures
        r@ == seq![digit_char(d as int)],
{
    proof {
        reveal_strlit("0");
        reveal_strlit("1");
        reveal_strlit("2");
        reveal_strlit("3");
        reveal_strlit("4");
        reveal_strlit("5");
        reveal_strlit("6");
        reveal_strlit("7");
        reveal_strlit("8");
        reveal_strlit("9");
    }
    let r: &'static str = match d {
        0 => "0",
        1 => "1",
        2 => "2",
        3 => "3",
        4 => "4",
        5 => "5",
        6 => "6",
        7 => "7",
        8 => "8",
        _ => "9",
    };
    proof {
        assert(r@ =~= seq![digit_char(d as int)]);
    }
    r
}

/// Appends the decimal digits of `n`, most significant first.
pub fn append_digits(out: &mut String, n: u64)
    ensures
        final(out)@ == old(out)@ + dec_digits(n as int),
    decreases n,
{
    if n < 10 {
        out.append(digit_str(n));
    } else {
        append_digits(out, n / 10);
        out.append(digit_str(n % 10));
        proof {
            assert(out@ =~= old(out)@ + dec_digits(n as int));
        }
    }
}

/// Appends the decimal rendering of `p`, sign included.
pub fn append_int(out: &mut String, p: i32)
    ensures
        final(out)@ == old(out)@ + int_str(p as int),
{
    if p >= 0 {
        append_digits(out, p as u64);
    } else {
        proof {
            reveal_strlit("-");
        }
        out.append("-");
        proof {
            assert(out@ =~= old(out)@ + seq!['-']);
        }
        let n: u64 = (-(p as i64)) as u64;
        append_digits(out, n);
        proof {
            assert(out@ =~= old(out)@ + int_str(p as int));
        }
    }
}

/// Appends `count` spaces.
pub fn append_spaces(out: &mut String, count: usize)
    ensures
        final(out)@ == old(out)@ + spaces(count as int),
{
    proof {
        assert(out@ =~= old(out)@ + spaces(0));
    }
    let mut i: usize = 0;
    while i < count
        invariant
            i <= count,
            out@ == old(out)@ + spaces(i as int),
        decreases count - i,
    {
        out.append(" ");
        i = i + 1;
        proof {
            reveal_strlit(" ");
            assert(out@ =~= old(out)@ + spaces(i as int));
        }
    }
}

/// Appends a symbol `count` times.
pub fn append_repeat(out: &mut String, sym: &str, count: usize)
    ensures
        final(out)@ == old(out)@ + repeat_sym(sym@, count as int),
{
    proof {
        assert(out@ =~= old(out)@ + repeat_sym(sym@, 0));
    }
    let mut i: usize = 0;
    while i < count
        invariant
            i <= count,
            out@ == old(out)@ + repeat_sym(sym@, i as int),
        decreases count - i,
    {
        out.append(sym);
        i = i + 1;
        proof {
            assert(out@ =~= old(out)@ + repeat_sym(sym@, i as int));
        }
    }
}

} // verus!
