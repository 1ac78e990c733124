//! Geometry of the rendered line.
//!
//! A percentage is split by floor division into completed 100-point laps
//! (the *overhead*) and a wrapped remainder in `[0, 100)` that drives the
//! bar fill. Floor division keeps the wrap direction uniform for negative
//! percentages as well. The printed numeric label always shows the raw,
//! unwrapped percentage.

use vstd::arithmetic::div_mod::{
    lemma_div_is_ordered, lemma_fundamental_div_mod, lemma_fundamental_div_mod_converse,
    lemma_mod_division_less_than_divisor, lemma_multiply_divide_lt,
};
use vstd::arithmetic::mul::{lemma_mul_strict_inequality, lemma_mul_upper_bound};
use vstd::prelude::*;

verus! {

/// Terminal width assumed when no width can be discovered.
pub const FALLBACK_WIDTH: u16 = 81;

/// Width in columns that the layout takes from an optional measured width.
pub open spec fn effective_width_of(w: Option<u16>) -> int {
    match w {
        Some(c) => c as int,
        None => FALLBACK_WIDTH as int,
    }
}

/// Completed 100-point laps of a percentage, by floor division.
pub open spec fn overhead_of(p: int) -> int {
    p / 100
}

/// The wrapped percentage in `[0, 100)` that sizes the bar fill.
pub open spec fn left_percent_of(p: int) -> int {
    p % 100
}

/// On every odd lap the fill and gap symbols trade places, so a bar past
/// 100% visibly refills with the other symbol.
pub open spec fn symbols_swapped(p: int) -> bool {
    overhead_of(p) % 2 == 1
}

/// Cells available to the fill run: the terminal width minus the
/// 50-column title field, 5 columns of padding, and the two caps.
pub open spec fn bar_len_of(width: int) -> int {
    width - 57
}

/// Cells drawn with the fill symbol: the wrapped percentage's share of
/// the bar, rounded down; none when the terminal is too narrow for cells.
pub open spec fn filled_len_of(width: int, p: int) -> int {
    if bar_len_of(width) <= 0 {
        0
    } else {
        bar_len_of(width) * left_percent_of(p) / 100
    }
}

/// Cells drawn with the gap symbol: whatever the fill leaves of the bar.
pub open spec fn empty_len_of(width: int, p: int) -> int {
    if bar_len_of(width) <= 0 {
        0
    } else {
        bar_len_of(width) - filled_len_of(width, p)
    }
}

/// Width the layout uses: the measured width when one is available,
/// otherwise the fallback.
pub fn effective_width(w: Option<u16>) -> (r: u16)
    ensures
        r as int == effective_width_of(w),
{
    match w {
        Some(c) => c,
        None => FALLBACK_WIDTH,
    }
}

/// Splits a percentage into completed laps and the wrapped remainder,
/// by floor division.
pub fn split_percent(p: i32) -> (r: (i32, i32))
    ensures
        r.0 == overhead_of(p as int),
        r.1 == left_percent_of(p as int),
{
    if p >= 0 {
        let q: u32 = (p as u32) / 100;
        let m: u32 = (p as u32) % 100;
        proof {
            lemma_fundamental_div_mod(p as int, 100);
            lemma_mod_division_less_than_divisor(p as int, 100);
        }
        (q as i32, m as i32)
    } else {
        let n: u64 = (-(p as i64)) as u64;
        let q: u64 = n / 100;
        let m: u64 = n % 100;
        proof {
            lemma_fundamental_div_mod(n as int, 100);
            lemma_mod_division_less_than_divisor(n as int, 100);
            lemma_div_is_ordered(n as int, 0x8000_0000, 100);
        }
        if m == 0 {
            proof {
                lemma_fundamental_div_mod_converse(p as int, 100, -(q as int), 0);
            }
            ((-(q as i64)) as i32, 0)
        } else {
            proof {
                lemma_fundamental_div_mod_converse(p as int, 100, -(q as int) - 1, 100 - m as int);
            }
            ((-(q as i64) - 1) as i32, (100 - m) as i32)
        }
    }
}

/// Whether a lap count is odd, so the symbols must be swapped.
pub fn lap_is_odd(o: i32) -> (r: bool)
    ensures
        r == (o as int % 2 == 1),
{
    if o >= 0 {
        let m: u32 = (o as u32) % 2;
        proof {
            lemma_fundamental_div_mod(o as int, 2);
            lemma_mod_division_less_than_divisor(o as int, 2);
        }
        m == 1
    } else {
        let n: u64 = (-(o as i64)) as u64;
        let m: u64 = n % 2;
        proof {
            lemma_fundamental_div_mod(n as int, 2);
            lemma_mod_division_less_than_divisor(n as int, 2);
            if m == 0 {
                lemma_fundamental_div_mod_converse(o as int, 2, -(n as int / 2), 0);
            } else {
                lemma_fundamental_div_mod_converse(o as int, 2, -(n as int / 2) - 1, 1);
            }
        }
        m == 1
    }
}

/// Cells filled for a given bar length and wrapped percentage.
pub fn filled_cells(bar_len: i32, left_percent: i32) -> (r: i32)
    requires
        bar_len <= 0xffff,
        0 <= left_percent < 100,
    ensures
        r == filled_len_of(bar_len + 57, left_percent as int),
        0 <= r,
        r <= bar_len || bar_len <= 0,
{
    if bar_len <= 0 {
        0
    } else {
        proof {
            lemma_mul_upper_bound(bar_len as int, 0xffff, left_percent as int, 99);
        }
        let prod: u32 = (bar_len as u32) * (left_percent as u32);
        let cells: u32 = prod / 100;
        proof {
            lemma_mul_strict_inequality(left_percent as int, 100, bar_len as int);
            lemma_multiply_divide_lt(prod as int, 100, bar_len as int);
        }
        cells as i32
    }
}

} // verus!
