//! Laws of the bar, stated over the same spec functions its contracts use.

use crate::bar::{
    after_add, cleared, fill_symbol_of, gap_symbol_of, render_spec, with_percent, with_title,
    BarView,
};
use crate::layout::{bar_len_of, effective_width_of, empty_len_of, filled_len_of, overhead_of,
    symbols_swapped};
use crate::render::{int_str, pad_left, pad_right, repeat_sym};
use vstd::arithmetic::div_mod::{lemma_basic_div, lemma_fundamental_div_mod_converse};
use vstd::prelude::*;

verus! {

/// On the first lap — every percentage in `[0, 100)` — no lap is complete
/// and the fill run is drawn with the bar's own fill symbol, the rest
/// with its empty symbol.
pub proof fn lemma_first_lap_symbols(b: BarView)
    requires
        0 <= b.percentage < 100,
    ensures
        overhead_of(b.percentage) == 0,
        !symbols_swapped(b.percentage),
        fill_symbol_of(b) == b.filled_symbol,
        gap_symbol_of(b) == b.empty_symbol,
{
    lemma_basic_div(b.percentage, 100);
}

/// On the second lap — every percentage in `[100, 200)` — exactly one lap
/// is complete and the two symbols trade places relative to the first lap.
pub proof fn lemma_second_lap_symbols(b: BarView)
    requires
        100 <= b.percentage < 200,
    ensures
        overhead_of(b.percentage) == 1,
        symbols_swapped(b.percentage),
        fill_symbol_of(b) == b.empty_symbol,
        gap_symbol_of(b) == b.filled_symbol,
{
    lemma_fundamental_div_mod_converse(b.percentage, 100, 1, b.percentage - 100);
}

/// The rendered line always ends with the raw percentage — the unwrapped
/// value, however the bar fill wrapped — right-aligned in four columns and
/// followed by a percent sign.
pub proof fn lemma_label_shows_raw_percentage(b: BarView, width: int)
    ensures
        ({
            let line = render_spec(b, width);
            let label = pad_left(int_str(b.percentage), 4) + seq!['%'];
            line.len() >= label.len() && line.subrange(
                line.len() - label.len(),
                line.len() as int,
            ) == label
        }),
{
    let line = render_spec(b, width);
    let label = pad_left(int_str(b.percentage), 4) + seq!['%'];
    let prefix = pad_right(b.title, 50) + b.left_cap + repeat_sym(
        fill_symbol_of(b),
        filled_len_of(width, b.percentage),
    ) + repeat_sym(gap_symbol_of(b), empty_len_of(width, b.percentage)) + b.right_cap;
    assert(line =~= prefix + label);
    assert(line.subrange(line.len() - label.len(), line.len() as int) =~= label);
}

/// Two additions from a zeroed bar land exactly where one absolute set of
/// the summed percentage does.
pub proof fn lemma_add_add_is_reach(b: BarView, d1: int, d2: int)
    requires
        b.percentage == 0,
    ensures
        after_add(after_add(b, d1), d2) == with_percent(b, d1 + d2),
{
}

/// With no terminal width available the fallback of 81 columns leaves
/// exactly 24 cells for the bar.
pub proof fn lemma_fallback_bar_len(w: Option<u16>)
    requires
        w is None,
    ensures
        bar_len_of(effective_width_of(w)) == 24,
{
}

/// Finishing a job erases all history: any two bars that share their
/// decorations are indistinguishable after it, so the next title or
/// percentage renders from the same cleared baseline.
pub proof fn lemma_jobs_done_clears_baseline(b1: BarView, b2: BarView, t: Seq<char>, p: int)
    requires
        b1.left_cap == b2.left_cap,
        b1.right_cap == b2.right_cap,
        b1.filled_symbol == b2.filled_symbol,
        b1.empty_symbol == b2.empty_symbol,
    ensures
        cleared(b1) == cleared(b2),
        with_title(cleared(b1), t) == with_title(cleared(b2), t),
        with_percent(cleared(b1), p) == with_percent(cleared(b2), p),
{
}

} // verus!
