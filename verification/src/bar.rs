//! The progress bar itself: its state, its mutators, and the verified
//! rendering of the line they repaint.
//!
//! Every mutator except [`Bar::jobs_done`] repaints: it asks the terminal
//! for its width (falling back to 81 columns), renders the line with
//! [`Bar::render_line`], and overwrites the current terminal line with it.
//! The rendered text is pinned down exactly by [`render_spec`].

use crate::layout::{
    effective_width, empty_len_of, filled_cells, filled_len_of, lap_is_odd, split_percent,
    symbols_swapped,
};
use crate::output::{flush_stdout, print_newline, print_over_line, query_terminal_width};
use crate::render::{
    append_int, append_repeat, append_spaces, int_str, pad_left, pad_right, repeat_sym, spaces,
};
use vstd::prelude::*;
use vstd::string::*;

verus! {

/// A single-line textual progress bar.
///
/// The percentage is a plain signed counter: nothing clamps it, and values
/// past 100 (or below 0) wrap visually, trading the fill and gap symbols
/// once per completed 100-point lap.
pub struct Bar {
    job_title: String,
    progress_percentage: i32,
    left_cap: String,
    right_cap: String,
    filled_symbol: String,
    empty_symbol: String,
}

/// The mathematical content of a [`Bar`]: its title and percentage, and
/// the four decoration strings, as plain sequences and an integer.
pub struct BarView {
    pub title: Seq<char>,
    pub percentage: int,
    pub left_cap: Seq<char>,
    pub right_cap: Seq<char>,
    pub filled_symbol: Seq<char>,
    pub empty_symbol: Seq<char>,
}

impl View for Bar {
    type V = BarView;

    closed spec fn view(&self) -> BarView {
        BarView {
            title: self.job_title@,
            percentage: self.progress_percentage as int,
            left_cap: self.left_cap@,
            right_cap: self.right_cap@,
            filled_symbol: self.filled_symbol@,
            empty_symbol: self.empty_symbol@,
        }
    }
}

/// The bar after its title is replaced wholesale.
pub open spec fn with_title(b: BarView, t: Seq<char>) -> BarView {
    BarView { title: t, ..b }
}

/// The bar after its percentage is set absolutely.
pub open spec fn with_percent(b: BarView, p: int) -> BarView {
    BarView { percentage: p, ..b }
}

/// The bar after a percentage delta is added.
pub open spec fn after_add(b: BarView, d: int) -> BarView {
    BarView { percentage: b.percentage + d, ..b }
}

/// The bar after a job is finished: empty title, percentage zero, the
/// decorations untouched.
pub open spec fn cleared(b: BarView) -> BarView {
    BarView { title: Seq::empty(), percentage: 0, ..b }
}

/// The symbol the fill run is drawn with: the bar's fill symbol on even
/// laps, its empty symbol on odd ones.
pub open spec fn fill_symbol_of(b: BarView) -> Seq<char> {
    if symbols_swapped(b.percentage) {
        b.empty_symbol
    } else {
        b.filled_symbol
    }
}

/// The symbol the rest of the bar is drawn with: the counterpart of
/// [`fill_symbol_of`].
pub open spec fn gap_symbol_of(b: BarView) -> Seq<char> {
    if symbols_swapped(b.percentage) {
        b.filled_symbol
    } else {
        b.empty_symbol
    }
}

/// The full rendered line for a bar at a given terminal width: the title
/// left-aligned in 50 columns, the left cap, the fill and gap runs, the
/// right cap, and the raw percentage right-aligned in 4 columns with a
/// percent sign.
pub open spec fn render_spec(b: BarView, width: int) -> Seq<char> {
    pad_right(b.title, 50) + b.left_cap + repeat_sym(
        fill_symbol_of(b),
        filled_len_of(width, b.percentage),
    ) + repeat_sym(gap_symbol_of(b), empty_len_of(width, b.percentage)) + b.right_cap + pad_left(
        int_str(b.percentage),
        4,
    ) + seq!['%']
}

impl Bar {
    /// A fresh bar: empty title, zero percentage, and the default
    /// decorations `[`, `]`, `=` and `-`. Writes nothing.
    pub fn new() -> (r: Bar)
        ensures
            r@.title == Seq::<char>::empty(),
            r@.percentage == 0,
            r@.left_cap == "["@,
            r@.right_cap == "]"@,
            r@.filled_symbol == "="@,
            r@.empty_symbol == "-"@,
    {
        Bar {
            job_title: String::new(),
            progress_percentage: 0,
            left_cap: "[".to_owned(),
            right_cap: "]".to_owned(),
            filled_symbol: "=".to_owned(),
            empty_symbol: "-".to_owned(),
        }
    }

    /// Replaces the title wholesale and repaints the line.
    pub fn set_job_title(&mut self, new_title: &str)
        ensures
            final(self)@ == with_title(old(self)@, new_title@),
    {
        self.job_title = new_title.to_owned();
        self.show_progress();
    }

    /// Sets the percentage absolutely and repaints the line.
    pub fn reach_percent(&mut self, percent: i32)
        ensures
            final(self)@ == with_percent(old(self)@, percent as int),
    {
        self.progress_percentage = percent;
        self.show_progress();
    }

    /// Adds to the percentage and repaints the line.
    pub fn add_percent(&mut self, progress: i32)
        requires
            i32::MIN <= old(self)@.percentage + progress <= i32::MAX,
        ensures
            final(self)@ == after_add(old(self)@, progress as int),
    {
        self.progress_percentage = self.progress_percentage + progress;
        self.show_progress();
    }

    /// Ends the current job: clears the title, resets the percentage to
    /// zero, and writes a line break. Does not repaint the bar.
    pub fn jobs_done(&mut self)
        ensures
            final(self)@ == cleared(old(self)@),
    {
        self.job_title = String::new();
        self.progress_percentage = 0;
        print_newline();
    }

    /// Repaints the line: queries the terminal width, renders, and
    /// overwrites the current line.
    fn show_progress(&self) {
        let width = effective_width(query_terminal_width());
        let line = self.render_line(width);
        flush_stdout();
        print_over_line(line.as_str());
    }

    /// Renders the line this bar paints at the given terminal width.
    pub fn render_line(&self, width: u16) -> (r: String)
        ensures
            r@ == render_spec(self@, width as int),
    {
        let mut line = String::new();

        // Title, left-aligned in 50 columns (overlong titles keep their
        // full text and overflow the field).
        line.append(self.job_title.as_str());
        let title_len = self.job_title.as_str().unicode_len();
        if title_len < 50 {
            append_spaces(&mut line, 50 - title_len);
        }
        proof {
            assert(line@ =~= pad_right(self@.title, 50));
        }

        // Caps and the fill and gap runs.
        line.append(self.left_cap.as_str());
        let (overhead, left_percent) = split_percent(self.progress_percentage);
        let swapped = lap_is_odd(overhead);
        let bar_len: i32 = width as i32 - 57;
        let filled = filled_cells(bar_len, left_percent);
        let empty: i32 = if bar_len <= 0 {
            0
        } else {
            bar_len - filled
        };
        let fill_sym: &String = if swapped {
            &self.empty_symbol
        } else {
            &self.filled_symbol
        };
        let gap_sym: &String = if swapped {
            &self.filled_symbol
        } else {
            &self.empty_symbol
        };
        append_repeat(&mut line, fill_sym.as_str(), filled as usize);
        append_repeat(&mut line, gap_sym.as_str(), empty as usize);
        line.append(self.right_cap.as_str());

        // The raw percentage, right-aligned in 4 columns, then '%'.
        let mut label = String::new();
        append_int(&mut label, self.progress_percentage);
        let label_len = label.as_str().unicode_len();
        if label_len < 4 {
            append_spaces(&mut line, 4 - label_len);
        }
        line.append(label.as_str());
        line.append("%");

        proof {
            reveal_strlit("%");
            assert(line@ =~= render_spec(self@, width as int));
        }
        line
    }
}

} // verus!
