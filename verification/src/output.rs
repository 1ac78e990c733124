//! The bar's two external collaborators: the terminal-width query and the
//! character sink (standard output).
//!
//! Every function here is trusted: each body makes one outside call and is
//! not read by the verifier. Nothing is promised of the width, which
//! depends on the environment; the sink operations return nothing, and a
//! failed write ends the process, the conventional fate of an interactive
//! bar whose terminal is gone.

use std::io::Write;
use vstd::prelude::*;

verus! {

/// Relies on terminal_size::terminal_size: the width in columns of the
/// first of stdout, stderr and stdin that is a terminal, or `None` when
/// none is attached to one.
#[verifier::external_body]
pub(crate) fn query_terminal_width() -> Option<u16> {
    match terminal_size::terminal_size() {
        Some((terminal_size::Width(w), _)) => Some(w),
        None => None,
    }
}

/// Relies on std::io::Stdout::flush: buffered bytes are delivered before
/// any later write.
#[verifier::external_body]
pub(crate) fn flush_stdout() {
    std::io::stdout().flush().unwrap();
}

/// Relies on std::io::Stdout, through the write macro: a carriage return
/// and then the given text, repainting the current line in place without
/// scrolling.
#[verifier::external_body]
pub(crate) fn print_over_line(s: &str) {
    write!(std::io::stdout(), "\r{}", s).unwrap();
}

/// Relies on std::io::Stdout, through the writeln macro: a single line
/// break, leaving the finished line behind.
#[verifier::external_body]
pub(crate) fn print_newline() {
    writeln!(std::io::stdout()).unwrap();
}

} // verus!
