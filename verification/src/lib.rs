//! A plain-text progress bar for interactive terminals.
//!
//! A [`Bar`](bar::Bar) holds a job title and a signed percentage and repaints a
//! single terminal line in place on every update. The line layout adapts to
//! the terminal width; percentages past 100 wrap, inverting the fill symbols
//! once per completed lap.

pub mod bar;
pub mod laws;
pub mod layout;
mod output;
pub mod render;
