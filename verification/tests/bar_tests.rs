use progress::bar::Bar;
use progress::layout::effective_width;

fn line(title_field: &str, cells: &str, label: &str) -> String {
    let mut s = String::new();
    s.push_str(&format!("{:<50}", title_field));
    s.push('[');
    s.push_str(cells);
    s.push(']');
    s.push_str(label);
    s
}

#[test]
fn fallback_width_is_81() {
    assert_eq!(effective_width(None), 81);
    assert_eq!(effective_width(Some(120)), 120);
    // 81 columns leave 24 cells for the bar: 50 title + 5 padding + 2 caps.
    let bar = Bar::new();
    let rendered = bar.render_line(effective_width(None));
    assert_eq!(rendered, line("", &"-".repeat(24), "   0%"));
    assert_eq!(rendered.chars().count(), 81);
}

#[test]
fn working_title_at_fifty() {
    let mut bar = Bar::new();
    bar.set_job_title("Working...");
    bar.reach_percent(50);
    let cells = format!("{}{}", "=".repeat(12), "-".repeat(12));
    assert_eq!(bar.render_line(81), line("Working...", &cells, "  50%"));
}

#[test]
fn wrapped_at_120_swaps_symbols() {
    let mut bar = Bar::new();
    bar.reach_percent(120);
    // One lap done: wrapped percentage 20, and the symbols trade places,
    // so the fill run is drawn with '-' over 24 * 20 / 100 = 4 cells.
    let cells = format!("{}{}", "-".repeat(4), "=".repeat(20));
    assert_eq!(bar.render_line(81), line("", &cells, " 120%"));
}

#[test]
fn label_shows_raw_value() {
    let mut bar = Bar::new();
    bar.reach_percent(250);
    assert!(bar.render_line(81).ends_with(" 250%"));
    bar.reach_percent(-7);
    assert!(bar.render_line(81).ends_with("  -7%"));
    bar.reach_percent(12345);
    assert!(bar.render_line(81).ends_with("12345%"));
}

#[test]
fn add_twice_equals_reach_sum() {
    let mut by_steps = Bar::new();
    by_steps.add_percent(30);
    by_steps.add_percent(25);
    let mut at_once = Bar::new();
    at_once.reach_percent(55);
    assert_eq!(by_steps.render_line(81), at_once.render_line(81));
}

#[test]
fn jobs_done_resets_to_baseline() {
    let mut used = Bar::new();
    used.set_job_title("copying");
    used.reach_percent(80);
    used.jobs_done();
    assert_eq!(used.render_line(81), Bar::new().render_line(81));
    used.reach_percent(10);
    let mut fresh = Bar::new();
    fresh.reach_percent(10);
    assert_eq!(used.render_line(81), fresh.render_line(81));
}

#[test]
fn first_lap_uses_default_fill() {
    let mut bar = Bar::new();
    bar.reach_percent(40);
    // 24 * 40 / 100 rounds down to 9 filled cells.
    let cells = format!("{}{}", "=".repeat(9), "-".repeat(15));
    assert_eq!(bar.render_line(81), line("", &cells, "  40%"));
}

#[test]
fn second_lap_swaps_symbols() {
    let mut bar = Bar::new();
    bar.reach_percent(150);
    let cells = format!("{}{}", "-".repeat(12), "=".repeat(12));
    assert_eq!(bar.render_line(81), line("", &cells, " 150%"));
}

#[test]
fn negative_percentage_wraps_by_floor() {
    let mut bar = Bar::new();
    bar.reach_percent(-50);
    // Floor division: -50 is one lap behind (overhead -1, an odd lap),
    // wrapped to 50, so the symbols are swapped and half the bar fills.
    let cells = format!("{}{}", "-".repeat(12), "=".repeat(12));
    assert_eq!(bar.render_line(81), line("", &cells, " -50%"));
}

#[test]
fn narrow_terminal_renders_no_cells() {
    let bar = Bar::new();
    assert_eq!(bar.render_line(10), line("", "", "   0%"));
    assert_eq!(bar.render_line(57), line("", "", "   0%"));
    assert_eq!(bar.render_line(0), line("", "", "   0%"));
    // One column past the fixed fields gives exactly one cell.
    assert_eq!(bar.render_line(58), line("", "-", "   0%"));
}

#[test]
fn extreme_percentages_render() {
    let mut bar = Bar::new();
    bar.reach_percent(i32::MAX);
    assert!(bar.render_line(81).ends_with("2147483647%"));
    bar.reach_percent(i32::MIN);
    let rendered = bar.render_line(81);
    assert!(rendered.ends_with("-2147483648%"));
    // Wrapped percentage of i32::MIN is 52; an odd lap swaps the symbols.
    let cells = format!("{}{}", "-".repeat(12), "=".repeat(12));
    assert!(rendered.contains(&format!("[{}]", cells)));
}

#[test]
fn overlong_title_is_not_truncated() {
    let mut bar = Bar::new();
    let long = "x".repeat(60);
    bar.set_job_title(&long);
    let rendered = bar.render_line(81);
    assert!(rendered.starts_with(&long));
    // The field overflows instead of eliding: the line grows past 81.
    assert_eq!(rendered.chars().count(), 91);
}

#[test]
fn title_is_replaced_wholesale() {
    let mut bar = Bar::new();
    bar.set_job_title("first");
    bar.set_job_title("second");
    assert_eq!(bar.render_line(81), line("second", &"-".repeat(24), "   0%"));
}
