use localforge::models::fit::FitLevel;
use localforge::tui::theme::{dim, normal, warn};
use localforge::tui::themes::{Color, StyleSpec};
use localforge::tui::views::{
    checked_count, filter_log_lines, fit_color, fit_detail_style, last_lines, log_line_style,
    scroll_window,
};

fn strs(v: &[&str]) -> Vec<String> {
    v.iter().map(|s| s.to_string()).collect()
}

#[test]
fn log_levels_are_coloured() {
    assert_eq!(
        log_line_style("2024 ERROR boom"),
        StyleSpec { fg: Some(Color::Rgb(255, 100, 100)), bg: None, bold: true }
    );
    assert_eq!(log_line_style("WARN low disk"), warn());
    assert_eq!(log_line_style("info: ready").fg, Some(Color::Rgb(100, 200, 255)));
    assert_eq!(log_line_style("DEBUG x"), dim());
    assert_eq!(log_line_style("plain"), normal());
}

#[test]
fn filter_is_case_insensitive() {
    let lines = strs(&["INFO start", "debug tick", "Error: failed", "info again"]);
    assert_eq!(filter_log_lines(&lines, "INFO"), strs(&["INFO start", "info again"]));
    assert_eq!(filter_log_lines(&lines, "error"), strs(&["Error: failed"]));
    assert_eq!(filter_log_lines(&lines, ""), lines);
}

#[test]
fn scrolling_stops_at_the_end() {
    assert_eq!(scroll_window(100, 10, 5), (5, 90));
    assert_eq!(scroll_window(100, 10, 500), (90, 90));
    assert_eq!(scroll_window(3, 10, 2), (0, 0));
}

#[test]
fn tail_of_build_log() {
    let lines: Vec<String> = (0..25).map(|i| format!("l{}", i)).collect();
    let tail = last_lines(&lines, 20);
    assert_eq!(tail.len(), 20);
    assert_eq!(tail[0], "l5");
    assert_eq!(last_lines(&lines[..3], 20), strs(&["l0", "l1", "l2"]));
}

#[test]
fn fit_colours_and_counts() {
    assert_eq!(checked_count(&[true, false, true]), 2);
    assert_eq!(checked_count(&[]), 0);
    assert_eq!(fit_color(FitLevel::Good), Color::Rgb(100, 200, 255));
    assert!(fit_detail_style(FitLevel::TooTight).bold);
    assert!(!fit_detail_style(FitLevel::Marginal).bold);
}
