//! What the screens show, apart from drawing: which log lines pass the
//! filter and how each is coloured, which part of a long list is visible,
//! and how fit levels are coloured.

use crate::models::fit::FitLevel;
use crate::text::{chars_of, contains_seq, lowercase, str_contains, strings_view, to_lowercase};
use crate::tui::theme::{dim, dim_spec, normal, normal_spec, warn, warn_spec};
use crate::tui::themes::{Color, StyleSpec};
use vstd::prelude::*;

verus! {

/// Accent-coloured text.
pub open spec fn accent_spec() -> StyleSpec {
    StyleSpec { fg: Some(Color::Rgb(100, 200, 255)), bg: None, bold: false }
}

/// Bold red text.
pub open spec fn error_spec() -> StyleSpec {
    StyleSpec { fg: Some(Color::Rgb(255, 100, 100)), bg: None, bold: true }
}

/// The colour of a log line by the level it mentions: errors red, warnings
/// amber, info in the accent colour, debug grey, anything else white.
pub open spec fn spec_log_line_style(line: Seq<char>) -> StyleSpec {
    if contains_seq(line, "ERROR"@) || contains_seq(line, "error"@) {
        error_spec()
    } else if contains_seq(line, "WARN"@) || contains_seq(line, "warn"@) {
        warn_spec()
    } else if contains_seq(line, "INFO"@) || contains_seq(line, "info"@) {
        accent_spec()
    } else if contains_seq(line, "DEBUG"@) || contains_seq(line, "debug"@) {
        dim_spec()
    } else {
        normal_spec()
    }
}

pub fn log_line_style(line: &str) -> (r: StyleSpec)
    ensures
        r == spec_log_line_style(line@),
{
    if str_contains(line, "ERROR") || str_contains(line, "error") {
        StyleSpec { fg: Some(Color::Rgb(255, 100, 100)), bg: None, bold: true }
    } else if str_contains(line, "WARN") || str_contains(line, "warn") {
        warn()
    } else if str_contains(line, "INFO") || str_contains(line, "info") {
        StyleSpec { fg: Some(Color::Rgb(100, 200, 255)), bg: None, bold: false }
    } else if str_contains(line, "DEBUG") || str_contains(line, "debug") {
        dim()
    } else {
        normal()
    }
}

/// The log lines that pass a filter, in order: all of them for an empty
/// filter, otherwise those whose lower-case form contains the filter's.
pub open spec fn spec_filter_logs(lines: Seq<Seq<char>>, filter: Seq<char>) -> Seq<Seq<char>>
    decreases lines.len(),
{
    if lines.len() == 0 {
        lines
    } else {
        let rest = spec_filter_logs(lines.drop_last(), filter);
        if filter.len() == 0 || contains_seq(lowercase(lines.last()), lowercase(filter)) {
            rest.push(lines.last())
        } else {
            rest
        }
    }
}

pub fn filter_log_lines(lines: &[String], filter: &str) -> (r: Vec<String>)
    ensures
        strings_view(r@) == spec_filter_logs(strings_view(lines@), filter@),
{
    let ghost lv = strings_view(lines@);
    let needle = to_lowercase(filter);
    let filter_chars = chars_of(filter);
    let mut out: Vec<String> = Vec::new();
    let mut i: usize = 0;
    while i < lines.len()
        invariant
            lv == strings_view(lines@),
            needle@ == lowercase(filter@),
            filter_chars@ == filter@,
            i <= lines@.len(),
            strings_view(out@) == spec_filter_logs(lv.take(i as int), filter@),
        decreases lines.len() - i,
    {
        assert(lv.take(i + 1).drop_last() =~= lv.take(i as int));
        assert(lv.take(i + 1).last() == lines@[i as int]@);
        let keep = if filter_chars.len() == 0 {
            true
        } else {
            let lower = to_lowercase(lines[i].as_str());
            str_contains(lower.as_str(), needle.as_str())
        };
        if keep {
            let ghost before = strings_view(out@);
            out.push(lines[i].clone());
            assert(strings_view(out@) =~= before.push(lines@[i as int]@));
        }
        i = i + 1;
    }
    assert(lv.take(lines.len() as int) =~= lv);
    out
}

/// The furthest a list of `total` lines can scroll in a window of
/// `visible` lines.
pub open spec fn max_scroll(total: usize, visible: usize) -> int {
    if total > visible { total - visible } else { 0 }
}

/// The scroll position actually used, and the furthest one possible: the
/// requested position, but never past the end of the list.
pub fn scroll_window(total: usize, visible: usize, requested: usize) -> (r: (usize, usize))
    ensures
        r.1 == max_scroll(total, visible),
        r.0 == if requested < r.1 { requested } else { r.1 },
{
    let max = total.saturating_sub(visible);
    let offset = if requested < max { requested } else { max };
    (offset, max)
}

/// At most the last `n` lines, in order.
pub fn last_lines(lines: &[String], n: usize) -> (r: Vec<String>)
    ensures
        strings_view(r@) == if lines@.len() > n {
            strings_view(lines@).skip(lines@.len() - n)
        } else {
            strings_view(lines@)
        },
{
    let start: usize = if lines.len() > n { lines.len() - n } else { 0 };
    let ghost lv = strings_view(lines@);
    let mut out: Vec<String> = Vec::new();
    let mut i: usize = start;
    while i < lines.len()
        invariant
            lv == strings_view(lines@),
            start <= i <= lines@.len(),
            strings_view(out@) == lv.subrange(start as int, i as int),
        decreases lines.len() - i,
    {
        let ghost before = strings_view(out@);
        out.push(lines[i].clone());
        assert(strings_view(out@) =~= before.push(lines@[i as int]@));
        assert(lv.subrange(start as int, i + 1) =~= lv.subrange(start as int, i as int).push(
            lv[i as int],
        ));
        i = i + 1;
    }
    assert(lv.subrange(start as int, lines.len() as int) =~= if lines@.len() > n {
        lv.skip(lines@.len() - n)
    } else {
        lv
    });
    out
}

/// How many models are ticked.
pub open spec fn count_true(s: Seq<bool>) -> nat
    decreases s.len(),
{
    if s.len() == 0 {
        0
    } else {
        count_true(s.drop_last()) + if s.last() { 1nat } else { 0nat }
    }
}

pub fn checked_count(checked: &[bool]) -> (r: usize)
    ensures
        r == count_true(checked@),
{
    let mut n: usize = 0;
    let mut i: usize = 0;
    while i < checked.len()
        invariant
            i <= checked@.len(),
            n == count_true(checked@.take(i as int)),
            n <= i,
        decreases checked.len() - i,
    {
        assert(checked@.take(i + 1).drop_last() =~= checked@.take(i as int));
        if checked[i] {
            n = n + 1;
        }
        i = i + 1;
    }
    assert(checked@.take(checked.len() as int) =~= checked@);
    n
}

/// The colour a fit level is shown in: green, accent, amber or red.
pub open spec fn spec_fit_color(f: FitLevel) -> Color {
    match f {
        FitLevel::Perfect => Color::Rgb(100, 255, 150),
        FitLevel::Good => Color::Rgb(100, 200, 255),
        FitLevel::Marginal => Color::Rgb(255, 200, 80),
        FitLevel::TooTight => Color::Rgb(255, 100, 100),
    }
}

pub fn fit_color(f: FitLevel) -> (r: Color)
    ensures
        r == spec_fit_color(f),
{
    match f {
        FitLevel::Perfect => Color::Rgb(100, 255, 150),
        FitLevel::Good => Color::Rgb(100, 200, 255),
        FitLevel::Marginal => Color::Rgb(255, 200, 80),
        FitLevel::TooTight => Color::Rgb(255, 100, 100),
    }
}

/// The style of a fit level in the detail pane: bold green, accent, amber,
/// or bold red.
pub fn fit_detail_style(f: FitLevel) -> (r: StyleSpec)
    ensures
        r.fg == Some(spec_fit_color(f)),
        r.bg is None,
        r.bold == (f == FitLevel::Perfect || f == FitLevel::TooTight),
{
    match f {
        FitLevel::Perfect => StyleSpec { fg: Some(Color::Rgb(100, 255, 150)), bg: None, bold: true },
        FitLevel::Good => StyleSpec { fg: Some(Color::Rgb(100, 200, 255)), bg: None, bold: false },
        FitLevel::Marginal => warn(),
        FitLevel::TooTight => StyleSpec { fg: Some(Color::Rgb(255, 100, 100)), bg: None, bold: true },
    }
}

} // verus!
