//! The panel that lists every key.

use crate::text::{chars_of, pad_right, padded_right, string_of};
use crate::ui::{
    blank_line, one, push_blank, push_line, push_one, span, styled, Panel, PanelSpec, Span,
    SpanSpec,
};
use crate::ui::theme::{
    border_style, border_style_spec, colored, detail_value_fg, fg, group_fg, help_fg, plain,
    plain_style, search_fg,
};
use vstd::prelude::*;

verus! {

/// The column at which the right half of the panel begins.
pub open spec fn right_column() -> int {
    24
}

/// So many blanks.
pub open spec fn blanks(n: int) -> Seq<char> {
    pad_right(Seq::empty(), n)
}

/// The blanks that bring a left half of `taken` characters up to the right
/// column.
pub open spec fn gap(taken: int) -> Seq<char> {
    blanks(if taken > right_column() { 0 } else { right_column() - taken })
}

/// A line of two headers, one for each half.
pub open spec fn two_headers_spec(left: Seq<char>, right: Seq<char>) -> Seq<SpanSpec> {
    seq![
        styled(left, colored(group_fg())),
        styled(gap(left.len() as int), plain()),
        styled(right, colored(group_fg())),
    ]
}

/// A line of two bindings, one for each half: of each the key in the accent
/// and what it does.
pub open spec fn two_row_spec(lk: &str, ld: &str, rk: &str, rd: &str) -> Seq<SpanSpec> {
    seq![
        styled(lk@, colored(search_fg())),
        styled(ld@, colored(detail_value_fg())),
        styled(gap((lk@.len() + ld@.len()) as int), plain()),
        styled(rk@, colored(search_fg())),
        styled(rd@, colored(detail_value_fg())),
    ]
}

/// The lines of the panel.
pub open spec fn help_lines() -> Seq<Seq<SpanSpec>> {
    seq![
        blank_line(),
        two_headers_spec("  Navigation"@, "Search"@),
        two_row_spec("  j / k    ", "up / down", "/          ", "open search"),
        two_row_spec("  g / G    ", "top / bottom", "Esc        ", "close search"),
        two_row_spec("  Ctrl+d/u ", "page down/up", "Ctrl+u     ", "clear query"),
        two_row_spec("  Enter    ", "toggle group", "=query     ", "search commands"),
        two_row_spec("  Tab      ", "switch panel", "@query     ", "search groups"),
        blank_line(),
        two_headers_spec("  Aliases"@, "Edit Mode"@),
        two_row_spec("  a        ", "create new", "Tab        ", "switch field"),
        two_row_spec("  e        ", "edit selected", "Enter      ", "save"),
        two_row_spec("  d        ", "delete selected", "Esc        ", "cancel"),
        two_row_spec("  ", "", "Ctrl+u     ", "clear field"),
        blank_line(),
        one(styled("  General"@, colored(group_fg()))),
        two_row_spec("  ?        ", "this help", "q          ", "quit"),
        two_row_spec("  Ctrl+c   ", "force quit", "", ""),
        blank_line(),
        one(styled("  Press any key to close"@, colored(help_fg()))),
    ]
}

/// The help panel.
pub open spec fn help_panel() -> PanelSpec {
    PanelSpec {
        title: Some(" Help "@),
        border: border_style_spec(true),
        lines: help_lines(),
        wrap: false,
    }
}

fn gap_span(taken: usize) -> (r: Span)
    ensures
        r@ == styled(gap(taken as int), plain()),
{
    let pad: usize = if taken > 24 {
        0
    } else {
        24 - taken
    };
    let none: Vec<char> = Vec::new();
    span(string_of(&padded_right(&none, pad)).as_str(), plain_style())
}

fn two_headers(lines: &mut Vec<Vec<Span>>, left: &str, right: &str)
    ensures
        final(lines).deep_view() == old(lines).deep_view().push(two_headers_spec(left@, right@)),
{
    let mut line: Vec<Span> = Vec::new();
    line.push(span(left, fg(group_fg())));
    line.push(gap_span(chars_of(left).len()));
    line.push(span(right, fg(group_fg())));
    assert(line.deep_view() =~= two_headers_spec(left@, right@));
    push_line(lines, line);
}

fn two_row(lines: &mut Vec<Vec<Span>>, lk: &str, ld: &str, rk: &str, rd: &str)
    ensures
        final(lines).deep_view() == old(lines).deep_view().push(two_row_spec(lk, ld, rk, rd)),
{
    let left = chars_of(lk).len();
    let does = chars_of(ld).len();
    let taken: usize = if left > 24 || does > 24 {
        25
    } else {
        left + does
    };
    let mut line: Vec<Span> = Vec::new();
    line.push(span(lk, fg(search_fg())));
    line.push(span(ld, fg(detail_value_fg())));
    line.push(gap_span(taken));
    line.push(span(rk, fg(search_fg())));
    line.push(span(rd, fg(detail_value_fg())));
    assert(line.deep_view() =~= two_row_spec(lk, ld, rk, rd));
    push_line(lines, line);
}

/// The text of the help panel.
pub fn render() -> (r: Panel)
    ensures
        r@ == help_panel(),
{
    let mut lines: Vec<Vec<Span>> = Vec::new();
    push_blank(&mut lines);
    two_headers(&mut lines, "  Navigation", "Search");
    two_row(&mut lines, "  j / k    ", "up / down", "/          ", "open search");
    two_row(&mut lines, "  g / G    ", "top / bottom", "Esc        ", "close search");
    two_row(&mut lines, "  Ctrl+d/u ", "page down/up", "Ctrl+u     ", "clear query");
    two_row(&mut lines, "  Enter    ", "toggle group", "=query     ", "search commands");
    two_row(&mut lines, "  Tab      ", "switch panel", "@query     ", "search groups");
    push_blank(&mut lines);
    two_headers(&mut lines, "  Aliases", "Edit Mode");
    two_row(&mut lines, "  a        ", "create new", "Tab        ", "switch field");
    two_row(&mut lines, "  e        ", "edit selected", "Enter      ", "save");
    two_row(&mut lines, "  d        ", "delete selected", "Esc        ", "cancel");
    two_row(&mut lines, "  ", "", "Ctrl+u     ", "clear field");
    push_blank(&mut lines);
    push_one(&mut lines, "  General", fg(group_fg()));
    two_row(&mut lines, "  ?        ", "this help", "q          ", "quit");
    two_row(&mut lines, "  Ctrl+c   ", "force quit", "", "");
    push_blank(&mut lines);
    push_one(&mut lines, "  Press any key to close", fg(help_fg()));
    assert(lines.deep_view() =~= help_lines());
    Panel { title: Some(" Help ".to_owned()), border: border_style(true), lines, wrap: false }
}

} // verus!
