//! The bar at the bottom that names the keys of the current mode.

use crate::app::InputMode;
use crate::text::{chars_of, concat2, pad_right, padded_right, string_of};
use crate::ui::{push_line, span, styled, Panel, PanelSpec, Span, SpanSpec};
use crate::ui::theme::{colored, fg, help_fg, plain, plain_style, search_fg};
use vstd::prelude::*;

verus! {

/// The columns of one binding: the key, a colon, and what the key does.
pub open spec fn cell_width() -> int {
    16
}

/// A key and what it does.
pub type Binding = (Seq<char>, Seq<char>);

/// One key of a mode.
pub open spec fn key(name: &str, does: &str) -> Binding {
    (name@, does@)
}

/// The keys in the first row of the bar.
pub open spec fn first_row(mode: InputMode) -> Seq<Binding> {
    match mode {
        InputMode::Normal { .. } => seq![
            key("/", "search"),
            key("a", "add"),
            key("e", "edit"),
            key("d", "delete"),
            key("?", "help"),
            key("q", "quit"),
        ],
        InputMode::Search => seq![key("Esc", "exit"), key("Enter", "confirm"), key("^u", "clear")],
        InputMode::Editing { .. } => seq![
            key("Tab", "next field"),
            key("Enter", "save"),
            key("Esc", "cancel"),
            key("^u", "clear field"),
        ],
        InputMode::Confirm => seq![key("y", "confirm"), key("n/Esc", "cancel")],
        InputMode::ResultPopup => seq![key("any key", "continue")],
        InputMode::Help => seq![key("any key", "close help")],
    }
}

/// The keys in the second row of the bar.
pub open spec fn second_row(mode: InputMode) -> Seq<Binding> {
    match mode {
        InputMode::Normal { .. } => seq![
            key("j/k", "navigate"),
            key("g/G", "top/bottom"),
            key("^d/u", "page"),
            key("Enter", "toggle"),
            key("Tab", "focus"),
        ],
        InputMode::Search => seq![key("=", "cmd search"), key("@", "group search")],
        _ => Seq::empty(),
    }
}

/// The room that is left for what a key does.
pub open spec fn room_beside(name: Seq<char>) -> int {
    if name.len() + 1 > cell_width() {
        0
    } else {
        cell_width() - (name.len() + 1)
    }
}

/// The spans of the first `n` bindings: each key with a colon in the accent,
/// and what it does, padded so that the bindings stand in columns.
pub open spec fn aligned(bindings: Seq<Binding>, n: int) -> Seq<SpanSpec>
    decreases n,
{
    if n <= 0 {
        Seq::empty()
    } else {
        aligned(bindings, n - 1).push(
            styled(bindings[n - 1].0 + ":"@, colored(search_fg())),
        ).push(
            styled(
                pad_right(bindings[n - 1].1, room_beside(bindings[n - 1].0)),
                colored(help_fg()),
            ),
        )
    }
}

/// What the status message adds to the second row.
pub open spec fn status_spans(status: Option<Seq<char>>) -> Seq<SpanSpec> {
    match status {
        Some(msg) => seq![
            styled("  │  "@, colored(help_fg())),
            styled(msg, colored(search_fg())),
        ],
        None => Seq::empty(),
    }
}

/// The help bar: the keys of the mode in two rows, with the status message
/// at the end of the second where there is one.
pub open spec fn help_bar(mode: InputMode, status: Option<Seq<char>>) -> PanelSpec {
    PanelSpec {
        title: None,
        border: plain(),
        lines: seq![
            aligned(first_row(mode), first_row(mode).len() as int),
            aligned(second_row(mode), second_row(mode).len() as int) + status_spans(status),
        ],
        wrap: false,
    }
}

fn bindings_of(mode: InputMode) -> (r: (
    Vec<(&'static str, &'static str)>,
    Vec<(&'static str, &'static str)>,
))
    ensures
        r.0.deep_view() == first_row(mode),
        r.1.deep_view() == second_row(mode),
{
    let mut row1: Vec<(&'static str, &'static str)> = Vec::new();
    let mut row2: Vec<(&'static str, &'static str)> = Vec::new();
    match mode {
        InputMode::Normal { focus } => {
            row1.push(("/", "search"));
            row1.push(("a", "add"));
            row1.push(("e", "edit"));
            row1.push(("d", "delete"));
            row1.push(("?", "help"));
            row1.push(("q", "quit"));
            row2.push(("j/k", "navigate"));
            row2.push(("g/G", "top/bottom"));
            row2.push(("^d/u", "page"));
            row2.push(("Enter", "toggle"));
            row2.push(("Tab", "focus"));
        },
        InputMode::Search => {
            row1.push(("Esc", "exit"));
            row1.push(("Enter", "confirm"));
            row1.push(("^u", "clear"));
            row2.push(("=", "cmd search"));
            row2.push(("@", "group search"));
        },
        InputMode::Editing { field } => {
            row1.push(("Tab", "next field"));
            row1.push(("Enter", "save"));
            row1.push(("Esc", "cancel"));
            row1.push(("^u", "clear field"));
        },
        InputMode::Confirm => {
            row1.push(("y", "confirm"));
            row1.push(("n/Esc", "cancel"));
        },
        InputMode::ResultPopup => {
            row1.push(("any key", "continue"));
        },
        InputMode::Help => {
            row1.push(("any key", "close help"));
        },
    }
    (row1, row2)
}

fn build_aligned_line(bindings: &Vec<(&'static str, &'static str)>) -> (spans: Vec<Span>)
    ensures
        spans.deep_view() == aligned(bindings.deep_view(), bindings.len() as int),
{
    let mut spans: Vec<Span> = Vec::new();
    let ghost all = bindings.deep_view();
    let mut i: usize = 0;
    while i < bindings.len()
        invariant
            i <= bindings.len(),
            all == bindings.deep_view(),
            spans.deep_view() == aligned(all, i as int),
        decreases bindings.len() - i,
    {
        let (name, does) = bindings[i];
        let taken = chars_of(name).len();
        let room: usize = if taken >= 16 {
            0
        } else {
            16 - (taken + 1)
        };
        let first = span(concat2(name, ":").as_str(), fg(search_fg()));
        let second = span(string_of(&padded_right(&chars_of(does), room)).as_str(), fg(help_fg()));
        spans.push(first);
        spans.push(second);
        i += 1;
    }
    spans
}

/// The text of the help bar.
pub fn render(mode: InputMode, status: Option<&str>) -> (r: Panel)
    ensures
        r@ == help_bar(mode, status.deep_view()),
{
    let (row1, row2) = bindings_of(mode);
    let line1 = build_aligned_line(&row1);
    let mut line2 = build_aligned_line(&row2);
    let ghost keys = line2.deep_view();
    match status {
        Some(msg) => {
            let sep = span("  │  ", fg(help_fg()));
            let text = span(msg, fg(search_fg()));
            let ghost a = sep@;
            let ghost b = text@;
            line2.push(sep);
            line2.push(text);
            assert(line2.deep_view() =~= keys + seq![a, b]);
        },
        None => {
        },
    }
    let mut lines: Vec<Vec<Span>> = Vec::new();
    push_line(&mut lines, line1);
    push_line(&mut lines, line2);
    assert(lines.deep_view() =~= help_bar(mode, status.deep_view()).lines);
    Panel { title: None, border: plain_style(), lines, wrap: false }
}

} // verus!
