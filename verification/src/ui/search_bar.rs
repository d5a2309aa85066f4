//! The search bar.

use crate::text::{append_chars, chars_of, concat2, decimal, decimal_chars, string_of};
use crate::ui::{span, styled, Panel, PanelSpec, Span, SpanSpec};
use crate::ui::theme::{
    bold_colored, bold_fg, border_style, border_style_spec, colored, detail_label_fg, fg, help_fg,
    search_fg,
};
use vstd::prelude::*;

verus! {

/// The count behind the query: the number of aliases, or the number shown of
/// the number there are where a filter hides some.
pub open spec fn count_text(visible: int, total: int) -> Seq<char> {
    if visible == total {
        "  ("@ + decimal(total as nat) + " aliases)"@
    } else {
        "  ("@ + decimal(visible as nat) + "/"@ + decimal(total as nat) + " aliases)"@
    }
}

/// The line of the search bar: the key that opens it, the label of the field
/// that is searched, the query or a hint of what can be typed, the cursor
/// where the bar has focus, and the count.
pub open spec fn search_line(
    label: Seq<char>,
    query: Seq<char>,
    focused: bool,
    visible: int,
    total: int,
) -> Seq<SpanSpec> {
    seq![
        styled("[/] "@, colored(help_fg())),
        styled(label + ": "@, colored(detail_label_fg())),
        if query.len() == 0 {
            styled("name  =command  @group"@, colored(help_fg()))
        } else {
            styled(query, bold_colored(search_fg()))
        },
        styled(
            if focused {
                "█"@
            } else {
                ""@
            },
            colored(search_fg()),
        ),
        styled(count_text(visible, total), colored(help_fg())),
    ]
}

/// The search bar.
pub open spec fn search_bar(
    label: Seq<char>,
    query: Seq<char>,
    focused: bool,
    visible: int,
    total: int,
) -> PanelSpec {
    PanelSpec {
        title: Some(" Search "@),
        border: border_style_spec(focused),
        lines: seq![search_line(label, query, focused, visible, total)],
        wrap: false,
    }
}

/// The text of the search bar.
pub fn render(label: &str, display_query: &str, focused: bool, visible: usize, total: usize) -> (r:
    Panel)
    ensures
        r@ == search_bar(label@, display_query@, focused, visible as int, total as int),
{
    let cursor_char = if focused {
        "█"
    } else {
        ""
    };
    let mut count = chars_of("  (");
    if visible == total {
        append_chars(&mut count, &decimal_chars(total as u128));
    } else {
        append_chars(&mut count, &decimal_chars(visible as u128));
        append_chars(&mut count, &chars_of("/"));
        append_chars(&mut count, &decimal_chars(total as u128));
    }
    append_chars(&mut count, &chars_of(" aliases)"));
    let query_span = if display_query.is_empty() {
        span("name  =command  @group", fg(help_fg()))
    } else {
        span(display_query, bold_fg(search_fg()))
    };
    let mut line: Vec<Span> = Vec::new();
    line.push(span("[/] ", fg(help_fg())));
    line.push(span(concat2(label, ": ").as_str(), fg(detail_label_fg())));
    line.push(query_span);
    line.push(span(cursor_char, fg(search_fg())));
    line.push(span(string_of(&count).as_str(), fg(help_fg())));
    assert(line.deep_view() =~= search_line(
        label@,
        display_query@,
        focused,
        visible as int,
        total as int,
    ));
    let mut lines: Vec<Vec<Span>> = Vec::new();
    lines.push(line);
    assert(lines.deep_view() =~= seq![
        search_line(label@, display_query@, focused, visible as int, total as int),
    ]);
    Panel { title: Some(" Search ".to_owned()), border: border_style(focused), lines, wrap: false }
}

} // verus!
