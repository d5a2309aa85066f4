//! The form in which an alias is created or edited.

use crate::app::{EditField, EditSpec, EditState};
use crate::ui::{blank_line, push_blank, push_line, span, styled, Panel, PanelSpec, Span, SpanSpec};
use crate::ui::theme::{
    bold_colored, bold_fg, border_style, border_style_spec, colored, detail_label_fg,
    detail_value_fg, fg, help_fg, search_fg,
};
use vstd::prelude::*;

verus! {

/// The line of one field: its label, its text, and the cursor where the field
/// is active. An active field is drawn in the accent.
pub open spec fn field_line(label: Seq<char>, text: Seq<char>, active: bool) -> Seq<SpanSpec> {
    seq![
        styled(
            label,
            if active {
                bold_colored(search_fg())
            } else {
                colored(detail_label_fg())
            },
        ),
        styled(
            text,
            if active {
                bold_colored(search_fg())
            } else {
                colored(detail_value_fg())
            },
        ),
        styled(
            if active {
                "█"@
            } else {
                ""@
            },
            colored(search_fg()),
        ),
    ]
}

/// The line that names the keys of the form.
pub open spec fn form_keys_line() -> Seq<SpanSpec> {
    seq![
        styled("  "@, colored(detail_label_fg())),
        styled("Tab"@, colored(search_fg())),
        styled(":next field  "@, colored(help_fg())),
        styled("Enter"@, colored(search_fg())),
        styled(":save  "@, colored(help_fg())),
        styled("Esc"@, colored(search_fg())),
        styled(":cancel"@, colored(help_fg())),
    ]
}

/// The form: the name and the command with the cursor in the active field,
/// and the keys.
pub open spec fn edit_form(state: EditSpec) -> PanelSpec {
    PanelSpec {
        title: Some(
            if state.is_new {
                " New Alias "@
            } else {
                " Edit Alias "@
            },
        ),
        border: border_style_spec(true),
        lines: seq![
            blank_line(),
            field_line("  Name:    "@, state.name, state.active_field == EditField::Name),
            blank_line(),
            field_line("  Command: "@, state.command, state.active_field == EditField::Command),
            blank_line(),
            blank_line(),
            form_keys_line(),
        ],
        wrap: true,
    }
}

fn push_field(lines: &mut Vec<Vec<Span>>, label: &str, text: &str, active: bool)
    ensures
        final(lines).deep_view() == old(lines).deep_view().push(field_line(label@, text@, active)),
{
    let label_style = if active {
        bold_fg(search_fg())
    } else {
        fg(detail_label_fg())
    };
    let text_style = if active {
        bold_fg(search_fg())
    } else {
        fg(detail_value_fg())
    };
    let cursor = if active {
        "█"
    } else {
        ""
    };
    let mut line: Vec<Span> = Vec::new();
    line.push(span(label, label_style));
    line.push(span(text, text_style));
    line.push(span(cursor, fg(search_fg())));
    assert(line.deep_view() =~= field_line(label@, text@, active));
    push_line(lines, line);
}

/// The text of the edit form.
pub fn render(state: &EditState) -> (r: Panel)
    ensures
        r@ == edit_form(state@),
{
    let title = if state.is_new {
        " New Alias "
    } else {
        " Edit Alias "
    };
    let name_active = match state.active_field {
        EditField::Name => true,
        EditField::Command => false,
    };
    let mut lines: Vec<Vec<Span>> = Vec::new();
    push_blank(&mut lines);
    push_field(&mut lines, "  Name:    ", state.name.as_str(), name_active);
    push_blank(&mut lines);
    push_field(&mut lines, "  Command: ", state.command.as_str(), !name_active);
    push_blank(&mut lines);
    push_blank(&mut lines);
    let mut keys: Vec<Span> = Vec::new();
    keys.push(span("  ", fg(detail_label_fg())));
    keys.push(span("Tab", fg(search_fg())));
    keys.push(span(":next field  ", fg(help_fg())));
    keys.push(span("Enter", fg(search_fg())));
    keys.push(span(":save  ", fg(help_fg())));
    keys.push(span("Esc", fg(search_fg())));
    keys.push(span(":cancel", fg(help_fg())));
    assert(keys.deep_view() =~= form_keys_line());
    push_line(&mut lines, keys);
    assert(lines.deep_view() =~= edit_form(state@).lines);
    Panel { title: Some(title.to_owned()), border: border_style(true), lines, wrap: true }
}

} // verus!
