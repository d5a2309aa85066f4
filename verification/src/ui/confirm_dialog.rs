//! The question that is asked before an alias is deleted or a collision is
//! overridden.

use crate::app::{PendingAction, PendingSpec};
use crate::ui::{
    blank_line, one, push_blank, push_line, push_one, push_two, span, styled, two, Panel, PanelSpec,
    Span, SpanSpec,
};
use crate::ui::theme::{
    alias_name_style, alias_name_style_spec, border_style, border_style_spec, colored,
    detail_label_fg, detail_value_fg, fg, help_fg, plain, plain_style, search_fg,
};
use vstd::prelude::*;

verus! {

/// The line that names the keys of the question.
pub open spec fn confirm_keys() -> Seq<SpanSpec> {
    seq![
        styled("  "@, plain()),
        styled("y"@, colored(search_fg())),
        styled(":confirm  "@, colored(help_fg())),
        styled("n"@, colored(search_fg())),
        styled("/"@, colored(help_fg())),
        styled("Esc"@, colored(search_fg())),
        styled(":cancel"@, colored(help_fg())),
    ]
}

/// The question before a deletion: the name of the alias and its source.
pub open spec fn delete_lines(name: Seq<char>, source_display: Seq<char>) -> Seq<Seq<SpanSpec>> {
    seq![
        blank_line(),
        seq![
            styled("  Delete alias "@, colored(detail_label_fg())),
            styled(name, alias_name_style_spec()),
            styled("?"@, colored(detail_label_fg())),
        ],
        blank_line(),
        two(
            styled("  Source: "@, colored(detail_label_fg())),
            styled(source_display, colored(detail_value_fg())),
        ),
        blank_line(),
        blank_line(),
        confirm_keys(),
    ]
}

/// The question before a collision is overridden: the name, what it collides
/// with, and whether to save all the same.
pub open spec fn collision_lines(name: Seq<char>, collision_desc: Seq<char>) -> Seq<Seq<SpanSpec>> {
    seq![
        blank_line(),
        seq![
            styled("  \""@, colored(detail_label_fg())),
            styled(name, alias_name_style_spec()),
            styled("\" "@, colored(detail_label_fg())),
            styled(collision_desc, colored(detail_value_fg())),
        ],
        blank_line(),
        one(styled("  Override and save?"@, colored(detail_label_fg()))),
        blank_line(),
        blank_line(),
        confirm_keys(),
    ]
}

/// The confirmation dialog for what is pending.
pub open spec fn confirm_dialog(pending: PendingSpec) -> PanelSpec {
    match pending {
        PendingSpec::Delete { alias_name, alias_source } => PanelSpec {
            title: Some(" Delete Alias "@),
            border: border_style_spec(true),
            lines: delete_lines(alias_name, alias_source.display_name()),
            wrap: true,
        },
        PendingSpec::CollisionOverride { edit_state, collision_desc } => PanelSpec {
            title: Some(" Name Collision "@),
            border: border_style_spec(true),
            lines: collision_lines(edit_state.name, collision_desc),
            wrap: true,
        },
    }
}

fn confirm_keys_line() -> (r: Vec<Span>)
    ensures
        r.deep_view() == confirm_keys(),
{
    let mut keys: Vec<Span> = Vec::new();
    keys.push(span("  ", plain_style()));
    keys.push(span("y", fg(search_fg())));
    keys.push(span(":confirm  ", fg(help_fg())));
    keys.push(span("n", fg(search_fg())));
    keys.push(span("/", fg(help_fg())));
    keys.push(span("Esc", fg(search_fg())));
    keys.push(span(":cancel", fg(help_fg())));
    keys
}

fn render_delete(name: &str, source_display: &str) -> (r: Panel)
    ensures
        r@ == (PanelSpec {
            title: Some(" Delete Alias "@),
            border: border_style_spec(true),
            lines: delete_lines(name@, source_display@),
            wrap: true,
        }),
{
    let label = fg(detail_label_fg());
    let value = fg(detail_value_fg());
    let mut lines: Vec<Vec<Span>> = Vec::new();
    push_blank(&mut lines);
    let mut question: Vec<Span> = Vec::new();
    question.push(span("  Delete alias ", label));
    question.push(span(name, alias_name_style()));
    question.push(span("?", label));
    assert(question.deep_view() =~= delete_lines(name@, source_display@)[1]);
    push_line(&mut lines, question);
    push_blank(&mut lines);
    push_two(&mut lines, "  Source: ", label, source_display, value);
    push_blank(&mut lines);
    push_blank(&mut lines);
    push_line(&mut lines, confirm_keys_line());
    assert(lines.deep_view() =~= delete_lines(name@, source_display@));
    Panel { title: Some(" Delete Alias ".to_owned()), border: border_style(true), lines, wrap: true }
}

fn render_collision(name: &str, collision_desc: &str) -> (r: Panel)
    ensures
        r@ == (PanelSpec {
            title: Some(" Name Collision "@),
            border: border_style_spec(true),
            lines: collision_lines(name@, collision_desc@),
            wrap: true,
        }),
{
    let label = fg(detail_label_fg());
    let value = fg(detail_value_fg());
    let mut lines: Vec<Vec<Span>> = Vec::new();
    push_blank(&mut lines);
    let mut what: Vec<Span> = Vec::new();
    what.push(span("  \"", label));
    what.push(span(name, alias_name_style()));
    what.push(span("\" ", label));
    what.push(span(collision_desc, value));
    assert(what.deep_view() =~= collision_lines(name@, collision_desc@)[1]);
    push_line(&mut lines, what);
    push_blank(&mut lines);
    push_one(&mut lines, "  Override and save?", label);
    push_blank(&mut lines);
    push_blank(&mut lines);
    push_line(&mut lines, confirm_keys_line());
    assert(lines.deep_view() =~= collision_lines(name@, collision_desc@));
    Panel {
        title: Some(" Name Collision ".to_owned()),
        border: border_style(true),
        lines,
        wrap: true,
    }
}

/// The text of the confirmation dialog.
pub fn render(pending: &PendingAction) -> (r: Panel)
    ensures
        r@ == confirm_dialog(pending@),
{
    match pending {
        PendingAction::Delete { alias_name, alias_source } => render_delete(
            alias_name.as_str(),
            alias_source.display_name().as_str(),
        ),
        PendingAction::CollisionOverride { edit_state, collision_desc } => render_collision(
            edit_state.name.as_str(),
            collision_desc.as_str(),
        ),
    }
}

} // verus!
