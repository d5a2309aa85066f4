//! The details of the selected alias.

use crate::alias::types::{Alias, AliasSpec};
use crate::app::PanelFocus;
use crate::text::{chars_of, string_of, subvec};
use crate::ui::{
    blank_line, inner, inner_size, one, push_blank, push_one, push_two, styled, two, Panel,
    PanelSpec, Span, SpanSpec,
};
use crate::ui::theme::{
    alias_name_style, alias_name_style_spec, border_style, border_style_spec, colored,
    detail_label_fg, detail_value_fg, fg, help_fg,
};
use vstd::prelude::*;

verus! {

/// The columns that stand before the command: the indent under `Command:`.
pub open spec fn command_indent() -> int {
    13
}

/// The text cut into pieces of `width` characters; the last may be shorter.
pub open spec fn chunks(s: Seq<char>, width: int) -> Seq<Seq<char>>
    decreases s.len(),
{
    if width <= 0 || s.len() == 0 {
        Seq::empty()
    } else if s.len() <= width {
        seq![s]
    } else {
        seq![s.take(width)] + chunks(s.skip(width), width)
    }
}

/// The line of one piece of the command, under `Command:`.
pub open spec fn command_line() -> spec_fn(Seq<char>) -> Seq<SpanSpec> {
    |piece: Seq<char>|
        two(
            styled("             "@, colored(detail_label_fg())),
            styled(piece, colored(detail_value_fg())),
        )
}

/// The lines of the details: the name; the command, cut into lines that fit
/// the panel; the source; the file where the source has one; and the
/// description where there is one. A blank line stands between the fields.
pub open spec fn detail_lines(alias: AliasSpec, panel_width: int) -> Seq<Seq<SpanSpec>> {
    let label = colored(detail_label_fg());
    let value = colored(detail_value_fg());
    seq![
        blank_line(),
        two(styled("  Alias:   "@, label), styled(alias.name, alias_name_style_spec())),
        blank_line(),
        one(styled("  Command: "@, label)),
    ] + chunks(
        alias.command,
        if panel_width < command_indent() {
            0
        } else {
            panel_width - command_indent()
        },
    ).map_values(command_line()) + seq![
        blank_line(),
        two(styled("  Source:   "@, label), styled(alias.source.display_name(), value)),
    ] + match alias.source.file_path() {
        Some(path) => seq![blank_line(), two(styled("  File:    "@, label), styled(path, value))],
        None => Seq::empty(),
    } + match alias.description {
        Some(desc) => seq![
            blank_line(),
            one(styled("  Description:"@, label)),
            two(styled("    "@, label), styled(desc, value)),
        ],
        None => Seq::empty(),
    }
}

/// The detail panel: the details of the alias, or a hint where none is
/// selected; the frame is highlighted where the panel has focus.
pub open spec fn detail_panel(alias: Option<AliasSpec>, focus: PanelFocus, width: int) -> PanelSpec {
    match alias {
        Some(a) => PanelSpec {
            title: Some(" Details "@),
            border: border_style_spec(focus == PanelFocus::Detail),
            lines: detail_lines(a, inner_size(width)),
            wrap: true,
        },
        None => PanelSpec {
            title: Some(" Details "@),
            border: border_style_spec(focus == PanelFocus::Detail),
            lines: seq![one(styled("  Select an alias to view details"@, colored(help_fg())))],
            wrap: false,
        },
    }
}

/// Appends the lines of the command, cut to `width` characters each.
fn push_command(lines: &mut Vec<Vec<Span>>, command: &str, width: usize)
    ensures
        final(lines).deep_view() == old(lines).deep_view() + chunks(
            command@,
            width as int,
        ).map_values(command_line()),
{
    let ghost start = lines.deep_view();
    let text = chars_of(command);
    if width == 0 {
        return ;
    }
    let mut from: usize = 0;
    let ghost mut done: Seq<Seq<char>> = Seq::empty();
    assert(text@.skip(0) == text@);
    while from < text.len()
        invariant
            from <= text.len(),
            width > 0,
            done + chunks(text@.skip(from as int), width as int) == chunks(text@, width as int),
            lines.deep_view() == start + done.map_values(command_line()),
        decreases text.len() - from,
    {
        let ghost rest = text@.skip(from as int);
        let to: usize = if text.len() - from <= width {
            text.len()
        } else {
            from + width
        };
        let piece = subvec(&text, from, to);
        proof {
            if text.len() - from > width {
                assert(piece@ == rest.take(width as int));
                assert(rest.skip(width as int) == text@.skip(to as int));
            }
        }
        push_two(
            lines,
            "             ",
            fg(detail_label_fg()),
            string_of(&piece).as_str(),
            fg(detail_value_fg()),
        );
        proof {
            done = done.push(piece@);
        }
        from = to;
    }
}

/// The text of the detail panel, for a panel of `width` columns with its
/// frame.
pub fn render(alias: Option<&Alias>, focus: PanelFocus, width: u16) -> (r: Panel)
    ensures
        r@ == detail_panel(alias.deep_view(), focus, width as int),
{
    let focused = match focus {
        PanelFocus::Detail => true,
        PanelFocus::List => false,
    };
    let mut lines: Vec<Vec<Span>> = Vec::new();
    let alias = match alias {
        Some(a) => a,
        None => {
            push_one(&mut lines, "  Select an alias to view details", fg(help_fg()));
            assert(lines.deep_view() =~= seq![
                one(styled("  Select an alias to view details"@, colored(help_fg()))),
            ]);
            return Panel {
                title: Some(" Details ".to_owned()),
                border: border_style(focused),
                lines,
                wrap: false,
            };
        },
    };
    let label = fg(detail_label_fg());
    let value = fg(detail_value_fg());
    let panel_width = inner(width);
    push_blank(&mut lines);
    push_two(&mut lines, "  Alias:   ", label, alias.name.as_str(), alias_name_style());
    push_blank(&mut lines);
    push_one(&mut lines, "  Command: ", label);
    // Long commands run over several lines.
    let max_width: usize = if panel_width < 13 {
        0
    } else {
        (panel_width - 13) as usize
    };
    push_command(&mut lines, alias.command.as_str(), max_width);
    push_blank(&mut lines);
    push_two(&mut lines, "  Source:   ", label, alias.source.display_name().as_str(), value);
    match alias.source.file_path() {
        Some(file_path) => {
            push_blank(&mut lines);
            push_two(&mut lines, "  File:    ", label, file_path.as_str(), value);
        },
        None => {},
    }
    match &alias.description {
        Some(desc) => {
            push_blank(&mut lines);
            push_one(&mut lines, "  Description:", label);
            push_two(&mut lines, "    ", label, desc.as_str(), value);
        },
        None => {},
    }
    assert(lines.deep_view() =~= detail_lines(alias@, panel_width as int));
    Panel { title: Some(" Details ".to_owned()), border: border_style(focused), lines, wrap: true }
}

} // verus!
