//! The list of groups and aliases.

use crate::app::{ItemSpec, ListItem, PanelFocus};
use crate::text::{
    append_chars, chars_of, decimal, decimal_chars, pad_right, padded_right, string_of, subvec,
};
use crate::ui::{inner, inner_size, span, styled, Panel, PanelSpec, Span, SpanSpec};
use crate::ui::theme::{
    alias_cmd_style, alias_cmd_style_spec, alias_name_style, alias_name_style_spec, border_style,
    border_style_spec, colored, fg, group_style, group_style_spec, help_fg, selected_style,
    selected_style_spec,
};
use vstd::prelude::*;

verus! {

/// The columns that the name of an alias is padded to.
pub open spec fn name_column() -> int {
    8
}

/// The columns of a row that are not the command's: the margin, the name and
/// the ellipsis.
pub open spec fn reserved_columns() -> int {
    12
}

/// The command as it fits into `room` columns: as it is where it fits, else
/// cut to one column less than the room, with an ellipsis behind it.
pub open spec fn fitted(command: Seq<char>, room: int) -> Seq<char> {
    if command.len() > room {
        command.take(if room < 1 { 0 } else { room - 1 }) + "…"@
    } else {
        command
    }
}

/// The room for the command in a row of a panel `panel_width` columns wide.
pub open spec fn command_room(panel_width: int) -> int {
    if panel_width < reserved_columns() {
        0
    } else {
        panel_width - reserved_columns()
    }
}

/// The row of one item: a group header shows whether it is collapsed, its
/// display name and the number of its aliases; an alias shows its name in a
/// column of its own, and its command. The selected row is highlighted.
pub open spec fn item_row(item: ItemSpec, is_selected: bool, panel_width: int) -> Seq<SpanSpec> {
    match item {
        ItemSpec::GroupHeader { display_name, alias_count, collapsed, .. } => {
            let style = if is_selected {
                selected_style_spec()
            } else {
                group_style_spec()
            };
            seq![
                styled(
                    if collapsed {
                        " ▸ "@
                    } else {
                        " ▾ "@
                    },
                    style,
                ),
                styled(display_name, style),
                styled(" ("@ + decimal(alias_count as nat) + ")"@, colored(help_fg())),
            ]
        },
        ItemSpec::AliasEntry { alias, .. } => seq![
            styled(
                "   "@ + pad_right(alias.name, name_column()),
                if is_selected {
                    selected_style_spec()
                } else {
                    alias_name_style_spec()
                },
            ),
            styled(
                fitted(alias.command, command_room(panel_width)),
                if is_selected {
                    selected_style_spec()
                } else {
                    alias_cmd_style_spec()
                },
            ),
        ],
    }
}

/// The row of one item.
pub fn render_item(item: &ListItem, is_selected: bool, panel_width: u16) -> (r: Vec<Span>)
    ensures
        r.deep_view() == item_row(item@, is_selected, panel_width as int),
{
    match item {
        ListItem::GroupHeader { group_index, display_name, alias_count, collapsed } => {
            let arrow = if *collapsed {
                " ▸ "
            } else {
                " ▾ "
            };
            let style = if is_selected {
                selected_style()
            } else {
                group_style()
            };
            let mut count = chars_of(" (");
            append_chars(&mut count, &decimal_chars(*alias_count as u128));
            append_chars(&mut count, &chars_of(")"));
            let mut row: Vec<Span> = Vec::new();
            row.push(span(arrow, style));
            row.push(span(display_name.as_str(), style));
            row.push(span(string_of(&count).as_str(), fg(help_fg())));
            row
        },
        ListItem::AliasEntry { group_index, alias } => {
            let name_style = if is_selected {
                selected_style()
            } else {
                alias_name_style()
            };
            let cmd_style = if is_selected {
                selected_style()
            } else {
                alias_cmd_style()
            };
            let max_cmd: usize = if panel_width < 12 {
                0
            } else {
                (panel_width - 12) as usize
            };
            let command = chars_of(alias.command.as_str());
            let cmd_display = if command.len() > max_cmd {
                let keep: usize = if max_cmd < 1 {
                    0
                } else {
                    max_cmd - 1
                };
                let mut cut = subvec(&command, 0, keep);
                append_chars(&mut cut, &chars_of("…"));
                cut
            } else {
                command
            };
            let mut name = chars_of("   ");
            append_chars(&mut name, &padded_right(&chars_of(alias.name.as_str()), 8));
            let mut row: Vec<Span> = Vec::new();
            row.push(span(string_of(&name).as_str(), name_style));
            row.push(span(string_of(&cmd_display).as_str(), cmd_style));
            row
        },
    }
}

/// The rows of the items `from..to`.
pub open spec fn item_rows(
    items: Seq<ItemSpec>,
    selected: int,
    panel_width: int,
    from: int,
    to: int,
) -> Seq<Seq<SpanSpec>>
    decreases to - from,
{
    if to <= from {
        Seq::empty()
    } else {
        item_rows(items, selected, panel_width, from, to - 1).push(
            item_row(items[to - 1], to - 1 == selected, panel_width),
        )
    }
}

/// The end of the window of `height` rows that begins at `offset`: it ends
/// with the items.
pub open spec fn window_end(len: int, offset: int, height: int) -> int {
    if offset + height < len {
        offset + height
    } else {
        len
    }
}

/// The list: the rows of the items in the window of the scroll offset, in a
/// frame that is highlighted where the list has focus; a hint where there is
/// no item or no room.
pub open spec fn alias_list(
    items: Seq<ItemSpec>,
    selected: int,
    scroll_offset: int,
    focus: PanelFocus,
    width: int,
    height: int,
) -> PanelSpec {
    PanelSpec {
        title: Some(" Aliases "@),
        border: border_style_spec(focus == PanelFocus::List),
        lines: if items.len() == 0 || inner_size(height) == 0 {
            seq![seq![styled("  No aliases found"@, colored(help_fg()))]]
        } else {
            item_rows(
                items,
                selected,
                inner_size(width),
                scroll_offset,
                window_end(items.len() as int, scroll_offset, inner_size(height)),
            )
        },
        wrap: false,
    }
}

/// The text of the list, for a panel of `width` columns and `height` rows
/// with its frame.
pub fn render(
    items: &Vec<ListItem>,
    selected: usize,
    scroll_offset: usize,
    focus: PanelFocus,
    width: u16,
    height: u16,
) -> (r: Panel)
    ensures
        r@ == alias_list(
            items.deep_view(),
            selected as int,
            scroll_offset as int,
            focus,
            width as int,
            height as int,
        ),
{
    let focused = match focus {
        PanelFocus::List => true,
        PanelFocus::Detail => false,
    };
    let visible_height = inner(height) as usize;
    let panel_width = inner(width);
    let mut lines: Vec<Vec<Span>> = Vec::new();
    let ghost all = items.deep_view();
    if items.len() == 0 || visible_height == 0 {
        let mut line: Vec<Span> = Vec::new();
        line.push(span("  No aliases found", fg(help_fg())));
        let ghost hint = line.deep_view();
        assert(hint =~= seq![styled("  No aliases found"@, colored(help_fg()))]);
        lines.push(line);
        assert(lines.deep_view() =~= seq![hint]);
    } else {
        let end: usize = if scroll_offset < items.len() && visible_height < items.len()
            - scroll_offset {
            scroll_offset + visible_height
        } else {
            items.len()
        };
        let mut i: usize = scroll_offset;
        while i < end
            invariant
                scroll_offset <= i,
                i <= end || (end < scroll_offset && i == scroll_offset),
                end <= items.len(),
                all == items.deep_view(),
                lines.deep_view() == item_rows(
                    all,
                    selected as int,
                    panel_width as int,
                    scroll_offset as int,
                    i as int,
                ),
            decreases end - i,
        {
            let row = render_item(&items[i], i == selected, panel_width);
            lines.push(row);
            i += 1;
        }
    }
    Panel { title: Some(" Aliases ".to_owned()), border: border_style(focused), lines, wrap: false }
}

} // verus!
