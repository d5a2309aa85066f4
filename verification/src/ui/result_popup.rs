//! The box that shows the result of a change.

use crate::text::concat2;
use crate::ui::{blank_line, one, push_blank, push_one, styled, Panel, PanelSpec, Span};
use crate::ui::layout::{centered_rect, is_box, is_centered, Area};
use crate::ui::theme::{
    border_style, border_style_spec, colored, detail_label_fg, detail_value_fg, fg,
};
use vstd::prelude::*;

verus! {

/// The hundredths of the width of the screen that the box takes.
pub const POPUP_PERCENT: u16 = 50;

/// The rows that the box takes.
pub const POPUP_HEIGHT: u16 = 7;

/// The box: the message, and how to go on.
pub open spec fn result_popup(message: Seq<char>) -> PanelSpec {
    PanelSpec {
        title: Some(" Result "@),
        border: border_style_spec(true),
        lines: seq![
            blank_line(),
            one(styled("  "@ + message, colored(detail_value_fg()))),
            blank_line(),
            blank_line(),
            one(styled("  Press any key to continue"@, colored(detail_label_fg()))),
        ],
        wrap: true,
    }
}

/// Whether `place` may be the place of the box on a screen of the area
/// `screen`: it is cut out of the middle of the screen for [`POPUP_HEIGHT`]
/// rows and [`POPUP_PERCENT`] hundredths of the width, and so is the box of
/// that size in the middle of the screen, as [`is_box`] says it.
pub open spec fn is_popup_place(place: Area, screen: Area) -> bool {
    &&& is_centered(place, POPUP_PERCENT, POPUP_HEIGHT, screen)
    &&& is_box(place, POPUP_PERCENT, POPUP_HEIGHT, screen)
}

/// The text of the box, and where on the screen it goes: in the middle, over
/// everything else. On a screen of seven rows or more the box has seven rows;
/// it has half the width of the screen.
pub fn render(message: &str, screen: Area) -> (r: (Area, Panel))
    ensures
        r.1@ == result_popup(message@),
        is_popup_place(r.0, screen),
{
    let area = centered_rect(POPUP_PERCENT, POPUP_HEIGHT, screen);
    let mut lines: Vec<Vec<Span>> = Vec::new();
    push_blank(&mut lines);
    push_one(&mut lines, concat2("  ", message).as_str(), fg(detail_value_fg()));
    push_blank(&mut lines);
    push_blank(&mut lines);
    push_one(&mut lines, "  Press any key to continue", fg(detail_label_fg()));
    assert(lines.deep_view() =~= result_popup(message@).lines);
    (area, Panel { title: Some(" Result ".to_owned()), border: border_style(true), lines, wrap: true })
}

} // verus!
