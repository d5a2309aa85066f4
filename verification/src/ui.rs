//! What is drawn: the partition of the screen, the palette, and the text of
//! every panel, as plain values that a terminal library can draw.

pub mod alias_list;
pub mod confirm_dialog;
pub mod detail_panel;
pub mod edit_form;
pub mod help_bar;
pub mod help_panel;
pub mod layout;
pub mod result_popup;
pub mod search_bar;
pub mod theme;

use crate::app::{AppSpec, AppState, InputMode};
use crate::ui::layout::{build_layout, is_partition, lays_out, AppLayout, Area};
use crate::ui::theme::TextStyle;
use vstd::prelude::*;

verus! {

/// A piece of text in one style.
#[derive(Debug, PartialEq, Eq)]
pub struct Span {
    pub text: String,
    pub style: TextStyle,
}

/// The mathematical model of a [`Span`].
pub struct SpanSpec {
    pub text: Seq<char>,
    pub style: TextStyle,
}

impl View for Span {
    type V = SpanSpec;

    open spec fn view(&self) -> SpanSpec {
        SpanSpec { text: self.text@, style: self.style }
    }
}

impl DeepView for Span {
    type V = SpanSpec;

    open spec fn deep_view(&self) -> SpanSpec {
        self@
    }
}

/// The piece of text `text` in the style `style`.
pub open spec fn styled(text: Seq<char>, style: TextStyle) -> SpanSpec {
    SpanSpec { text, style }
}

/// The line without text.
pub open spec fn blank_line() -> Seq<SpanSpec> {
    Seq::empty()
}

/// A piece of text in one style.
pub fn span(text: &str, style: TextStyle) -> (r: Span)
    ensures
        r@ == styled(text@, style),
{
    Span { text: text.to_owned(), style }
}

/// The text of a panel: its lines, each a row of spans, with the frame that
/// is drawn around them.
#[derive(Debug, PartialEq, Eq)]
pub struct Panel {
    /// The title on the frame; no frame is drawn where there is none.
    pub title: Option<String>,
    /// The style of the frame.
    pub border: TextStyle,
    pub lines: Vec<Vec<Span>>,
    /// Whether lines that are too long go on in the next row.
    pub wrap: bool,
}

/// The mathematical model of a [`Panel`].
pub struct PanelSpec {
    pub title: Option<Seq<char>>,
    pub border: TextStyle,
    pub lines: Seq<Seq<SpanSpec>>,
    pub wrap: bool,
}

impl View for Panel {
    type V = PanelSpec;

    open spec fn view(&self) -> PanelSpec {
        PanelSpec {
            title: self.title.deep_view(),
            border: self.border,
            lines: self.lines.deep_view(),
            wrap: self.wrap,
        }
    }
}

impl DeepView for Panel {
    type V = PanelSpec;

    open spec fn deep_view(&self) -> PanelSpec {
        self@
    }
}

/// The width or height that a frame leaves inside an area of `outer` cells.
pub open spec fn inner_size(outer: int) -> int {
    if outer < 2 {
        0
    } else {
        outer - 2
    }
}

/// The width or height that a frame leaves inside.
pub fn inner(outer: u16) -> (r: u16)
    ensures
        r == inner_size(outer as int),
{
    if outer < 2 {
        0
    } else {
        outer - 2
    }
}

/// The line of one span.
pub open spec fn one(a: SpanSpec) -> Seq<SpanSpec> {
    seq![a]
}

/// The line of two spans.
pub open spec fn two(a: SpanSpec, b: SpanSpec) -> Seq<SpanSpec> {
    seq![a, b]
}

/// Appends a line without text.
pub fn push_blank(lines: &mut Vec<Vec<Span>>)
    ensures
        final(lines).deep_view() == old(lines).deep_view().push(blank_line()),
{
    let line: Vec<Span> = Vec::new();
    assert(line.deep_view() =~= blank_line());
    lines.push(line);
}

/// Appends a line.
pub fn push_line(lines: &mut Vec<Vec<Span>>, line: Vec<Span>)
    ensures
        final(lines).deep_view() == old(lines).deep_view().push(line.deep_view()),
{
    lines.push(line);
}

/// Appends a line of one span.
pub fn push_one(lines: &mut Vec<Vec<Span>>, text: &str, style: TextStyle)
    ensures
        final(lines).deep_view() == old(lines).deep_view().push(one(styled(text@, style))),
{
    let mut line: Vec<Span> = Vec::new();
    line.push(span(text, style));
    assert(line.deep_view() =~= one(styled(text@, style)));
    push_line(lines, line);
}

/// Appends a line of two spans.
pub fn push_two(
    lines: &mut Vec<Vec<Span>>,
    text: &str,
    style: TextStyle,
    text2: &str,
    style2: TextStyle,
)
    ensures
        final(lines).deep_view() == old(lines).deep_view().push(
            two(styled(text@, style), styled(text2@, style2)),
        ),
{
    let mut line: Vec<Span> = Vec::new();
    line.push(span(text, style));
    line.push(span(text2, style2));
    assert(line.deep_view() =~= two(styled(text@, style), styled(text2@, style2)));
    push_line(lines, line);
}

/// Everything that is drawn in one frame: each panel with its place.
#[derive(Debug, PartialEq, Eq)]
pub struct Screen {
    pub layout: AppLayout,
    pub search_bar: Panel,
    pub alias_list: Panel,
    /// The panel to the right of the list; nothing is drawn there in a mode
    /// whose form or question is missing.
    pub detail_panel: Option<Panel>,
    pub help_bar: Panel,
    /// The box over everything else, with its place.
    pub popup: Option<(Area, Panel)>,
}

/// The panel to the right of the list: the form while an alias is edited, the
/// question while something awaits confirmation, the keys in help mode, and
/// the details of the selected alias otherwise.
pub open spec fn right_panel(app: AppSpec, width: int) -> Option<PanelSpec> {
    match app.mode {
        InputMode::Editing { .. } => match app.edit_state {
            Some(state) => Some(edit_form::edit_form(state)),
            None => None,
        },
        InputMode::Confirm => match app.pending_action {
            Some(pending) => Some(confirm_dialog::confirm_dialog(pending)),
            None => None,
        },
        InputMode::Help => Some(help_panel::help_panel()),
        _ => Some(
            detail_panel::detail_panel(
                app.selected_alias(),
                app.mode.spec_panel_focus(),
                width,
            ),
        ),
    }
}

/// The number that is shown for a count that may not fit the machine's word.
pub open spec fn shown_count(n: int) -> int {
    if n <= usize::MAX {
        n
    } else {
        usize::MAX as int
    }
}

/// Whether the box of `screen`, where it has one, stands in its place on a
/// screen of the area `whole`.
pub open spec fn popup_in_place(screen: Screen, whole: Area) -> bool {
    match screen.popup {
        Some(popup) => result_popup::is_popup_place(popup.0, whole),
        None => true,
    }
}

/// Whether `screen` is laid out for a screen of the area `area`: its panels
/// have the places that the partition of `area` gives them, and its box, where
/// it has one, stands in the middle of `area`.
pub open spec fn fits(screen: Screen, area: Area) -> bool {
    &&& lays_out(screen.layout, area)
    &&& is_partition(screen.layout, area)
    &&& popup_in_place(screen, area)
}

/// Whether `screen` shows the state `app` in the layout of `screen`.
pub open spec fn shows(screen: Screen, app: AppSpec) -> bool {
    let layout = screen.layout;
    &&& screen.search_bar@ == search_bar::search_bar(
        app.search_field(),
        app.search_query,
        app.mode.spec_is_search(),
        app.visible_alias_count(),
        shown_count(app.total_aliases()),
    )
    &&& screen.alias_list@ == alias_list::alias_list(
        app.visible_items,
        app.selected_index,
        app.list_scroll_offset,
        app.mode.spec_panel_focus(),
        layout.alias_list.width as int,
        layout.alias_list.height as int,
    )
    &&& screen.detail_panel.deep_view() == right_panel(app, layout.detail_panel.width as int)
    &&& screen.help_bar@ == help_bar::help_bar(app.mode, app.status_message)
    &&& match (app.result_message, screen.popup) {
        (Some(msg), Some(popup)) => popup.1@ == result_popup::result_popup(msg),
        (None, None) => true,
        _ => false,
    }
}

/// The text of every panel for a given layout. The scroll offset is first
/// moved so that the selection is in the window of the list.
pub fn render_in(app: &mut AppState, layout: AppLayout, whole: Area) -> (screen:
    Screen)
    ensures
        final(app)@ == old(app)@.scrolled(inner_size(layout.alias_list.height as int)),
        screen.layout == layout,
        shows(screen, final(app)@),
        popup_in_place(screen, whole),
{
    let list_inner_height = inner(layout.alias_list.height) as usize;
    app.compute_scroll(list_inner_height);
    let panel_focus = app.mode.panel_focus();
    let search_bar = search_bar::render(
        app.search_field(),
        app.search_display(),
        app.mode.is_search(),
        app.visible_alias_count(),
        app.total_aliases(),
    );
    let alias_list = alias_list::render(
        &app.visible_items,
        app.selected_index,
        app.list_scroll_offset,
        panel_focus,
        layout.alias_list.width,
        layout.alias_list.height,
    );
    // The panel to the right depends on the mode.
    let detail_panel = match app.mode {
        InputMode::Editing { field } => match &app.edit_state {
            Some(state) => Some(edit_form::render(state)),
            None => None,
        },
        InputMode::Confirm => match &app.pending_action {
            Some(pending) => Some(confirm_dialog::render(pending)),
            None => None,
        },
        InputMode::Help => Some(help_panel::render()),
        _ => Some(
            detail_panel::render(
                app.selected_alias(),
                panel_focus,
                layout.detail_panel.width,
            ),
        ),
    };
    let status = match &app.status_message {
        Some(s) => Some(s.as_str()),
        None => None,
    };
    let help_bar = help_bar::render(app.mode, status);
    let popup = match &app.result_message {
        Some(msg) => Some(result_popup::render(msg.as_str(), whole)),
        None => None,
    };
    Screen { layout, search_bar, alias_list, detail_panel, help_bar, popup }
}

/// The text of every panel for a screen of the area `area`, each panel in
/// the place that the partition of `area` gives it.
pub fn render(app: &mut AppState, area: Area) -> (screen: Screen)
    ensures
        final(app)@ == old(app)@.scrolled(inner_size(screen.layout.alias_list.height as int)),
        shows(screen, final(app)@),
        fits(screen, area),
{
    let layout = build_layout(area);
    render_in(app, layout, area)
}

} // verus!
