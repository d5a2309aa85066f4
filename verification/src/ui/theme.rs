//! The palette and the styles of the panels.

use vstd::prelude::*;

verus! {

/// A color of the palette.
#[derive(Debug, Clone, Copy, PartialEq, Eq, Structural)]
pub enum Color {
    /// The color that the terminal uses where none is set.
    Default,
    White,
    Rgb(u8, u8, u8),
}

/// How a piece of text is drawn.
#[derive(Debug, Clone, Copy, PartialEq, Eq, Structural)]
pub struct TextStyle {
    pub fg: Color,
    pub bg: Color,
    pub bold: bool,
}

/// The background of the selected row.
pub open spec fn selected_bg_spec() -> Color {
    Color::Rgb(60, 60, 100)
}

#[verifier::when_used_as_spec(selected_bg_spec)]
pub fn selected_bg() -> (r: Color)
    ensures
        r == selected_bg_spec(),
{
    Color::Rgb(60, 60, 100)
}

/// The foreground of the selected row.
pub open spec fn selected_fg_spec() -> Color {
    Color::White
}

#[verifier::when_used_as_spec(selected_fg_spec)]
pub fn selected_fg() -> (r: Color)
    ensures
        r == selected_fg_spec(),
{
    Color::White
}

/// The foreground of a group header.
pub open spec fn group_fg_spec() -> Color {
    Color::Rgb(120, 180, 255)
}

#[verifier::when_used_as_spec(group_fg_spec)]
pub fn group_fg() -> (r: Color)
    ensures
        r == group_fg_spec(),
{
    Color::Rgb(120, 180, 255)
}

/// The foreground of the name of an alias.
pub open spec fn alias_name_fg_spec() -> Color {
    Color::Rgb(200, 200, 100)
}

#[verifier::when_used_as_spec(alias_name_fg_spec)]
pub fn alias_name_fg() -> (r: Color)
    ensures
        r == alias_name_fg_spec(),
{
    Color::Rgb(200, 200, 100)
}

/// The foreground of the command of an alias.
pub open spec fn alias_cmd_fg_spec() -> Color {
    Color::Rgb(160, 160, 160)
}

#[verifier::when_used_as_spec(alias_cmd_fg_spec)]
pub fn alias_cmd_fg() -> (r: Color)
    ensures
        r == alias_cmd_fg_spec(),
{
    Color::Rgb(160, 160, 160)
}

/// The border of a panel without focus.
pub open spec fn border_color_spec() -> Color {
    Color::Rgb(80, 80, 120)
}

#[verifier::when_used_as_spec(border_color_spec)]
pub fn border_color() -> (r: Color)
    ensures
        r == border_color_spec(),
{
    Color::Rgb(80, 80, 120)
}

/// The border of the panel that has focus.
pub open spec fn border_focused_spec() -> Color {
    Color::Rgb(120, 140, 255)
}

#[verifier::when_used_as_spec(border_focused_spec)]
pub fn border_focused() -> (r: Color)
    ensures
        r == border_focused_spec(),
{
    Color::Rgb(120, 140, 255)
}

/// The accent: the cursor, the query, the keys.
pub open spec fn search_fg_spec() -> Color {
    Color::Rgb(255, 200, 100)
}

#[verifier::when_used_as_spec(search_fg_spec)]
pub fn search_fg() -> (r: Color)
    ensures
        r == search_fg_spec(),
{
    Color::Rgb(255, 200, 100)
}

/// The muted foreground of hints.
pub open spec fn help_fg_spec() -> Color {
    Color::Rgb(120, 120, 140)
}

#[verifier::when_used_as_spec(help_fg_spec)]
pub fn help_fg() -> (r: Color)
    ensures
        r == help_fg_spec(),
{
    Color::Rgb(120, 120, 140)
}

/// The foreground of a label.
pub open spec fn detail_label_fg_spec() -> Color {
    Color::Rgb(140, 140, 180)
}

#[verifier::when_used_as_spec(detail_label_fg_spec)]
pub fn detail_label_fg() -> (r: Color)
    ensures
        r == detail_label_fg_spec(),
{
    Color::Rgb(140, 140, 180)
}

/// The foreground of a value.
pub open spec fn detail_value_fg_spec() -> Color {
    Color::White
}

#[verifier::when_used_as_spec(detail_value_fg_spec)]
pub fn detail_value_fg() -> (r: Color)
    ensures
        r == detail_value_fg_spec(),
{
    Color::White
}

/// The style that sets nothing.
pub open spec fn plain() -> TextStyle {
    TextStyle { fg: Color::Default, bg: Color::Default, bold: false }
}

/// The style that sets the foreground color alone.
pub open spec fn colored(c: Color) -> TextStyle {
    TextStyle { fg: c, bg: Color::Default, bold: false }
}

/// The style that sets the foreground color and draws bold.
pub open spec fn bold_colored(c: Color) -> TextStyle {
    TextStyle { fg: c, bg: Color::Default, bold: true }
}

#[verifier::when_used_as_spec(plain)]
pub fn plain_style() -> (r: TextStyle)
    ensures
        r == plain(),
{
    TextStyle { fg: Color::Default, bg: Color::Default, bold: false }
}

#[verifier::when_used_as_spec(colored)]
pub fn fg(c: Color) -> (r: TextStyle)
    ensures
        r == colored(c),
{
    TextStyle { fg: c, bg: Color::Default, bold: false }
}

#[verifier::when_used_as_spec(bold_colored)]
pub fn bold_fg(c: Color) -> (r: TextStyle)
    ensures
        r == bold_colored(c),
{
    TextStyle { fg: c, bg: Color::Default, bold: true }
}

/// The style of a border: brighter where the panel has focus.
pub open spec fn border_style_spec(focused: bool) -> TextStyle {
    if focused {
        colored(border_focused())
    } else {
        colored(border_color())
    }
}

#[verifier::when_used_as_spec(border_style_spec)]
pub fn border_style(focused: bool) -> (r: TextStyle)
    ensures
        r == border_style_spec(focused),
{
    if focused {
        fg(border_focused())
    } else {
        fg(border_color())
    }
}

/// The style of the selected row: white on blue, bold.
pub open spec fn selected_style_spec() -> TextStyle {
    TextStyle { fg: selected_fg(), bg: selected_bg(), bold: true }
}

#[verifier::when_used_as_spec(selected_style_spec)]
pub fn selected_style() -> (r: TextStyle)
    ensures
        r == selected_style_spec(),
{
    TextStyle { fg: selected_fg(), bg: selected_bg(), bold: true }
}

/// The style of a group header.
pub open spec fn group_style_spec() -> TextStyle {
    bold_colored(group_fg())
}

#[verifier::when_used_as_spec(group_style_spec)]
pub fn group_style() -> (r: TextStyle)
    ensures
        r == group_style_spec(),
{
    bold_fg(group_fg())
}

/// The style of the name of an alias.
pub open spec fn alias_name_style_spec() -> TextStyle {
    colored(alias_name_fg())
}

#[verifier::when_used_as_spec(alias_name_style_spec)]
pub fn alias_name_style() -> (r: TextStyle)
    ensures
        r == alias_name_style_spec(),
{
    fg(alias_name_fg())
}

/// The style of the command of an alias.
pub open spec fn alias_cmd_style_spec() -> TextStyle {
    colored(alias_cmd_fg())
}

#[verifier::when_used_as_spec(alias_cmd_style_spec)]
pub fn alias_cmd_style() -> (r: TextStyle)
    ensures
        r == alias_cmd_style_spec(),
{
    fg(alias_cmd_fg())
}

} // verus!
