//! The partition of the screen into panels.
//!
//! The sizes are worked out by the constraint solver of `ratatui`.

use ratatui::layout::{Constraint, Flex, Layout, Rect};
use vstd::prelude::*;

verus! {

/// A rectangle of the screen, in cells.
#[derive(Debug, Clone, Copy, PartialEq, Eq, Structural)]
pub struct Area {
    pub x: u16,
    pub y: u16,
    pub width: u16,
    pub height: u16,
}

/// The axis along which an area is split.
#[derive(Debug, Clone, Copy, PartialEq, Eq, Structural)]
pub enum Axis {
    Horizontal,
    Vertical,
}

/// What is asked of the size of one part of a split.
#[derive(Debug, Clone, Copy, PartialEq, Eq, Structural)]
pub enum Sizing {
    /// Exactly so many cells.
    Length(u16),
    /// At least so many cells.
    Min(u16),
    /// So many hundredths of the whole.
    Percentage(u16),
}

/// Where the parts go when they do not fill the whole.
#[derive(Debug, Clone, Copy, PartialEq, Eq, Structural)]
pub enum Placement {
    Start,
    Center,
}

/// The areas of the four panels.
#[derive(Debug, Clone, Copy, PartialEq, Eq, Structural)]
pub struct AppLayout {
    pub search_bar: Area,
    pub alias_list: Area,
    pub detail_panel: Area,
    pub help_bar: Area,
}

/// Whether `part` lies in `area` as a part of a split of `area` along `axis`
/// does: it spans `area` across the axis, and along the axis it lies within
/// `area`. A part of a vertical split has the left edge and the width of the
/// whole, and its rows are rows of the whole; a part of a horizontal split
/// has the top edge and the height of the whole, and its columns are columns
/// of the whole.
pub open spec fn spans(part: Area, area: Area, axis: Axis) -> bool {
    match axis {
        Axis::Vertical => {
            &&& part.x == area.x
            &&& part.width == area.width
            &&& area.y <= part.y
            &&& part.y + part.height <= area.y + area.height
        },
        Axis::Horizontal => {
            &&& part.y == area.y
            &&& part.height == area.height
            &&& area.x <= part.x
            &&& part.x + part.width <= area.x + area.width
        },
    }
}

/// Whether `part` lies within `area`.
pub open spec fn within(part: Area, area: Area) -> bool {
    &&& area.x <= part.x
    &&& part.x + part.width <= area.x + area.width
    &&& area.y <= part.y
    &&& part.y + part.height <= area.y + area.height
}

/// Where `area` begins along `axis`.
pub open spec fn start_of(area: Area, axis: Axis) -> int {
    match axis {
        Axis::Vertical => area.y as int,
        Axis::Horizontal => area.x as int,
    }
}

/// The cells that `area` has along `axis`.
pub open spec fn length_of(area: Area, axis: Axis) -> int {
    match axis {
        Axis::Vertical => area.height as int,
        Axis::Horizontal => area.width as int,
    }
}

/// Where `area` ends along `axis`.
pub open spec fn end_of(area: Area, axis: Axis) -> int {
    start_of(area, axis) + length_of(area, axis)
}

/// What a size asks for, in hundredths of a cell, of an area of `length`
/// cells: a length and a minimum ask for their cells, a percentage for so
/// many hundredths of the area.
pub open spec fn asked(size: Sizing, length: int) -> int {
    match size {
        Sizing::Length(n) => 100 * n,
        Sizing::Min(n) => 100 * n,
        Sizing::Percentage(p) => p * length,
    }
}

/// What the sizes ask for together, in hundredths of a cell.
pub open spec fn asked_sum(sizes: Seq<Sizing>, length: int) -> int
    decreases sizes.len(),
{
    if sizes.len() == 0 {
        0
    } else {
        asked_sum(sizes.drop_last(), length) + asked(sizes.last(), length)
    }
}

/// Whether one of the sizes is a minimum.
pub open spec fn has_minimum(sizes: Seq<Sizing>) -> bool {
    exists|i: int| 0 <= i < sizes.len() && #[trigger] sizes[i] is Min
}

/// Whether the sizes fit into `area` along `axis`: together they ask for no
/// more than the area has. The area must end at a coordinate that 16 bits
/// hold, and a minimum must be one that 15 bits hold: beyond these the solver
/// is handed other numbers than were asked for.
pub open spec fn fit(sizes: Seq<Sizing>, area: Area, axis: Axis) -> bool {
    &&& end_of(area, axis) <= u16::MAX
    &&& asked_sum(sizes, length_of(area, axis)) <= 100 * length_of(area, axis)
    &&& forall|i: int|
        0 <= i < sizes.len() ==> match #[trigger] sizes[i] {
            Sizing::Min(n) => n <= i16::MAX,
            _ => true,
        }
}

/// The cell nearest to a position given in hundredths of a cell; a position
/// half-way between two cells goes to the later one.
pub open spec fn nearest_cell(hundredths: int) -> int {
    (hundredths + 50) / 100
}

/// Whether `part` has along `axis` the size that was asked of it: a length
/// has its cells, a minimum at least its cells, and a percentage its
/// hundredths of `area`, rounded to a cell one way or the other.
pub open spec fn meets(part: Area, size: Sizing, area: Area, axis: Axis) -> bool {
    let got = length_of(part, axis);
    let whole = length_of(area, axis);
    match size {
        Sizing::Length(n) => got == n,
        Sizing::Min(n) => got >= n,
        Sizing::Percentage(p) => p * whole - 100 < 100 * got < p * whole + 100,
    }
}

/// Whether parts that fit stand where `placement` puts them.
///
/// From the start, the first part begins where the area begins, and each
/// other part where the one before it ends. Where a size is a minimum, the
/// parts fill the area. Where none is, each part ends where the sizes up to
/// it add up to, at the nearest cell.
///
/// In the middle, the room before the first part and the room behind the last
/// differ by one cell at most.
pub open spec fn placed(
    parts: Seq<Area>,
    area: Area,
    axis: Axis,
    sizes: Seq<Sizing>,
    placement: Placement,
) -> bool {
    match placement {
        Placement::Start => {
            &&& start_of(parts[0], axis) == start_of(area, axis)
            &&& forall|i: int|
                0 < i < parts.len() ==> start_of(#[trigger] parts[i], axis) == end_of(
                    parts[i - 1],
                    axis,
                )
            &&& has_minimum(sizes) ==> end_of(parts.last(), axis) == end_of(area, axis)
            &&& !has_minimum(sizes) ==> forall|i: int|
                0 <= i < parts.len() ==> end_of(#[trigger] parts[i], axis) == start_of(area, axis)
                    + nearest_cell(asked_sum(sizes.take(i + 1), length_of(area, axis)))
        },
        Placement::Center => {
            let before = start_of(parts[0], axis) - start_of(area, axis);
            let behind = end_of(area, axis) - end_of(parts.last(), axis);
            -1 <= before - behind <= 1
        },
    }
}

/// Whether `parts` may be the parts of a split of `area` along `axis` for the
/// sizes `sizes`, placed by `placement`: there is one part for each size, and
/// each spans `area`; where the sizes fit, each part has the size asked of it,
/// and the parts stand where the placement puts them.
pub open spec fn is_split(
    parts: Seq<Area>,
    area: Area,
    axis: Axis,
    sizes: Seq<Sizing>,
    placement: Placement,
) -> bool {
    &&& parts.len() == sizes.len()
    &&& forall|i: int| 0 <= i < parts.len() ==> spans(#[trigger] parts[i], area, axis)
    &&& fit(sizes, area, axis) && parts.len() > 0 ==> {
        &&& forall|i: int|
            0 <= i < parts.len() ==> meets(#[trigger] parts[i], sizes[i], area, axis)
        &&& placed(parts, area, axis, sizes, placement)
    }
}

/// `ratatui::layout::Layout::split`, for a layout without margin or spacing.
///
/// For every area the solver gives one rectangle for each constraint, in
/// their order. Each spans the area across the axis of the split, and lies
/// within the area along it: the solver must keep every edge between the two
/// edges of the area, and the start of a part before its end. These
/// constraints can be met for every area, so the call does not fail.
///
/// Where the sizes fit, the constraints that ask for them can all be met, and
/// each is stronger than those that let a part or the room around the parts
/// grow. So the parts have the sizes that `ratatui` documents for `Length`,
/// `Min` and `Percentage`; with `Flex::Start` they follow one another from
/// the start of the area, and a `Min` part takes the room that is left; with
/// `Flex::Center` the room before and behind the parts is the same. The
/// solver's positions are rounded to the nearest cell, a half upward.
///
/// Where the sizes do not fit, nothing more is claimed: `ratatui` documents
/// that the result may then be one of several.
#[verifier::external_body]
fn split(area: Area, axis: Axis, sizes: &Vec<Sizing>, placement: Placement) -> (parts: Vec<Area>)
    ensures
        is_split(parts@, area, axis, sizes@, placement),
{
    let wanted = sizes.iter().map(|s| match s {
        Sizing::Length(n) => Constraint::Length(*n),
        Sizing::Min(n) => Constraint::Min(*n),
        Sizing::Percentage(n) => Constraint::Percentage(*n),
    });
    let layout = match axis {
        Axis::Horizontal => Layout::horizontal(wanted),
        Axis::Vertical => Layout::vertical(wanted),
    };
    let flex = match placement { Placement::Start => Flex::Start, Placement::Center => Flex::Center };
    let Area { x, y, width, height } = area;
    let parts = layout.flex(flex).split(Rect { x, y, width, height });
    parts.iter().map(|&Rect { x, y, width, height }| Area { x, y, width, height }).collect()
}

/// The area without anything in it.
pub open spec fn no_area() -> Area {
    Area { x: 0, y: 0, width: 0, height: 0 }
}

/// The part at position `i`, or the empty area where there is none.
pub open spec fn part_at(parts: Seq<Area>, i: int) -> Area {
    if 0 <= i < parts.len() {
        parts[i]
    } else {
        no_area()
    }
}

fn part(parts: &Vec<Area>, i: usize) -> (r: Area)
    ensures
        r == part_at(parts@, i as int),
{
    if i < parts.len() {
        parts[i]
    } else {
        Area { x: 0, y: 0, width: 0, height: 0 }
    }
}

/// The layout that the two splits of the screen give: the rows are the search
/// bar, the middle band and the help bar; the columns of the middle band are
/// the list and the detail panel.
pub open spec fn layout_of(rows: Seq<Area>, columns: Seq<Area>) -> AppLayout {
    AppLayout {
        search_bar: part_at(rows, 0),
        alias_list: part_at(columns, 0),
        detail_panel: part_at(columns, 1),
        help_bar: part_at(rows, 2),
    }
}

/// Puts the layout together from the two splits of the screen.
pub fn assemble_layout(rows: &Vec<Area>, columns: &Vec<Area>) -> (r: AppLayout)
    ensures
        r == layout_of(rows@, columns@),
{
    AppLayout {
        search_bar: part(rows, 0),
        alias_list: part(columns, 0),
        detail_panel: part(columns, 1),
        help_bar: part(rows, 2),
    }
}

/// The sizes asked of the rows of the screen: three rows for the search bar,
/// at least five for the middle band, two for the help bar.
pub open spec fn row_sizes() -> Seq<Sizing> {
    seq![Sizing::Length(3), Sizing::Min(5), Sizing::Length(2)]
}

/// The sizes asked of the columns of the middle band: 45 hundredths for the
/// list, 55 for the detail panel.
pub open spec fn column_sizes() -> Seq<Sizing> {
    seq![Sizing::Percentage(45), Sizing::Percentage(55)]
}

/// The sizes asked of the rows of the screen.
pub fn rows_wanted() -> (r: Vec<Sizing>)
    ensures
        r@ == row_sizes(),
{
    let mut sizes: Vec<Sizing> = Vec::new();
    sizes.push(Sizing::Length(3));
    sizes.push(Sizing::Min(5));
    sizes.push(Sizing::Length(2));
    sizes
}

/// The sizes asked of the columns of the middle band.
pub fn columns_wanted() -> (r: Vec<Sizing>)
    ensures
        r@ == column_sizes(),
{
    let mut sizes: Vec<Sizing> = Vec::new();
    sizes.push(Sizing::Percentage(45));
    sizes.push(Sizing::Percentage(55));
    sizes
}

/// Whether `layout` may be the layout of a screen of the area `area`: the
/// screen is split into rows for [`row_sizes`], the second of them into
/// columns for [`column_sizes`], both from the start, and the panels are the
/// parts as [`layout_of`] assigns them.
pub open spec fn lays_out(layout: AppLayout, area: Area) -> bool {
    exists|rows: Seq<Area>, columns: Seq<Area>|
        is_split(rows, area, Axis::Vertical, row_sizes(), Placement::Start) && is_split(
            columns,
            rows[1],
            Axis::Horizontal,
            column_sizes(),
            Placement::Start,
        ) && layout == #[trigger] layout_of(rows, columns)
}

/// Whether the panels of `layout` have their places on a screen of the area
/// `area`.
///
/// On every screen the search bar and the help bar span the screen from left
/// to right, the list and the detail panel stand at one height, and every
/// panel lies within the screen.
///
/// The list begins at the left edge and has 45 hundredths of the width, at
/// the nearest cell; the detail panel follows it and has the rest.
///
/// On a screen of ten rows or more, the search bar has the first three rows,
/// the help bar the last two, and the list and the detail panel the rows
/// between them.
///
/// The sizes are stated of a screen that ends at coordinates that 16 bits
/// hold.
pub open spec fn is_partition(layout: AppLayout, area: Area) -> bool {
    &&& spans(layout.search_bar, area, Axis::Vertical)
    &&& spans(layout.help_bar, area, Axis::Vertical)
    &&& layout.alias_list.y == layout.detail_panel.y
    &&& layout.alias_list.height == layout.detail_panel.height
    &&& within(layout.search_bar, area)
    &&& within(layout.alias_list, area)
    &&& within(layout.detail_panel, area)
    &&& within(layout.help_bar, area)
    &&& area.x + area.width <= u16::MAX ==> {
        &&& layout.alias_list.x == area.x
        &&& layout.alias_list.width == nearest_cell(45 * area.width)
        &&& layout.detail_panel.x == layout.alias_list.x + layout.alias_list.width
        &&& layout.alias_list.width + layout.detail_panel.width == area.width
    }
    &&& area.y + area.height <= u16::MAX && area.height >= 10 ==> {
        &&& layout.search_bar.y == area.y
        &&& layout.search_bar.height == 3
        &&& layout.alias_list.y == area.y + 3
        &&& layout.alias_list.height == area.height - 5
        &&& layout.help_bar.y == area.y + area.height - 2
        &&& layout.help_bar.height == 2
    }
}

/// A single size asks for what it asks for.
proof fn lemma_asked_alone(size: Sizing, length: int)
    ensures
        asked_sum(seq![size], length) == asked(size, length),
{
    reveal_with_fuel(asked_sum, 2);
    assert(seq![size].drop_last() =~= Seq::<Sizing>::empty());
}

/// What the rows of the screen ask for.
proof fn lemma_row_sizes(length: int)
    ensures
        asked_sum(row_sizes(), length) == 1000,
        has_minimum(row_sizes()),
{
    let two = seq![Sizing::Length(3), Sizing::Min(5)];
    let one = seq![Sizing::Length(3)];
    assert(row_sizes().drop_last() =~= two);
    assert(two.drop_last() =~= one);
    lemma_asked_alone(Sizing::Length(3), length);
    assert(asked_sum(two, length) == 800);
    assert(row_sizes()[1] is Min);
}

/// What the columns of the middle band ask for.
proof fn lemma_column_sizes(length: int)
    ensures
        asked_sum(column_sizes().take(1), length) == 45 * length,
        asked_sum(column_sizes().take(2), length) == 100 * length,
        asked_sum(column_sizes(), length) == 100 * length,
        !has_minimum(column_sizes()),
{
    let one = seq![Sizing::Percentage(45)];
    assert(column_sizes().take(1) =~= one);
    assert(column_sizes().take(2) =~= column_sizes());
    assert(column_sizes().drop_last() =~= one);
    lemma_asked_alone(Sizing::Percentage(45), length);
}

/// In a layout of a screen the panels have their places.
pub proof fn lemma_layout_is_partition(layout: AppLayout, area: Area)
    requires
        lays_out(layout, area),
    ensures
        is_partition(layout, area),
{
    let (rows, columns) = choose|rows: Seq<Area>, columns: Seq<Area>|
        is_split(rows, area, Axis::Vertical, row_sizes(), Placement::Start) && is_split(
            columns,
            rows[1],
            Axis::Horizontal,
            column_sizes(),
            Placement::Start,
        ) && layout == #[trigger] layout_of(rows, columns);
    let band = rows[1];
    assert(spans(rows[0], area, Axis::Vertical));
    assert(spans(band, area, Axis::Vertical));
    assert(spans(rows[2], area, Axis::Vertical));
    assert(spans(columns[0], band, Axis::Horizontal));
    assert(spans(columns[1], band, Axis::Horizontal));
    lemma_row_sizes(area.height as int);
    lemma_column_sizes(band.width as int);
    if area.x + area.width <= u16::MAX {
        assert(fit(column_sizes(), band, Axis::Horizontal));
        assert(placed(columns, band, Axis::Horizontal, column_sizes(), Placement::Start));
        assert(end_of(columns[0], Axis::Horizontal) == area.x + nearest_cell(45 * area.width));
        assert(end_of(columns[1], Axis::Horizontal) == area.x + nearest_cell(100 * area.width));
        assert(start_of(columns[1], Axis::Horizontal) == end_of(columns[0], Axis::Horizontal));
    }
    if area.y + area.height <= u16::MAX && area.height >= 10 {
        assert(fit(row_sizes(), area, Axis::Vertical));
        assert(meets(rows[0], row_sizes()[0], area, Axis::Vertical));
        assert(meets(rows[2], row_sizes()[2], area, Axis::Vertical));
        assert(placed(rows, area, Axis::Vertical, row_sizes(), Placement::Start));
        assert(start_of(rows[1], Axis::Vertical) == end_of(rows[0], Axis::Vertical));
        assert(start_of(rows[2], Axis::Vertical) == end_of(rows[1], Axis::Vertical));
    }
}

/// Partitions the screen: the search bar on top, the help bar at the bottom,
/// and between them the list to the left of the detail panel.
///
/// The screen is split into rows for [`row_sizes`], and the middle row into
/// columns for [`column_sizes`]. On a screen of ten rows or more the search
/// bar has three rows and the help bar two; the list has 45 hundredths of the
/// width and the detail panel the rest. On a smaller screen the heights are
/// what the solver makes of the sizes; the panels still lie within the
/// screen.
pub fn build_layout(area: Area) -> (layout: AppLayout)
    ensures
        lays_out(layout, area),
        is_partition(layout, area),
{
    // Vertical: search(3) | main area | help(2)
    let rows = split(area, Axis::Vertical, &rows_wanted(), Placement::Start);
    // Horizontal: list(45%) | detail(55%)
    let columns = split(rows[1], Axis::Horizontal, &columns_wanted(), Placement::Start);
    let layout = assemble_layout(&rows, &columns);
    proof {
        lemma_layout_is_partition(layout, area);
    }
    layout
}

/// The size asked of the band of a box of `height` rows.
pub open spec fn band_sizes(height: u16) -> Seq<Sizing> {
    seq![Sizing::Length(height)]
}

/// The size asked of a box of `percent_x` hundredths of the width.
pub open spec fn box_sizes(percent_x: u16) -> Seq<Sizing> {
    seq![Sizing::Percentage(percent_x)]
}

/// The size asked of the band of a box of `height` rows.
pub fn band_wanted(height: u16) -> (r: Vec<Sizing>)
    ensures
        r@ == band_sizes(height),
{
    let mut sizes: Vec<Sizing> = Vec::new();
    sizes.push(Sizing::Length(height));
    sizes
}

/// The size asked of a box of `percent_x` hundredths of the width.
pub fn box_wanted(percent_x: u16) -> (r: Vec<Sizing>)
    ensures
        r@ == box_sizes(percent_x),
{
    let mut sizes: Vec<Sizing> = Vec::new();
    sizes.push(Sizing::Percentage(percent_x));
    sizes
}

/// Whether `r` may be the box of `height` rows and `percent_x` hundredths of
/// the width in the middle of `area`: a band for [`band_sizes`] is cut out of
/// the middle of the rows of `area`, and the box for [`box_sizes`] out of the
/// middle of the columns of the band.
pub open spec fn is_centered(r: Area, percent_x: u16, height: u16, area: Area) -> bool {
    exists|bands: Seq<Area>, boxes: Seq<Area>|
        is_split(bands, area, Axis::Vertical, band_sizes(height), Placement::Center)
            && #[trigger] is_split(
            boxes,
            bands[0],
            Axis::Horizontal,
            box_sizes(percent_x),
            Placement::Center,
        ) && r == boxes[0]
}

/// Whether `r` stands in the middle of `area` along `axis`: the room before
/// it and the room behind it differ by one cell at most.
pub open spec fn in_the_middle(r: Area, area: Area, axis: Axis) -> bool {
    let before = start_of(r, axis) - start_of(area, axis);
    let behind = end_of(area, axis) - end_of(r, axis);
    -1 <= before - behind <= 1
}

/// Whether `r` is the box of `height` rows and `percent_x` hundredths of the
/// width in the middle of `area`.
///
/// The box lies within `area`. Where `area` has `height` rows, the box has
/// `height` rows and stands in the middle of the rows. Where `percent_x` is
/// no more than a hundred, the box has `percent_x` hundredths of the width,
/// rounded to a cell one way or the other, and stands in the middle of the
/// columns.
///
/// The sizes are stated of an area that ends at coordinates that 16 bits
/// hold.
pub open spec fn is_box(r: Area, percent_x: u16, height: u16, area: Area) -> bool {
    &&& within(r, area)
    &&& area.y + area.height <= u16::MAX && height <= area.height ==> {
        &&& r.height == height
        &&& in_the_middle(r, area, Axis::Vertical)
    }
    &&& area.x + area.width <= u16::MAX && percent_x <= 100 ==> {
        &&& percent_x * area.width - 100 < 100 * r.width < percent_x * area.width + 100
        &&& in_the_middle(r, area, Axis::Horizontal)
    }
}

/// A box that is cut out of the middle of an area is the box that was asked
/// for.
pub proof fn lemma_centered_is_box(r: Area, percent_x: u16, height: u16, area: Area)
    requires
        is_centered(r, percent_x, height, area),
    ensures
        is_box(r, percent_x, height, area),
{
    let (bands, boxes) = choose|bands: Seq<Area>, boxes: Seq<Area>|
        is_split(bands, area, Axis::Vertical, band_sizes(height), Placement::Center)
            && #[trigger] is_split(
            boxes,
            bands[0],
            Axis::Horizontal,
            box_sizes(percent_x),
            Placement::Center,
        ) && r == boxes[0];
    let band = bands[0];
    assert(spans(band, area, Axis::Vertical));
    assert(spans(r, band, Axis::Horizontal));
    lemma_asked_alone(Sizing::Length(height), area.height as int);
    lemma_asked_alone(Sizing::Percentage(percent_x), band.width as int);
    if area.y + area.height <= u16::MAX && height <= area.height {
        assert(fit(band_sizes(height), area, Axis::Vertical));
        assert(meets(band, band_sizes(height)[0], area, Axis::Vertical));
        assert(placed(bands, area, Axis::Vertical, band_sizes(height), Placement::Center));
    }
    if area.x + area.width <= u16::MAX && percent_x <= 100 {
        assert(percent_x * band.width <= 100 * band.width) by (nonlinear_arith)
            requires
                percent_x <= 100,
                band.width >= 0,
        ;
        assert(fit(box_sizes(percent_x), band, Axis::Horizontal));
        assert(meets(r, box_sizes(percent_x)[0], band, Axis::Horizontal));
        assert(placed(boxes, band, Axis::Horizontal, box_sizes(percent_x), Placement::Center));
    }
}

/// The area of a box of `height` rows and `percent_x` hundredths of the width
/// of `area`, in the middle of `area`: a band is cut out of the rows of
/// `area`, and the box out of the columns of the band.
pub fn centered_rect(percent_x: u16, height: u16, area: Area) -> (r: Area)
    ensures
        is_centered(r, percent_x, height, area),
        is_box(r, percent_x, height, area),
{
    let bands = split(area, Axis::Vertical, &band_wanted(height), Placement::Center);
    let boxes = split(bands[0], Axis::Horizontal, &box_wanted(percent_x), Placement::Center);
    proof {
        assert(is_split(
            boxes@,
            bands@[0],
            Axis::Horizontal,
            box_sizes(percent_x),
            Placement::Center,
        ));
        lemma_centered_is_box(boxes@[0], percent_x, height, area);
    }
    boxes[0]
}

} // verus!
