//! Where the parts of the dashboard stand on the screen.

use ratatui::layout::{Constraint, Direction, Layout};
use vstd::prelude::*;

verus! {

/// A rectangle of character cells.
#[derive(Debug, Clone, Copy, PartialEq, Eq, Structural)]
pub struct Rect {
    pub x: u16,
    pub y: u16,
    pub width: u16,
    pub height: u16,
}

/// How large a part of a split area should be.
#[derive(Debug, Clone, Copy, PartialEq, Eq, Structural)]
pub enum Size {
    Length(u16),
    Min(u16),
    Percentage(u16),
}

/// In which direction an area is split.
#[derive(Debug, Clone, Copy, PartialEq, Eq, Structural)]
pub enum Axis {
    Horizontal,
    Vertical,
}

/// `size`, cut so that a part which starts at `start` ends within the coordinates.
pub open spec fn within_limits(start: u16, size: u16) -> u16 {
    if start + size <= u16::MAX {
        size
    } else {
        (u16::MAX - start) as u16
    }
}

/// The rectangle of this place and size, its size cut to the coordinates.
pub open spec fn limited_rect(x: u16, y: u16, width: u16, height: u16) -> Rect {
    Rect { x, y, width: within_limits(x, width), height: within_limits(y, height) }
}

/// `ratatui::layout::Rect::new` keeps the place and cuts the size to the coordinates.
#[verifier::external_body]
pub(crate) fn new_rect(x: u16, y: u16, width: u16, height: u16) -> (rect: Rect)
    ensures
        rect == limited_rect(x, y, width, height),
{
    let area = ratatui::layout::Rect::new(x, y, width, height);
    Rect { x: area.x, y: area.y, width: area.width, height: area.height }
}

/// Where an area starts along `axis`.
pub open spec fn start_along(axis: Axis, area: Rect) -> int {
    match axis {
        Axis::Horizontal => area.x as int,
        Axis::Vertical => area.y as int,
    }
}

/// How long an area is along `axis`.
pub open spec fn length_along(axis: Axis, area: Rect) -> int {
    match axis {
        Axis::Horizontal => area.width as int,
        Axis::Vertical => area.height as int,
    }
}

/// How much of an area's length along `axis` is within the coordinates.
pub open spec fn extent(axis: Axis, area: Rect) -> int {
    match axis {
        Axis::Horizontal => within_limits(area.x, area.width) as int,
        Axis::Vertical => within_limits(area.y, area.height) as int,
    }
}

/// Whether `part` covers the cells of `area` from `from` up to `to` along `axis`, counted from
/// the start of the area.
pub open spec fn covers(axis: Axis, area: Rect, part: Rect, from: int, to: int) -> bool {
    start_along(axis, part) == start_along(axis, area) + from && length_along(axis, part) == to
        - from
}

/// What a size gets: its own length where that is fixed, else `rest`.
pub open spec fn share(size: Size, rest: int) -> int {
    match size {
        Size::Length(n) => n as int,
        _ => rest,
    }
}

/// What the sizes get together.
pub open spec fn shares(sizes: Seq<Size>, rest: int) -> int
    decreases sizes.len(),
{
    if sizes.len() == 0 {
        0
    } else {
        shares(sizes.drop_last(), rest) + share(sizes.last(), rest)
    }
}

/// Whether the sizes are fixed lengths around one minimum, and there is room for all of them.
pub open spec fn fit_around_minimum(sizes: Seq<Size>, length: int) -> bool {
    exists|m: int|
        0 <= m < sizes.len() && (#[trigger] sizes[m] matches Size::Min(n) && n + shares(sizes, 0)
            <= length) && forall|i: int|
            0 <= i < sizes.len() && i != m ==> #[trigger] sizes[i] is Length
}

/// The percentages of the sizes together.
pub open spec fn percent_total(sizes: Seq<Size>) -> int
    decreases sizes.len(),
{
    if sizes.len() == 0 {
        0
    } else {
        percent_total(sizes.drop_last()) + match sizes.last() {
            Size::Percentage(p) => p as int,
            _ => 0,
        }
    }
}

/// Whether the sizes are percentages that add up to the whole.
pub open spec fn are_percentages(sizes: Seq<Size>) -> bool {
    percent_total(sizes) == 100 && forall|i: int|
        0 <= i < sizes.len() ==> #[trigger] sizes[i] is Percentage
}

/// `percent` hundredths of `length`, to the nearest cell.
pub open spec fn percent_of(percent: int, length: int) -> int {
    (length * percent + 50) / 100
}

/// Whether `part` starts and ends within `area` along `axis`, as far as the coordinates reach.
pub open spec fn stays_within(axis: Axis, area: Rect, part: Rect) -> bool {
    start_along(axis, area) <= start_along(axis, part) && start_along(axis, part) + length_along(
        axis,
        part,
    ) <= start_along(axis, area) + extent(axis, area)
}

/// Whether `part` lies within `area` in both directions.
pub open spec fn is_inside(part: Rect, area: Rect) -> bool {
    &&& area.x <= part.x && part.x + part.width <= area.x + area.width
    &&& area.y <= part.y && part.y + part.height <= area.y + area.height
}

/// As many parts as an area is split into at most.
pub const MANY_PARTS: usize = 8;

/// Whether `parts` is a division of `area` along `axis` that the layout solver may come to
/// for these sizes.
pub uninterp spec fn may_split(area: Rect, axis: Axis, sizes: Seq<Size>, parts: Seq<Rect>) -> bool;

/// `ratatui::layout::Layout::split` gives one part for each size, leaves the other direction
/// as it is, and keeps each part within the area: it requires of its solver that every edge of
/// a part lies between the edges of the area, of which the far one ends with the coordinates.
///
/// Where all sizes can be met at once, they are, and the parts stand one after another: fixed
/// lengths are kept and the one minimum among them gets the rest, as wishes for a length count
/// for more than a part's wish to grow, and that for more than the wish for space behind the
/// last part; percentages of the whole end at the nearest cells. The claim is for a few sizes,
/// so that the rounding errors of the solver's floating-point numbers stay far below a cell.
///
/// Where not all sizes can be met, how long the parts are is left open: the solver then gives
/// up one of several wishes of the same strength, and walks hash maps that each process seeds
/// anew.
#[verifier::external_body]
pub(crate) fn split_area(area: Rect, axis: Axis, sizes: &Vec<Size>) -> (parts: Vec<Rect>)
    requires
        sizes@.len() <= MANY_PARTS,
    ensures
        may_split(area, axis, sizes@, parts@),
        parts@.len() == sizes@.len(),
        forall|i: int| 0 <= i < parts@.len() ==> stays_within(axis, area, #[trigger] parts@[i]),
        axis is Vertical ==> forall|i: int|
            0 <= i < parts@.len() ==> (#[trigger] parts@[i]).x == area.x && parts@[i].width
                == area.width,
        axis is Horizontal ==> forall|i: int|
            0 <= i < parts@.len() ==> (#[trigger] parts@[i]).y == area.y && parts@[i].height
                == area.height,
        fit_around_minimum(sizes@, extent(axis, area)) ==> forall|i: int|
            0 <= i < parts@.len() ==> covers(
                axis,
                area,
                #[trigger] parts@[i],
                shares(sizes@.take(i), extent(axis, area) - shares(sizes@, 0)),
                shares(sizes@.take(i + 1), extent(axis, area) - shares(sizes@, 0)),
            ),
        are_percentages(sizes@) ==> forall|i: int|
            0 <= i < parts@.len() ==> covers(
                axis,
                area,
                #[trigger] parts@[i],
                percent_of(percent_total(sizes@.take(i)), extent(axis, area)),
                percent_of(percent_total(sizes@.take(i + 1)), extent(axis, area)),
            ),
{
    let sizes = sizes.iter().map(|size| match size {
        Size::Length(n) => Constraint::Length(*n),
        Size::Min(n) => Constraint::Min(*n),
        Size::Percentage(n) => Constraint::Percentage(*n),
    });
    let direction = match axis {
        Axis::Horizontal => Direction::Horizontal,
        Axis::Vertical => Direction::Vertical,
    };
    let whole = ratatui::layout::Rect { x: area.x, y: area.y, width: area.width, height: area.height };
    let parts = Layout::default().direction(direction).constraints(sizes).split(whole);
    parts.iter().map(|p| Rect { x: p.x, y: p.y, width: p.width, height: p.height }).collect()
}

/// The areas of the dashboard's parts.
#[derive(Debug, Clone, Copy, PartialEq, Eq)]
pub struct DashboardAreas {
    pub header: Rect,
    pub metrics: Rect,
    pub projects: Rect,
    pub deck: Rect,
    pub commands: Rect,
}

/// The header above the metrics above the main part above the commands.
pub open spec fn row_layout() -> Seq<Size> {
    seq![Size::Length(3), Size::Length(5), Size::Min(10), Size::Length(3)]
}

/// The projects left of the operations deck.
pub open spec fn column_layout() -> Seq<Size> {
    seq![Size::Percentage(48), Size::Percentage(52)]
}

/// Five metrics side by side.
pub open spec fn metric_layout() -> Seq<Size> {
    Seq::new(5, |i: int| Size::Percentage(20))
}

/// The parts on the rows of the screen and the columns of its third row.
pub open spec fn placed(rows: Seq<Rect>, columns: Seq<Rect>) -> DashboardAreas {
    DashboardAreas {
        header: rows[0],
        metrics: rows[1],
        projects: columns[0],
        deck: columns[1],
        commands: rows[3],
    }
}

/// The parts on the rows of the screen and the columns of its third row.
pub fn place_parts(rows: &Vec<Rect>, columns: &Vec<Rect>) -> (areas: DashboardAreas)
    requires
        rows@.len() == 4,
        columns@.len() == 2,
    ensures
        areas == placed(rows@, columns@),
{
    DashboardAreas {
        header: rows[0],
        metrics: rows[1],
        projects: columns[0],
        deck: columns[1],
        commands: rows[3],
    }
}

proof fn row_layout_fits(length: int)
    ensures
        shares(row_layout(), 0) == 11,
        length >= 21 ==> fit_around_minimum(row_layout(), length),
        shares(row_layout().take(0), length - 11) == 0,
        shares(row_layout().take(1), length - 11) == 3,
        shares(row_layout().take(2), length - 11) == 8,
        shares(row_layout().take(3), length - 11) == length - 3,
        shares(row_layout().take(4), length - 11) == length,
{
    let sizes = row_layout();
    assert(sizes.take(4) == sizes);
    assert(sizes.take(4).drop_last() == sizes.take(3));
    assert(sizes.take(3).drop_last() == sizes.take(2));
    assert(sizes.take(2).drop_last() == sizes.take(1));
    assert(sizes.take(1).drop_last() == sizes.take(0));
    assert(shares(sizes.take(0), 0) == 0);
    assert(shares(sizes.take(1), 0) == 3);
    assert(shares(sizes.take(2), 0) == 8);
    assert(shares(sizes.take(3), 0) == 8);
    assert(sizes[2] == Size::Min(10));
}

proof fn column_layout_is_whole()
    ensures
        are_percentages(column_layout()),
        percent_total(column_layout().take(0)) == 0,
        percent_total(column_layout().take(1)) == 48,
        percent_total(column_layout().take(2)) == 100,
{
    let sizes = column_layout();
    assert(sizes.take(2) == sizes);
    assert(sizes.take(2).drop_last() == sizes.take(1));
    assert(sizes.take(1).drop_last() == sizes.take(0));
    assert(percent_total(sizes.take(0)) == 0);
    assert(percent_total(sizes.take(1)) == 48);
}

/// The number of rows from which on all rows of the dashboard have the height that they ask
/// for.
pub const FULL_HEIGHT: u16 = 21;

/// The areas on a screen of full height: three rows for the header, five for the metrics and
/// three for the commands, and the rest for the projects and the deck.
pub open spec fn full_areas(screen: Rect) -> DashboardAreas {
    let (wide, high) = (extent(Axis::Horizontal, screen), extent(Axis::Vertical, screen));
    let left = percent_of(48, wide);
    let row = |from: int, height: int|
        Rect { y: (screen.y + from) as u16, height: height as u16, ..screen };
    let main = row(8, high - 11);
    DashboardAreas {
        header: row(0, 3),
        metrics: row(3, 5),
        projects: Rect { width: left as u16, ..main },
        deck: Rect { x: (screen.x + left) as u16, width: (wide - left) as u16, ..main },
        commands: row(high - 3, 3),
    }
}

/// The areas of the dashboard's parts on a screen.
///
/// All of them lie on the screen. The rows keep the screen's left edge and width. The projects
/// take 48 hundredths of the width, to the nearest cell, and the deck next to them takes the
/// rest. On a screen of full height the parts stand one below the other, each as high as it
/// asks for; on a lower one it is the layout solver's choice how high they are.
pub fn dashboard_areas(screen: Rect) -> (areas: DashboardAreas)
    ensures
        exists|rows: Seq<Rect>, columns: Seq<Rect>|
            #![trigger placed(rows, columns)]
            may_split(screen, Axis::Vertical, row_layout(), rows) && may_split(
                rows[2],
                Axis::Horizontal,
                column_layout(),
                columns,
            ) && areas == placed(rows, columns),
        areas.header.x == screen.x && areas.header.width == screen.width,
        areas.metrics.x == screen.x && areas.metrics.width == screen.width,
        areas.commands.x == screen.x && areas.commands.width == screen.width,
        areas.projects.y == areas.deck.y && areas.projects.height == areas.deck.height,
        extent(Axis::Vertical, screen) >= FULL_HEIGHT ==> areas == full_areas(screen),
        covers(
            Axis::Horizontal,
            screen,
            areas.projects,
            0,
            percent_of(48, extent(Axis::Horizontal, screen)),
        ),
        covers(
            Axis::Horizontal,
            screen,
            areas.deck,
            percent_of(48, extent(Axis::Horizontal, screen)),
            extent(Axis::Horizontal, screen),
        ),
        is_inside(areas.header, screen) && stays_within(Axis::Vertical, screen, areas.header),
        is_inside(areas.metrics, screen) && stays_within(Axis::Vertical, screen, areas.metrics),
        is_inside(areas.projects, screen) && stays_within(Axis::Vertical, screen, areas.projects)
            && stays_within(Axis::Horizontal, screen, areas.projects),
        is_inside(areas.deck, screen) && stays_within(Axis::Vertical, screen, areas.deck)
            && stays_within(Axis::Horizontal, screen, areas.deck),
        is_inside(areas.commands, screen) && stays_within(Axis::Vertical, screen, areas.commands),
{
    let sizes = vec![Size::Length(3), Size::Length(5), Size::Min(10), Size::Length(3)];
    assert(sizes@ == row_layout());
    let rows = split_area(screen, Axis::Vertical, &sizes);
    let sizes = vec![Size::Percentage(48), Size::Percentage(52)];
    assert(sizes@ == column_layout());
    let columns = split_area(rows[2], Axis::Horizontal, &sizes);
    proof {
        row_layout_fits(extent(Axis::Vertical, screen));
        column_layout_is_whole();
    }
    place_parts(&rows, &columns)
}

proof fn metric_layout_is_even(i: int)
    requires
        0 <= i <= 5,
    ensures
        percent_total(metric_layout().take(i)) == 20 * i,
    decreases i,
{
    let sizes = metric_layout();
    if i > 0 {
        metric_layout_is_even(i - 1);
        assert(sizes.take(i).drop_last() == sizes.take(i - 1));
        assert(sizes.take(i).last() == sizes[i - 1]);
    }
}

/// The areas of the five metrics in the metric bar: each as high as the bar and, to the nearest
/// cell, a fifth of it wide, one beside the other.
pub fn metric_areas(bar: Rect) -> (areas: Vec<Rect>)
    ensures
        may_split(bar, Axis::Horizontal, metric_layout(), areas@),
        areas@.len() == 5,
        forall|i: int|
            0 <= i < 5 ==> (#[trigger] areas@[i]).y == bar.y && areas@[i].height == bar.height,
        forall|i: int|
            0 <= i < 5 ==> covers(
                Axis::Horizontal,
                bar,
                #[trigger] areas@[i],
                percent_of(20 * i, extent(Axis::Horizontal, bar)),
                percent_of(20 * (i + 1), extent(Axis::Horizontal, bar)),
            ),
        forall|i: int|
            0 <= i < 5 ==> is_inside(#[trigger] areas@[i], bar) && stays_within(
                Axis::Horizontal,
                bar,
                areas@[i],
            ),
{
    let sizes = vec![
        Size::Percentage(20),
        Size::Percentage(20),
        Size::Percentage(20),
        Size::Percentage(20),
        Size::Percentage(20),
    ];
    assert(sizes@ == metric_layout());
    proof {
        assert forall|i: int| 0 <= i <= 5 implies percent_total(#[trigger] sizes@.take(i)) == 20
            * i by {
            metric_layout_is_even(i);
        }
        assert(sizes@.take(5) == sizes@);
    }
    split_area(bar, Axis::Horizontal, &sizes)
}

} // verus!
