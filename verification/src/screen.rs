//! The regions of the screen: the board in the middle, a footer of three
//! rows below it, margins around both.
//!
//! The terminal is cut into three columns of equal share, and the middle
//! column into a top margin, the board's region, the footer and a bottom
//! margin. The cuts are made by the constraint solver of `ratatui`, whose
//! choice among the layouts that meet the constraints is its own. What it
//! chose is checked before anything is drawn: regions that do not lie on
//! the terminal are not used.

use vstd::prelude::*;
use ratatui::layout;
use crate::geometry::Rect;

verus! {

/// Share of the width that each of the three columns asks for, in percent.
pub const COLUMN_PERCENT: u16 = 33;

/// Share of the height that each margin asks for, in percent.
pub const MARGIN_PERCENT: u16 = 20;

/// Share of the height that the board's region asks for, in percent.
pub const GRID_PERCENT: u16 = 60;

/// Height of the footer.
pub const FOOTER_ROWS: u16 = 3;

/// The direction in which an area is cut.
#[derive(Clone, Copy, Debug, PartialEq, Eq, Structural)]
pub enum Direction {
    /// Parts side by side.
    Horizontal,
    /// Parts one above the other.
    Vertical,
}

/// What a part of a cut asks for.
#[derive(Clone, Copy, Debug, PartialEq, Eq, Structural)]
pub enum Constraint {
    /// A share of the area, in percent.
    Percentage(u16),
    /// A number of columns or rows.
    Length(u16),
}

/// The two regions that are drawn on.
#[derive(Clone, Copy, Debug, PartialEq, Eq, Structural)]
pub struct Regions {
    /// Where the board goes.
    pub grid: Rect,
    /// Where the help line goes.
    pub footer: Rect,
}

/// `ratatui::layout::Layout::split`, for a layout made by `Layout::new`
/// from the direction and the constraints: no margin, no spacing, parts
/// packed from the start.
///
/// Trusted: the parts are a cut of the area as `is_cut` describes one.
/// There are as many parts as constraints, and across the direction of
/// the cut every part has the position and the size of the area.
///
/// Where the parts begin and end along the cut is the solver's choice: it
/// may differ from one call to the next, so it has no name, and nothing
/// is claimed of it. The callers test what they were given before they
/// use it.
#[verifier::external_body]
fn split(direction: Direction, constraints: &Vec<Constraint>, area: Rect) -> (parts: Vec<Rect>)
    ensures
        is_cut(direction, constraints@, area, parts@),
{
    let asked = constraints.iter().map(|c| match *c {
        Constraint::Percentage(p) => layout::Constraint::Percentage(p),
        Constraint::Length(n) => layout::Constraint::Length(n),
    });
    let along = match direction {
        Direction::Horizontal => layout::Direction::Horizontal,
        Direction::Vertical => layout::Direction::Vertical,
    };
    let whole = layout::Rect { x: area.x, y: area.y, width: area.width, height: area.height };
    let parts = layout::Layout::new(along, asked).split(whole);
    parts.iter().map(|r| Rect { x: r.x, y: r.y, width: r.width, height: r.height }).collect()
}

impl Regions {
    /// Whether the regions can be drawn on `terminal`: both lie on it, and
    /// the footer begins below the board's region.
    pub open spec fn on_terminal(self, terminal: Rect) -> bool {
        &&& terminal.encloses(self.grid)
        &&& terminal.encloses(self.footer)
        &&& self.grid.bottom() <= self.footer.top()
    }

    /// Whether the regions can be drawn on `terminal`.
    pub fn lies_on(&self, terminal: &Rect) -> (yes: bool)
        ensures
            yes == self.on_terminal(*terminal),
    {
        terminal.contains(&self.grid) && terminal.contains(&self.footer) && self.grid.y as u32
            + self.grid.height as u32 <= self.footer.y as u32
    }
}

/// The regions as they were found, if they can be drawn on `terminal`;
/// none otherwise.
pub fn accept(terminal: Rect, found: Regions) -> (regions: Option<Regions>)
    ensures
        found.on_terminal(terminal) ==> regions == Some(found),
        !found.on_terminal(terminal) ==> regions.is_none(),
{
    if found.lies_on(&terminal) {
        Some(found)
    } else {
        None
    }
}

/// Cuts the terminal into its regions, as `may_find` says: the regions are
/// what `regions_of` makes of the solver's bands of the middle column. So
/// they are returned if and only if they lie on the terminal, the footer
/// below the board's region; they are then in line with each other.
pub fn outer_regions(terminal: Rect) -> (regions: Option<Regions>)
    ensures
        may_find(terminal, regions),
        regions matches Some(found) ==> {
            &&& found.on_terminal(terminal)
            &&& found.footer.x == found.grid.x
            &&& found.footer.width == found.grid.width
        },
{
    let thirds: Vec<Constraint> = vec![
        Constraint::Percentage(COLUMN_PERCENT),
        Constraint::Percentage(COLUMN_PERCENT),
        Constraint::Percentage(COLUMN_PERCENT),
    ];
    assert(thirds@ =~= column_constraints());
    let columns: Vec<Rect> = split(Direction::Horizontal, &thirds, terminal);
    let asked: Vec<Constraint> = vec![
        Constraint::Percentage(MARGIN_PERCENT),
        Constraint::Percentage(GRID_PERCENT),
        Constraint::Length(FOOTER_ROWS),
        Constraint::Percentage(MARGIN_PERCENT),
    ];
    assert(asked@ =~= band_constraints());
    let bands: Vec<Rect> = split(Direction::Vertical, &asked, columns[1]);
    let regions = regions_from(terminal, &bands);
    assert(is_cut(Direction::Vertical, band_constraints(), columns@[1], bands@));
    regions
}

/// What is known of the parts into which the solver cuts `area`: there is
/// one for each constraint, and across the direction of the cut each has
/// the position and the size of the area. Along the cut nothing is known.
pub open spec fn is_cut(
    direction: Direction,
    constraints: Seq<Constraint>,
    area: Rect,
    parts: Seq<Rect>,
) -> bool {
    &&& parts.len() == constraints.len()
    &&& forall|i: int|
        0 <= i < parts.len() ==> match direction {
            Direction::Horizontal => (#[trigger] parts[i]).y == area.y && parts[i].height
                == area.height,
            Direction::Vertical => parts[i].x == area.x && parts[i].width == area.width,
        }
}

/// What the three columns of the terminal ask for.
pub open spec fn column_constraints() -> Seq<Constraint> {
    seq![
        Constraint::Percentage(COLUMN_PERCENT),
        Constraint::Percentage(COLUMN_PERCENT),
        Constraint::Percentage(COLUMN_PERCENT),
    ]
}

/// What the four bands of the middle column ask for, top to bottom: the
/// top margin, the board's region, the footer, the bottom margin.
pub open spec fn band_constraints() -> Seq<Constraint> {
    seq![
        Constraint::Percentage(MARGIN_PERCENT),
        Constraint::Percentage(GRID_PERCENT),
        Constraint::Length(FOOTER_ROWS),
        Constraint::Percentage(MARGIN_PERCENT),
    ]
}

/// The regions among the bands of the middle column: the second band is
/// the board's, the third the footer's. They are used where there are four
/// bands and the two can be drawn on `terminal`, and nowhere else.
pub open spec fn regions_of(terminal: Rect, bands: Seq<Rect>) -> Option<Regions> {
    let found = Regions { grid: bands[1], footer: bands[2] };
    if bands.len() == 4 && found.on_terminal(terminal) {
        Some(found)
    } else {
        None
    }
}

/// Whether `regions` is what cutting `terminal` may come to: the solver
/// is asked to cut the terminal into the three columns, then the middle
/// column into the four bands, and `regions` is what `regions_of` makes of
/// the bands it gave.
pub open spec fn may_find(terminal: Rect, regions: Option<Regions>) -> bool {
    exists|columns: Seq<Rect>, bands: Seq<Rect>|
        #![trigger is_cut(Direction::Vertical, band_constraints(), columns[1], bands)]
        {
            &&& is_cut(Direction::Horizontal, column_constraints(), terminal, columns)
            &&& is_cut(Direction::Vertical, band_constraints(), columns[1], bands)
            &&& regions == regions_of(terminal, bands)
        }
}

/// Picks the regions among the bands that the solver gave for the middle
/// column, whatever they are: `regions_of` on them.
pub fn regions_from(terminal: Rect, bands: &Vec<Rect>) -> (regions: Option<Regions>)
    ensures
        regions == regions_of(terminal, bands@),
{
    if bands.len() == 4 {
        accept(terminal, Regions { grid: bands[1], footer: bands[2] })
    } else {
        None
    }
}

} // verus!
