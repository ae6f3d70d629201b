//! Placement of the pop-up windows: a box centred in the screen, sized by
//! percentages of the screen, laid out by ratatui's constraint solver.

use ratatui::layout::{Constraint, Direction, Layout, Rect};
use vstd::prelude::*;

verus! {

/// A rectangle of the terminal: its top-left corner and its size, in cells.
#[derive(Clone, Copy, PartialEq, Eq, Debug, Structural)]
pub struct Area {
    pub x: u16,
    pub y: u16,
    pub width: u16,
    pub height: u16,
}

impl View for Area {
    type V = (u16, u16, u16, u16);

    open spec fn view(&self) -> (u16, u16, u16, u16) {
        (self.x, self.y, self.width, self.height)
    }
}

/// The direction in which an area is split.
#[derive(Clone, Copy, PartialEq, Eq, Debug, Structural)]
pub enum Axis {
    /// Into rows, top to bottom.
    Vertical,
    /// Into columns, left to right.
    Horizontal,
}

/// Rectangle `p` lies within rectangle `a`.
pub open spec fn lies_within(p: (u16, u16, u16, u16), a: (u16, u16, u16, u16)) -> bool {
    &&& a.0 <= p.0
    &&& a.1 <= p.1
    &&& p.0 + p.2 <= a.0 + a.2
    &&& p.1 + p.3 <= a.1 + a.3
}

/// What ratatui's `Layout::split` gives for an area split along `axis` into
/// three parts of `first`, `middle` and `last` percent of it, where the three
/// percentages add up to at most 100 (only then can the solver meet them all,
/// and only then is its answer fixed).
pub uninterp spec fn percent_split(axis: Axis, first: u16, middle: u16, last: u16, area: (u16, u16, u16, u16)) -> Seq<(u16, u16, u16, u16)>;

/// Wraps `ratatui::layout::Layout::split` with three percentage constraints
/// and default margin, spacing and flex. The parts are named by
/// `percent_split`; the source makes one part per constraint, so there are
/// three, and the solver's required constraints keep every part between the
/// two edges of the area (a part keeps the area's extent across the axis).
/// Percentages that add up to more than 100 conflict, and then the solver's
/// answer depends on the order of its hash maps; they are left out.
#[verifier::external_body]
fn split_by_percent(axis: Axis, first: u16, middle: u16, last: u16, area: Area) -> (parts: Vec<Area>)
    requires
        first + middle + last <= 100,
    ensures
        parts@.map_values(|a: Area| a@) == percent_split(axis, first, middle, last, area@),
        parts@.len() == 3,
        forall|i: int| 0 <= i < 3 ==> lies_within(#[trigger] parts@[i]@, area@),
{
    let direction = match axis {
        Axis::Vertical => Direction::Vertical,
        Axis::Horizontal => Direction::Horizontal,
    };
    let rect = Rect { x: area.x, y: area.y, width: area.width, height: area.height };
    let constraints = [
        Constraint::Percentage(first),
        Constraint::Percentage(middle),
        Constraint::Percentage(last),
    ];
    let parts = Layout::default().direction(direction).constraints(constraints).split(rect);
    parts.iter().map(|r| Area { x: r.x, y: r.y, width: r.width, height: r.height }).collect()
}

/// The middle part of `r` split along `axis` into `(100 - p) / 2`, `p` and
/// `(100 - p) / 2` percent.
pub open spec fn middle_band(axis: Axis, p: u16, r: (u16, u16, u16, u16)) -> (u16, u16, u16, u16) {
    let side = ((100 - p) / 2) as u16;
    percent_split(axis, side, p, side, r)[1]
}

/// The box of a pop-up window: `percent_x` percent of the width and
/// `percent_y` percent of the height of `r`, centred in it.
pub fn centered_rect(percent_x: u16, percent_y: u16, r: Area) -> (c: Area)
    requires
        percent_x <= 100,
        percent_y <= 100,
    ensures
        c@ == middle_band(Axis::Horizontal, percent_x, middle_band(Axis::Vertical, percent_y, r@)),
        lies_within(c@, r@),
{
    let rows = split_by_percent(Axis::Vertical, (100 - percent_y) / 2, percent_y, (100 - percent_y) / 2, r);
    let band = rows[1];
    assert(rows@.map_values(|a: Area| a@)[1] == band@);
    assert(lies_within(rows@[1]@, r@));
    let cols = split_by_percent(
        Axis::Horizontal,
        (100 - percent_x) / 2,
        percent_x,
        (100 - percent_x) / 2,
        band,
    );
    assert(cols@.map_values(|a: Area| a@)[1] == cols@[1]@);
    assert(lies_within(cols@[1]@, band@));
    cols[1]
}

} // verus!
