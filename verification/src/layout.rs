use ratatui::layout as tui;
use vstd::prelude::*;

verus! {

/// A rectangle of terminal cells.
#[derive(Clone, Copy, Debug, PartialEq, Eq, Structural)]
pub struct Rect {
    pub x: u16,
    pub y: u16,
    pub width: u16,
    pub height: u16,
}

/// What is asked of the size of one part of a split area.
#[derive(Clone, Copy, Debug, PartialEq, Eq, Structural)]
pub enum Constraint {
    /// A share of the area, in hundredths.
    Percentage(u16),
    /// So many cells.
    Length(u16),
    /// At least so many cells.
    Min(u16),
}

/// Along which axis an area is split.
#[derive(Clone, Copy, Debug, PartialEq, Eq, Structural)]
pub enum Direction {
    Horizontal,
    Vertical,
}

impl Rect {
    /// Whether `inner` lies within this rectangle.
    pub open spec fn contains_rect(self, inner: Rect) -> bool {
        &&& self.x <= inner.x
        &&& inner.x + inner.width <= self.x + self.width
        &&& self.y <= inner.y
        &&& inner.y + inner.height <= self.y + self.height
    }
}

/// Calls `ratatui::layout::Layout::split` on a default layout with the given
/// direction and constraints. There is one part for each constraint, in
/// their order, and each part lies within the area: the layout requires of
/// its solver that no part begins before the area or ends behind it. How the
/// solver shares the area out among the parts is not said here.
#[verifier::external_body]
pub(crate) fn split(direction: Direction, constraints: &Vec<Constraint>, area: Rect) -> (parts: Vec<
    Rect,
>)
    ensures
        parts.len() == constraints.len(),
        forall|i: int| 0 <= i < parts.len() ==> area.contains_rect(#[trigger] parts[i]),
{
    let direction = match direction {
        Direction::Horizontal => tui::Direction::Horizontal,
        Direction::Vertical => tui::Direction::Vertical,
    };
    let constraints = constraints.iter().map(|constraint| match constraint {
        Constraint::Percentage(p) => tui::Constraint::Percentage(*p),
        Constraint::Length(l) => tui::Constraint::Length(*l),
        Constraint::Min(m) => tui::Constraint::Min(*m),
    });
    let area = tui::Rect { x: area.x, y: area.y, width: area.width, height: area.height };
    let layout = tui::Layout::default().direction(direction).constraints(constraints);
    layout.split(area).iter().map(|r| Rect { x: r.x, y: r.y, width: r.width, height: r.height }).collect()
}

} // verus!
