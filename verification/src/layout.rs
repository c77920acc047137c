//! Screen rectangles.

use vstd::prelude::*;
use ratatui::layout::{Constraint as TuiConstraint, Direction, Layout, Rect as TuiRect};

verus! {

/// A rectangle of terminal cells.
#[derive(Debug, Clone, Copy, PartialEq, Eq, Structural, Default)]
pub struct Rect {
    pub x: u16,
    pub y: u16,
    pub width: u16,
    pub height: u16,
}

impl Rect {
    /// A rectangle at (`x`, `y`); width and height are cut so that the right and
    /// bottom edges stay within `u16`.
    pub fn new(x: u16, y: u16, width: u16, height: u16) -> (r: Rect)
        ensures
            r.x == x,
            r.y == y,
            r.width == if width > u16::MAX - x { (u16::MAX - x) as u16 } else { width },
            r.height == if height > u16::MAX - y { (u16::MAX - y) as u16 } else { height },
    {
        let max_width = u16::MAX - x;
        let max_height = u16::MAX - y;
        let width = if width > max_width {
            max_width
        } else {
            width
        };
        let height = if height > max_height {
            max_height
        } else {
            height
        };
        Rect { x, y, width, height }
    }
}

} // verus!

verus! {

/// How much room one part of a split gets.
#[derive(Debug, Clone, Copy, PartialEq, Eq, Structural)]
pub enum Constraint {
    /// Exactly this many cells
    Length(u16),
    /// At least this many cells
    Min(u16),
    /// This share of the whole, in percent
    Percentage(u16),
}

/// Whether `area` ends within the `u16` coordinates.
pub open spec fn fits(area: Rect) -> bool {
    area.x + area.width <= u16::MAX && area.y + area.height <= u16::MAX
}

/// Whether `part` is a piece of `area` cut along one axis: top to bottom
/// (`vertical`) it spans the full width of `area` and lies between its top and
/// bottom; left to right it spans the full height and lies between its left
/// and right edges.
pub open spec fn inside_along(part: Rect, area: Rect, vertical: bool) -> bool {
    if vertical {
        &&& part.x == area.x
        &&& part.width == area.width
        &&& area.y <= part.y
        &&& part.y + part.height <= area.y + area.height
    } else {
        &&& part.y == area.y
        &&& part.height == area.height
        &&& area.x <= part.x
        &&& part.x + part.width <= area.x + area.width
    }
}

/// Calls `ratatui::layout::Layout::split` (no margin, no spacing, the default
/// flex): one area per constraint. The solver is bound by required constraints
/// that keep every boundary within the area; each part then keeps the area's
/// extent across the split and, when the area fits the coordinates, lies
/// within it along the split. Where exactly each part falls within the area
/// is not stated: where several layouts meet the constraints equally well, the one
/// returned may differ from one process to the next, and no required
/// constraint orders one part after another.
#[verifier::external_body]
pub(crate) fn split(area: Rect, vertical: bool, constraints: &Vec<Constraint>) -> (r: Vec<Rect>)
    ensures
        r@.len() == constraints@.len(),
        fits(area) ==> forall|i: int| 0 <= i < r@.len() ==> inside_along(#[trigger] r@[i], area, vertical),
{
    let cs = constraints.iter().map(|c| match *c {
        Constraint::Length(n) => TuiConstraint::Length(n),
        Constraint::Min(n) => TuiConstraint::Min(n),
        Constraint::Percentage(n) => TuiConstraint::Percentage(n),
    });
    let dir = if vertical { Direction::Vertical } else { Direction::Horizontal };
    let parts = Layout::new(dir, cs).split(TuiRect::new(area.x, area.y, area.width, area.height));
    parts.iter().map(|p| Rect { x: p.x, y: p.y, width: p.width, height: p.height }).collect()
}

/// The three areas of a split into three, in order.
pub fn three_areas(parts: &Vec<Rect>) -> (r: (Rect, Rect, Rect))
    requires
        parts@.len() == 3,
    ensures
        r == (parts@[0], parts@[1], parts@[2]),
{
    (parts[0], parts[1], parts[2])
}

/// The two areas of a split into two, in order.
pub fn two_areas(parts: &Vec<Rect>) -> (r: (Rect, Rect))
    requires
        parts@.len() == 2,
    ensures
        r == (parts@[0], parts@[1]),
{
    (parts[0], parts[1])
}

fn split3(area: Rect, c0: Constraint, c1: Constraint, c2: Constraint) -> (r: (Rect, Rect, Rect))
    ensures
        fits(area) ==> inside_along(r.0, area, true) && inside_along(r.1, area, true)
            && inside_along(r.2, area, true),
{
    let mut cs: Vec<Constraint> = Vec::new();
    cs.push(c0);
    cs.push(c1);
    cs.push(c2);
    let parts = split(area, true, &cs);
    three_areas(&parts)
}

/// The tab bar, main area and status bar of the screen `area`: a split into a
/// one-row bar, the rest and a one-row bar, as the layout solver gives it.
pub fn screen_areas(area: Rect) -> (r: (Rect, Rect, Rect))
    ensures
        fits(area) ==> inside_along(r.0, area, true) && inside_along(r.1, area, true)
            && inside_along(r.2, area, true),
{
    split3(area, Constraint::Length(1), Constraint::Min(0), Constraint::Length(1))
}

/// The input, worktree list and ready-issues areas of the control panel's
/// content `area`: a three-row input, the list (at least eight rows) and ten
/// rows, as the layout solver gives them.
pub fn content_areas(area: Rect) -> (r: (Rect, Rect, Rect))
    ensures
        fits(area) ==> inside_along(r.0, area, true) && inside_along(r.1, area, true)
            && inside_along(r.2, area, true),
{
    split3(area, Constraint::Length(3), Constraint::Min(8), Constraint::Length(10))
}

/// The left and right halves of `area` (fifty percent each), as the layout
/// solver gives them.
pub fn halves(area: Rect) -> (r: (Rect, Rect))
    ensures
        fits(area) ==> inside_along(r.0, area, false) && inside_along(r.1, area, false),
{
    let mut cs: Vec<Constraint> = Vec::new();
    cs.push(Constraint::Percentage(50));
    cs.push(Constraint::Percentage(50));
    let parts = split(area, false, &cs);
    two_areas(&parts)
}

} // verus!
