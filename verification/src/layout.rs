//! Rectangles of terminal cells and their division along one axis.

use ratatui::layout::{Constraint as Wanted, Direction as Axis, Layout, Rect as Cells};
use vstd::prelude::*;

verus! {

/// A rectangle of terminal cells, with its origin at the top left.
#[derive(Clone, Copy, Debug, PartialEq, Eq, Structural)]
pub struct Rect {
    pub x: u16,
    pub y: u16,
    pub width: u16,
    pub height: u16,
}

/// The axis along which a rectangle is divided.
#[derive(Clone, Copy, Debug, PartialEq, Eq, Structural)]
pub enum Direction {
    Horizontal,
    Vertical,
}

/// How much of the divided axis one part asks for.
#[derive(Clone, Copy, Debug, PartialEq, Eq, Structural)]
pub enum Constraint {
    /// A share of the whole extent, in hundredths.
    Percentage(u16),
    /// A fixed number of cells.
    Length(u16),
    /// At least this number of cells.
    Min(u16),
}

impl Rect {
    /// What is left of the rectangle once `margin` cells are taken from each
    /// of its four edges: the empty rectangle at the origin where the margin
    /// does not fit twice into the width and into the height.
    pub open spec fn inner(self, margin: u16) -> Rect {
        if self.width < 2 * margin || self.height < 2 * margin {
            Rect { x: 0, y: 0, width: 0, height: 0 }
        } else {
            Rect {
                x: (self.x + margin) as u16,
                y: (self.y + margin) as u16,
                width: (self.width - 2 * margin) as u16,
                height: (self.height - 2 * margin) as u16,
            }
        }
    }

    /// Whether the origin of `self.inner(margin)` can be written in 16 bits:
    /// where the margin fits into the rectangle, the left and the upper edge
    /// moved inwards by it stay within `u16`.
    pub open spec fn holds_inner(self, margin: u16) -> bool {
        (self.width >= 2 * margin && self.height >= 2 * margin) ==> {
            &&& self.x + margin <= u16::MAX
            &&& self.y + margin <= u16::MAX
        }
    }

    /// Tells whether the origin of `self.inner(margin)` can be written in 16
    /// bits.
    pub fn fits_margin(&self, margin: u16) -> (fits: bool)
        ensures
            fits == self.holds_inner(margin),
    {
        if margin > u16::MAX / 2 {
            true
        } else if self.width >= 2 * margin && self.height >= 2 * margin {
            self.x <= u16::MAX - margin && self.y <= u16::MAX - margin
        } else {
            true
        }
    }

    /// Whether the rectangle is a slice of `frame` cut across `direction`:
    /// on the other axis it starts where `frame` starts and is as long.
    pub open spec fn slices(self, frame: Rect, direction: Direction) -> bool {
        match direction {
            Direction::Horizontal => self.y == frame.y && self.height == frame.height,
            Direction::Vertical => self.x == frame.x && self.width == frame.width,
        }
    }

    /// The first cell of the rectangle along `direction`.
    pub open spec fn start(self, direction: Direction) -> int {
        match direction {
            Direction::Horizontal => self.x as int,
            Direction::Vertical => self.y as int,
        }
    }

    /// The number of cells of the rectangle along `direction`.
    pub open spec fn extent(self, direction: Direction) -> int {
        match direction {
            Direction::Horizontal => self.width as int,
            Direction::Vertical => self.height as int,
        }
    }

    /// The cell after the last one along `direction`.
    pub open spec fn end(self, direction: Direction) -> int {
        self.start(direction) + self.extent(direction)
    }

    /// The end along `direction` as far as 16 bits reach: `u16::MAX` where
    /// the end lies beyond it.
    pub open spec fn clipped_end(self, direction: Direction) -> int {
        if self.end(direction) <= u16::MAX {
            self.end(direction)
        } else {
            u16::MAX as int
        }
    }

    /// Whether the rectangle holds no cell.
    pub open spec fn is_empty(self) -> bool {
        self.width == 0 || self.height == 0
    }

    /// Whether every cell of the rectangle is a cell of `outer`.
    pub open spec fn within(self, outer: Rect) -> bool {
        &&& outer.x <= self.x
        &&& self.x + self.width <= outer.x + outer.width
        &&& outer.y <= self.y
        &&& self.y + self.height <= outer.y + outer.height
    }
}

/// Whether `parts` tile `frame` along `direction`: there is at least one
/// part, each part is a slice of `frame`, the first starts where `frame`
/// starts, each of the others starts where the one before it ends, and the
/// last ends where `frame` ends, as far as 16 bits reach.
pub open spec fn tiles(parts: Seq<Rect>, frame: Rect, direction: Direction) -> bool {
    &&& parts.len() > 0
    &&& forall|i: int| 0 <= i < parts.len() ==> (#[trigger] parts[i]).slices(frame, direction)
    &&& parts[0].start(direction) == frame.start(direction)
    &&& forall|i: int|
        0 < i < parts.len() ==> (#[trigger] parts[i]).start(direction) == parts[i - 1].end(direction)
    &&& parts.last().end(direction) == frame.clipped_end(direction)
}

/// The extents of `parts` along `direction`, added up.
pub open spec fn total_extent(parts: Seq<Rect>, direction: Direction) -> int
    decreases parts.len(),
{
    if parts.len() == 0 {
        0
    } else {
        total_extent(parts.drop_last(), direction) + parts.last().extent(direction)
    }
}

proof fn lemma_chain(parts: Seq<Rect>, direction: Direction, k: int)
    requires
        0 < k <= parts.len(),
        forall|i: int|
            0 < i < parts.len() ==> (#[trigger] parts[i]).start(direction) == parts[i - 1].end(direction),
    ensures
        total_extent(parts.take(k), direction) == parts[k - 1].end(direction) - parts[0].start(direction),
        forall|i: int|
            0 <= i < k ==> parts[0].start(direction) <= (#[trigger] parts[i]).start(direction)
                && parts[i].end(direction) <= parts[k - 1].end(direction),
    decreases k,
{
    let head = parts.take(k);
    assert(head.last() == parts[k - 1]);
    assert(head.drop_last() =~= parts.take(k - 1));
    if k == 1 {
        assert(total_extent(head.drop_last(), direction) == 0);
    } else {
        lemma_chain(parts, direction, k - 1);
        assert(parts[k - 1].start(direction) == parts[k - 2].end(direction));
    }
}

/// Parts that tile a frame divide it without gap and without overlap: their
/// extents add up to what the frame holds between its start and its clipped
/// end, each part ends no later than any later part starts, and each lies
/// between the start and the clipped end of the frame.
pub proof fn lemma_tiles_divide(parts: Seq<Rect>, frame: Rect, direction: Direction)
    requires
        tiles(parts, frame, direction),
    ensures
        total_extent(parts, direction) == frame.clipped_end(direction) - frame.start(direction),
        frame.end(direction) <= u16::MAX ==> total_extent(parts, direction) == frame.extent(direction),
        forall|i: int, j: int|
            0 <= i < j < parts.len() ==> (#[trigger] parts[i]).end(direction) <= (#[trigger] parts[j]).start(direction),
        forall|i: int|
            0 <= i < parts.len() ==> frame.start(direction) <= (#[trigger] parts[i]).start(direction)
                && parts[i].end(direction) <= frame.clipped_end(direction),
{
    let n = parts.len() as int;
    lemma_chain(parts, direction, n);
    assert(parts.take(n) =~= parts);
    assert forall|i: int, j: int| 0 <= i < j < parts.len() implies (#[trigger] parts[i]).end(direction)
        <= (#[trigger] parts[j]).start(direction) by {
        lemma_chain(parts, direction, j);
        assert(parts[j].start(direction) == parts[j - 1].end(direction));
    }
}

/// Calls `ratatui::layout::Layout::split` on a layout built with `direction`,
/// `margin` and `constraints`.
///
/// Trusted, not proved. The call returns one rectangle for each constraint,
/// in order. Each has, on the axis that is not divided, the position and the
/// length of `area.inner(margin)`. On the divided axis the layout hands the
/// cassowary solver, as constraints that it may not violate, that the first
/// part starts where the inside starts, that each part ends where the next
/// starts, and that the last part ends where the inside ends, which the
/// layout takes no further than `u16::MAX`: the parts tile the inside. How
/// long each part is, the solver decides by its weaker constraints, and is
/// not stated. The precondition keeps the margin arithmetic of `Rect::inner`
/// within `u16`; that the solver then finds such parts, so that the call
/// returns, is taken from the layout, which expects it.
#[verifier::external_body]
fn solve(area: Rect, direction: Direction, margin: u16, constraints: &Vec<Constraint>) -> (parts: Vec<Rect>)
    requires
        2 * margin <= u16::MAX,
        area.holds_inner(margin),
    ensures
        parts@.len() == constraints@.len(),
        constraints@.len() > 0 ==> tiles(parts@, area.inner(margin), direction),
{
    let wanted: Vec<Wanted> = constraints.iter().map(|c| match *c {
        Constraint::Percentage(p) => Wanted::Percentage(p),
        Constraint::Length(n) => Wanted::Length(n),
        Constraint::Min(n) => Wanted::Min(n),
    }).collect();
    let axis = match direction {
        Direction::Horizontal => Axis::Horizontal,
        Direction::Vertical => Axis::Vertical,
    };
    let outer = Cells { x: area.x, y: area.y, width: area.width, height: area.height };
    let layout = Layout::default().direction(axis).margin(margin).constraints(wanted);
    layout.split(outer).iter().map(|r| Rect { x: r.x, y: r.y, width: r.width, height: r.height }).collect()
}

/// Divides `area`, less a uniform `margin` on its four edges, along
/// `direction` into one rectangle for each constraint, in the order of the
/// constraints.
///
/// The parts tile the inside of `area`, which is `area.inner(margin)`: each
/// is a slice of it, and they lie edge to edge from its start to its end, so
/// that their extents add up to its extent. (An inside that ends beyond
/// `u16::MAX` is covered as far as `u16::MAX`.) A margin that does not fit
/// twice into any width leaves nothing inside, and the parts are empty. Which
/// extent each part gets is left to the solver.
pub fn split(area: Rect, direction: Direction, margin: u16, constraints: &Vec<Constraint>) -> (parts: Vec<Rect>)
    requires
        area.holds_inner(margin),
    ensures
        parts@.len() == constraints@.len(),
        constraints@.len() > 0 ==> tiles(parts@, area.inner(margin), direction),
        constraints@.len() > 0 && area.inner(margin).end(direction) <= u16::MAX ==> total_extent(
            parts@,
            direction,
        ) == area.inner(margin).extent(direction),
{
    let parts = if margin > u16::MAX / 2 {
        let nothing = Rect { x: 0, y: 0, width: 0, height: 0 };
        assert(nothing.inner(0) == area.inner(margin));
        solve(nothing, direction, 0, constraints)
    } else {
        solve(area, direction, margin, constraints)
    };
    proof {
        if constraints@.len() > 0 {
            lemma_tiles_divide(parts@, area.inner(margin), direction);
        }
    }
    parts
}

} // verus!
