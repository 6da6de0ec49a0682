//! A frame with a border around the whole screen and a few lines of text
//! inside it, above two rows that are kept free at the bottom.

use crate::layout::{lemma_tiles_divide, split, Constraint, Direction, Rect};
use crate::panel::{Borders, Panel};
use vstd::prelude::*;

verus! {

/// The margin between the edge of the screen and the parts inside it.
pub const MARGIN: u16 = 1;

/// The panel that draws a border, titled "Border", around `size`.
pub open spec fn border_panel(size: Rect) -> Panel {
    Panel {
        area: size,
        background: None,
        title: Some("Border"),
        borders: Borders::all(),
        text: None,
    }
}

/// The panel that shows the message in `area`, without border or title.
pub open spec fn message_panel(area: Rect) -> Panel {
    Panel {
        area,
        background: None,
        title: None,
        borders: Borders::hidden(),
        text: Some("Hello World\nSome text\nEven more text"),
    }
}

/// The border around the screen, then the message in the first part of the
/// screen's inside.
pub open spec fn frame_panels(size: Rect, parts: Seq<Rect>) -> Seq<Panel> {
    seq![border_panel(size), message_panel(parts[0])]
}

/// Places the border on the whole of `size` and the message in the first of
/// `parts`.
pub fn frame(size: Rect, parts: &Vec<Rect>) -> (panels: Vec<Panel>)
    requires
        parts@.len() >= 1,
    ensures
        panels@ == frame_panels(size, parts@),
{
    let mut panels: Vec<Panel> = Vec::new();
    panels.push(
        Panel {
            area: size,
            background: None,
            title: Some("Border"),
            borders: Borders { top: true, right: true, bottom: true, left: true },
            text: None,
        },
    );
    panels.push(
        Panel {
            area: parts[0],
            background: None,
            title: None,
            borders: Borders { top: false, right: false, bottom: false, left: false },
            text: Some("Hello World\nSome text\nEven more text"),
        },
    );
    panels
}

/// The panels of one frame on a screen of `size`.
///
/// The inside of the screen, one cell from each edge, is divided from top to
/// bottom into a part that asks for at least one row and a part that asks
/// for two; the message goes into the first, the second stays free. The
/// result is the border on the whole screen, then the message: it starts at
/// the upper left corner of the inside, is as wide as the inside and ends no
/// lower, so that it lies within the screen or, where the margin does not
/// fit, is empty. How many rows the message gets is left to the solver.
pub fn ui(size: Rect) -> (panels: Vec<Panel>)
    requires
        size.holds_inner(MARGIN),
    ensures
        panels@.len() == 2,
        panels@ == frame_panels(size, seq![panels@[1].area]),
        panels@[1].area.slices(size.inner(MARGIN), Direction::Vertical),
        panels@[1].area.y == size.inner(MARGIN).y,
        panels@[1].area.end(Direction::Vertical) <= size.inner(MARGIN).clipped_end(Direction::Vertical),
        panels@[1].area.within(size) || panels@[1].area.is_empty(),
{
    let mut rows: Vec<Constraint> = Vec::new();
    rows.push(Constraint::Min(1));
    rows.push(Constraint::Length(2));
    let chunks = split(size, Direction::Vertical, MARGIN, &rows);
    proof {
        lemma_tiles_divide(chunks@, size.inner(MARGIN), Direction::Vertical);
    }
    frame(size, &chunks)
}

} // verus!
