//! A frame of four coloured, titled panels: a narrow column on the left and a
//! wide one on the right, each divided into an upper and a lower panel.

use crate::layout::{lemma_tiles_divide, split, tiles, Constraint, Direction, Rect};
use crate::panel::{Borders, Color, Panel};
use vstd::prelude::*;

verus! {

/// A panel without borders or text that fills `area` with `background` and
/// carries `title`.
pub open spec fn quadrant(area: Rect, background: Color, title: &'static str) -> Panel {
    Panel {
        area,
        background: Some(background),
        title: Some(title),
        borders: Borders::hidden(),
        text: None,
    }
}

/// The four panels of the frame, given the two parts of the left column and
/// the two parts of the right column.
pub open spec fn quadrant_panels(left: Seq<Rect>, right: Seq<Rect>) -> Seq<Panel> {
    seq![
        quadrant(left[0], Color::Green, "1 Title"),
        quadrant(left[1], Color::Yellow, "2 Title"),
        quadrant(right[0], Color::Blue, "3 Title"),
        quadrant(right[1], Color::Red, "4 Title"),
    ]
}

fn paint(area: Rect, background: Color, title: &'static str) -> (panel: Panel)
    ensures
        panel == quadrant(area, background, title),
{
    Panel {
        area,
        background: Some(background),
        title: Some(title),
        borders: Borders { top: false, right: false, bottom: false, left: false },
        text: None,
    }
}

/// Places the four panels in the parts of the two columns: green above
/// yellow on the left, blue above red on the right.
pub fn quadrants(left: &Vec<Rect>, right: &Vec<Rect>) -> (panels: Vec<Panel>)
    requires
        left@.len() >= 2,
        right@.len() >= 2,
    ensures
        panels@ == quadrant_panels(left@, right@),
{
    let mut panels: Vec<Panel> = Vec::new();
    panels.push(paint(left[0], Color::Green, "1 Title"));
    panels.push(paint(left[1], Color::Yellow, "2 Title"));
    panels.push(paint(right[0], Color::Blue, "3 Title"));
    panels.push(paint(right[1], Color::Red, "4 Title"));
    panels
}

/// Whether the four `areas` divide `size` into two columns of two: `left`
/// and `right` tile `size` from left to right, the first two areas tile
/// `left` from top to bottom, and the last two tile `right`.
pub open spec fn in_columns(size: Rect, left: Rect, right: Rect, areas: Seq<Rect>) -> bool {
    &&& areas.len() == 4
    &&& tiles(seq![left, right], size, Direction::Horizontal)
    &&& tiles(seq![areas[0], areas[1]], left, Direction::Vertical)
    &&& tiles(seq![areas[2], areas[3]], right, Direction::Vertical)
}

/// The panels of one frame on a screen of `size`.
///
/// The screen is divided into a left column, asked to be 30 hundredths of
/// its width, and a right column, asked to be 70; the left column into
/// halves, the right column into 80 and 20 hundredths of its height. The
/// result is the four panels in their order, green and yellow in the left
/// column, blue and red in the right, and their areas divide the screen into
/// two columns of two, so that each lies within the screen. How wide the
/// columns are and how high the panels is left to the solver.
pub fn ui(size: Rect) -> (panels: Vec<Panel>)
    ensures
        panels@.len() == 4,
        panels@ == quadrant_panels(
            seq![panels@[0].area, panels@[1].area],
            seq![panels@[2].area, panels@[3].area],
        ),
        exists|left: Rect, right: Rect|
            in_columns(
                size,
                left,
                right,
                seq![panels@[0].area, panels@[1].area, panels@[2].area, panels@[3].area],
            ),
        forall|i: int| 0 <= i < 4 ==> (#[trigger] panels@[i]).area.within(size),
{
    let mut columns: Vec<Constraint> = Vec::new();
    columns.push(Constraint::Percentage(30));
    columns.push(Constraint::Percentage(70));
    let chunks = split(size, Direction::Horizontal, 0, &columns);

    let mut halves: Vec<Constraint> = Vec::new();
    halves.push(Constraint::Percentage(50));
    halves.push(Constraint::Percentage(50));
    let sub_chunks_left = split(chunks[0], Direction::Vertical, 0, &halves);

    let mut uneven: Vec<Constraint> = Vec::new();
    uneven.push(Constraint::Percentage(80));
    uneven.push(Constraint::Percentage(20));
    let sub_chunks_right = split(chunks[1], Direction::Vertical, 0, &uneven);

    let panels = quadrants(&sub_chunks_left, &sub_chunks_right);
    proof {
        let left = chunks@[0];
        let right = chunks@[1];
        assert(chunks@ =~= seq![left, right]);
        assert(sub_chunks_left@ =~= seq![panels@[0].area, panels@[1].area]);
        assert(sub_chunks_right@ =~= seq![panels@[2].area, panels@[3].area]);
        assert(in_columns(
            size,
            left,
            right,
            seq![panels@[0].area, panels@[1].area, panels@[2].area, panels@[3].area],
        ));
        lemma_tiles_divide(chunks@, size, Direction::Horizontal);
        lemma_tiles_divide(sub_chunks_left@, left, Direction::Vertical);
        lemma_tiles_divide(sub_chunks_right@, right, Direction::Vertical);
    }
    panels
}

} // verus!
