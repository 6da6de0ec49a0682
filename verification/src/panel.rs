//! What is shown in one rectangle of a frame.

use crate::layout::Rect;
use vstd::prelude::*;

verus! {

/// A background colour.
#[derive(Clone, Copy, Debug, PartialEq, Eq, Structural)]
pub enum Color {
    Green,
    Yellow,
    Blue,
    Red,
}

/// The edges of a panel along which a border is drawn.
#[derive(Clone, Copy, Debug, PartialEq, Eq, Structural)]
pub struct Borders {
    pub top: bool,
    pub right: bool,
    pub bottom: bool,
    pub left: bool,
}

/// A rectangle of the frame with what is drawn in it. A panel holds no
/// behaviour: the renderer reads it and paints.
#[derive(Clone, Copy, Debug, PartialEq, Eq)]
pub struct Panel {
    pub area: Rect,
    pub background: Option<Color>,
    pub title: Option<&'static str>,
    pub borders: Borders,
    pub text: Option<&'static str>,
}

impl Borders {
    /// No edge has a border.
    pub open spec fn hidden() -> Borders {
        Borders { top: false, right: false, bottom: false, left: false }
    }

    /// Every edge has a border.
    pub open spec fn all() -> Borders {
        Borders { top: true, right: true, bottom: true, left: true }
    }
}

} // verus!
