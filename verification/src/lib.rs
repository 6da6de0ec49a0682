//! The logic of two small terminal programs: where each panel of a frame goes,
//! and what the draw loop does after each thing the terminal reports.
//!
//! `layout` divides a rectangle with the `ratatui` constraint solver, `panel`
//! holds what is drawn in one rectangle, `example_2` and `example_3` place
//! the panels of one frame each, and `draw_loop` decides, after every draw
//! and every poll for input, whether the loop goes on.

pub mod draw_loop;
pub mod example_2;
pub mod example_3;
pub mod layout;
pub mod panel;
