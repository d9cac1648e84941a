//! Core logic of a desktop panel: the calendar date grid, the placement of
//! the panel's windows on the primary display, and the show/hide state of
//! its popups.

pub mod date;
pub mod grid;
pub mod label;
pub mod panel;
pub mod placement;
pub mod today;
pub mod visibility;
