//! Core of a grid-based puzzle canvas: grid cells with their candidate
//! values, the window's open/closed state machine, and the widget layer
//! (elements, text labels, buttons) modeled over plain pixel coordinates.

pub mod sudoku;
pub mod ui;
