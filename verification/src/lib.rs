//! Verified core of a small GPU widget board: pixel-buffer drawing for the
//! widgets, the quad mesh every widget is drawn with, the per-widget pixel
//! target bookkeeping, the event-loop decisions and the small pieces of state
//! kept by the immediate-mode user interface.

pub mod app_state;
pub mod geometry;
pub mod ui;
pub mod node_editor;
pub mod run;
pub mod state;
pub mod widgets;
pub mod widget;
