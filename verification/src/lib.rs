//! A terminal task organiser: tasks with priorities and timestamps, a trash
//! bin, search, navigation, a line-oriented storage format, an offline
//! sub-task generator and the keyboard state machine that drives the UI.

pub mod ai;
pub mod app;
mod clock;
pub mod display;
pub mod events;
pub mod keys;
pub mod laws;
pub mod layout;
pub mod priority;
pub mod selection_laws;
pub mod task;
pub mod text;
pub mod theme;
pub mod update;
