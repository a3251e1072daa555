//! Verified state and text logic of the level frontend: number entry,
//! option matching, keyboard navigation, steppers, subview stacks, value
//! runtimes, async status tracking, alerts and theme styling.

pub mod stepper;
pub mod text;
pub mod matching;
pub mod numtext;
pub mod number;
mod number_impls;
pub mod keys;
pub mod chips;
pub mod subview;
pub mod runtime;
pub mod async_state;
pub mod alert;
pub mod style;
pub mod theme;
pub mod file_select;
pub mod controls;
pub mod views;
pub mod editor;
