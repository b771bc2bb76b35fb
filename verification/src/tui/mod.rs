//! Decisions of the interactive terminal interface: how answers are read,
//! how the setup, review and configuration screens react to keys, and what
//! the manual form builds. Drawing and reading the terminal happen outside.

pub mod actions;
pub mod answers;
pub mod config_editor;
pub mod editor;
pub mod keys;
pub mod manual;
pub mod review;
pub mod setup;
pub mod types;
