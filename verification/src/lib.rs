//! Core of a modal, terminal-resident text editor: line buffers with a
//! cursor and a scrolling viewport, a three-state input machine (Normal,
//! Insert, Command), and a table-driven command dispatcher over a tab set.
//!
//! Terminal setup, painting and file access live outside this crate; the
//! surrounding binary feeds key events and filesystem replies in as plain
//! values and paints what the accessors here report.

pub mod command;
pub mod editor;
pub mod enums;
pub mod functions;
pub mod insert;
pub mod kass;
pub mod literals;
pub mod normal;
pub mod position;
pub mod render;
pub mod stack;
pub mod statusbar;
pub mod text;
