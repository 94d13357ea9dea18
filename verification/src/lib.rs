//! The verified core of a terminal command browser: phonetic matching of
//! words, the command records, and the state behind the widgets.

pub mod app;
pub mod commands;
pub mod error;
pub mod event;
pub mod fuzzy;
pub mod strings;
pub mod table;
pub mod ui;
