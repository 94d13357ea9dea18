//! The state behind the widgets of the interface.

pub mod search;
pub mod state;
pub mod table;
pub mod template;
