//! The state of the search box. The text in it belongs to the editor that
//! draws it; the box decides which keys reach the editor.

use crate::event::{KeyCode, KeyEvent, KeyEventKind, MouseEvent};
use crate::ui::state::{Action, Area, UIComponent};
use vstd::prelude::*;

verus! {

/// The search box.
#[derive(Debug)]
pub struct SearchBox {
    pub(crate) area: Option<Area>,
}

/// Whether a key would start a new line in the editor: Enter, or `m` with
/// Control. A key that comes up starts none.
pub open spec fn inserts_newline(key: KeyEvent) -> bool {
    key.kind != KeyEventKind::Release && (key.code == KeyCode::Enter || (key.code
        == KeyCode::Char('m') && key.ctrl))
}

impl Default for SearchBox {
    /// A search box that has no area yet.
    fn default() -> (search: Self)
        ensures
            search.placed() is None,
    {
        SearchBox { area: None }
    }
}

impl SearchBox {
    /// The number of rows that the box takes up: one line of text in a frame.
    pub fn height(&self) -> (rows: u16)
        ensures
            rows == 3,
    {
        3
    }

    /// Puts the box into an area of the terminal.
    pub fn place(&mut self, area: Area)
        ensures
            final(self).placed() == Some(area),
    {
        self.area = Some(area);
    }
}

impl UIComponent for SearchBox {
    closed spec fn placed(&self) -> Option<Area> {
        self.area
    }

    open spec fn takes_key(&self, key: KeyEvent) -> bool {
        true
    }

    open spec fn takes_click(&self, event: MouseEvent) -> bool {
        true
    }

    fn area(&self) -> (area: Option<Area>) {
        self.area
    }

    /// The box holds one line: a key that would start another is dropped,
    /// and every other key is for the editor.
    fn key(&mut self, key: KeyEvent) -> (action: Action)
        ensures
            action == if inserts_newline(key) {
                Action::Done
            } else {
                Action::Edit
            },
            *final(self) == *old(self),
    {
        let newline = match key.kind {
            KeyEventKind::Release => false,
            _ => match key.code {
                KeyCode::Enter => true,
                KeyCode::Char(c) => c == 'm' && key.ctrl,
                _ => false,
            },
        };
        if newline {
            Action::Done
        } else {
            Action::Edit
        }
    }

    /// A click changes nothing in the box.
    fn click(&mut self, event: MouseEvent)
        ensures
            *final(self) == *old(self),
    {
    }
}

} // verus!
