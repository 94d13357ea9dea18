//! What the widgets have in common.

use crate::event::{KeyEvent, MouseEvent};
use ratatui::layout::Rect;
use vstd::prelude::*;

verus! {

/// A cell of the terminal.
#[derive(Debug, Clone, Copy, PartialEq, Eq, Structural)]
pub struct Position {
    pub x: u16,
    pub y: u16,
}

/// A rectangle of cells: its top left corner, its width and its height.
#[derive(Debug, Clone, Copy, PartialEq, Eq, Structural)]
pub struct Area {
    pub x: u16,
    pub y: u16,
    pub width: u16,
    pub height: u16,
}

impl Area {
    /// The column behind the last one of the area, or the last column that
    /// a terminal can have, if that is less.
    pub open spec fn right(self) -> int {
        if self.x + self.width > u16::MAX {
            u16::MAX as int
        } else {
            self.x + self.width
        }
    }

    /// The row below the last one of the area, or the last row that a
    /// terminal can have, if that is less.
    pub open spec fn bottom(self) -> int {
        if self.y + self.height > u16::MAX {
            u16::MAX as int
        } else {
            self.y + self.height
        }
    }

    /// Whether the position lies in the area.
    pub open spec fn holds(self, position: Position) -> bool {
        &&& self.x <= position.x < self.right()
        &&& self.y <= position.y < self.bottom()
    }
}

/// `ratatui::layout::Rect::contains`: whether the position is inside the
/// rectangle, whose right and bottom edges `Rect` computes with saturating
/// additions. Verus takes this on trust.
#[verifier::external_body]
fn rect_contains(area: Area, position: Position) -> (inside: bool)
    ensures
        inside == area.holds(position),
{
    let rect = Rect { x: area.x, y: area.y, width: area.width, height: area.height };
    rect.contains(ratatui::layout::Position { x: position.x, y: position.y })
}

/// What is left for the caller to do once a widget has handled an event.
#[derive(Debug, Clone, PartialEq, Eq)]
pub enum Action {
    /// Nothing.
    Done,
    /// Hand the key to the editor of the search box.
    Edit,
    /// Read the document at this path and show what comes of it.
    Open(String),
}

/// A widget of the interface.
pub trait UIComponent {
    /// The area that the widget is drawn in, once it has one.
    spec fn placed(&self) -> Option<Area>;

    /// The key events that the widget can handle in its present state.
    spec fn takes_key(&self, key: KeyEvent) -> bool;

    /// The mouse events that the widget can handle in its present state.
    spec fn takes_click(&self, event: MouseEvent) -> bool;

    /// Handles a key event while the widget has the user's attention.
    fn key(&mut self, key: KeyEvent) -> Action
        requires
            old(self).takes_key(key),
    ;

    /// Handles a mouse event on the widget.
    fn click(&mut self, event: MouseEvent)
        requires
            old(self).takes_click(event),
    ;

    /// Whether the position lies in the area of the widget. A widget that
    /// has no area yet holds no position.
    fn contains(&self, position: Position) -> (inside: bool)
        ensures
            inside == match self.placed() {
                Some(area) => area.holds(position),
                None => false,
            },
    {
        match self.area() {
            Some(area) => rect_contains(area, position),
            None => false,
        }
    }

    /// The area that the widget is drawn in, once it has one.
    fn area(&self) -> (area: Option<Area>)
        ensures
            area == self.placed(),
    ;
}

} // verus!
