//! The state of the table of commands: its rows and the cursor on them.

use crate::event::{KeyCode, KeyEvent, KeyEventKind, MouseEvent};
use crate::ui::state::{Action, Area, UIComponent};
use vstd::prelude::*;

verus! {

/// The rows of the table and the row that is selected, if one is.
#[derive(Debug)]
pub struct CommandsTable<T> {
    offset: usize,
    cursor: Option<usize>,
    content: Vec<T>,
    pub(crate) commands_in_view: usize,
    pub(crate) area: Option<Area>,
}

/// Where the cursor is after a key, in a table of so many rows: the arrow
/// keys move it by one row, not beyond the first or the last, and bring it
/// to the first row where there was none. Only a key that is pressed counts.
pub open spec fn cursor_after(cursor: Option<usize>, rows: nat, key: KeyEvent) -> Option<usize>
    recommends
        cursor is Some ==> rows > 0,
{
    if key.kind != KeyEventKind::Press {
        cursor
    } else if key.code == KeyCode::Up {
        match cursor {
            Some(row) => if row > 0 {
                Some((row - 1) as usize)
            } else {
                Some(0)
            },
            None => Some(0),
        }
    } else if key.code == KeyCode::Down {
        match cursor {
            Some(row) => if row + 1 >= rows {
                Some((rows - 1) as usize)
            } else {
                Some((row + 1) as usize)
            },
            None => Some(0),
        }
    } else {
        cursor
    }
}

impl<T> CommandsTable<T> {
    /// A row is selected only if it exists, unless the table is empty.
    #[verifier::type_invariant]
    spec fn selection_exists(&self) -> bool {
        self.cursor matches Some(row) ==> self.content@.len() > 0 ==> row < self.content@.len()
    }

    /// The first row that is drawn.
    pub closed spec fn spec_offset(&self) -> usize {
        self.offset
    }

    /// The selected row.
    pub closed spec fn spec_cursor(&self) -> Option<usize> {
        self.cursor
    }

    /// The rows.
    pub closed spec fn spec_content(&self) -> Seq<T> {
        self.content@
    }

    /// The number of rows that fit into the area.
    pub closed spec fn spec_commands_in_view(&self) -> usize {
        self.commands_in_view
    }

    /// The two tables differ in their area at most.
    pub open spec fn same_but_area(&self, other: &Self) -> bool {
        &&& self.spec_content() == other.spec_content()
        &&& self.spec_cursor() == other.spec_cursor()
        &&& self.spec_offset() == other.spec_offset()
        &&& self.spec_commands_in_view() == other.spec_commands_in_view()
    }

    /// The two tables differ in their cursor at most.
    pub open spec fn same_but_cursor(&self, other: &Self) -> bool {
        &&& self.spec_content() == other.spec_content()
        &&& self.spec_offset() == other.spec_offset()
        &&& self.spec_commands_in_view() == other.spec_commands_in_view()
        &&& self.placed() == other.placed()
    }

    /// A table of the given rows, none of which is selected. It has no area
    /// yet.
    pub fn new(rows: Vec<T>) -> (table: Self)
        ensures
            table.spec_content() == rows@,
            table.spec_cursor() is None,
            table.spec_offset() == 0,
            table.spec_commands_in_view() == 0,
            table.placed() is None,
    {
        CommandsTable { offset: 0, cursor: None, content: rows, commands_in_view: 0, area: None }
    }

    /// Puts the table into an area of the terminal.
    pub fn place(&mut self, area: Area)
        ensures
            final(self).placed() == Some(area),
            final(self).same_but_area(old(self)),
    {
        proof {
            use_type_invariant(&*self);
        }
        self.area = Some(area);
    }

    /// The first row that is drawn.
    #[verifier::when_used_as_spec(spec_offset)]
    pub fn offset(&self) -> (offset: usize)
        ensures
            offset == self.spec_offset(),
    {
        self.offset
    }

    /// The selected row. In a table that is not empty it is one of the rows.
    #[verifier::when_used_as_spec(spec_cursor)]
    pub fn cursor(&self) -> (cursor: Option<usize>)
        ensures
            cursor == self.spec_cursor(),
            cursor matches Some(row) ==> self.spec_content().len() > 0 ==> row
                < self.spec_content().len(),
    {
        proof {
            use_type_invariant(self);
        }
        self.cursor
    }

    /// The rows.
    pub fn content(&self) -> (rows: &Vec<T>)
        ensures
            rows@ == self.spec_content(),
    {
        &self.content
    }

    /// The number of rows that fit into the area.
    #[verifier::when_used_as_spec(spec_commands_in_view)]
    pub fn commands_in_view(&self) -> (count: usize)
        ensures
            count == self.spec_commands_in_view(),
    {
        self.commands_in_view
    }
}

impl<T: Clone> Clone for CommandsTable<T> {
    /// A table with a clone of each row, and the same cursor and area.
    fn clone(&self) -> (copy: Self)
        ensures
            copy.spec_content().len() == self.spec_content().len(),
            forall|i: int|
                0 <= i < self.spec_content().len() ==> cloned::<T>(
                    #[trigger] self.spec_content()[i],
                    copy.spec_content()[i],
                ),
            copy.spec_cursor() == self.spec_cursor(),
            copy.spec_offset() == self.spec_offset(),
            copy.spec_commands_in_view() == self.spec_commands_in_view(),
            copy.placed() == self.placed(),
    {
        proof {
            use_type_invariant(self);
        }
        CommandsTable {
            offset: self.offset,
            cursor: self.cursor,
            content: self.content.clone(),
            commands_in_view: self.commands_in_view,
            area: self.area,
        }
    }
}

impl<T> UIComponent for CommandsTable<T> {
    closed spec fn placed(&self) -> Option<Area> {
        self.area
    }

    /// Every key but the down arrow on an empty table that has a cursor.
    open spec fn takes_key(&self, key: KeyEvent) -> bool {
        key.kind == KeyEventKind::Press && key.code == KeyCode::Down && self.spec_cursor() is Some
            ==> self.spec_content().len() > 0
    }

    open spec fn takes_click(&self, event: MouseEvent) -> bool {
        true
    }

    fn area(&self) -> (area: Option<Area>) {
        self.area
    }

    /// Moves the cursor as [`cursor_after`] says, and leaves the rest as it is.
    fn key(&mut self, key: KeyEvent) -> (action: Action)
        ensures
            action == Action::Done,
            final(self).spec_cursor() == cursor_after(
                old(self).spec_cursor(),
                old(self).spec_content().len(),
                key,
            ),
            final(self).same_but_cursor(old(self)),
    {
        proof {
            use_type_invariant(&*self);
        }
        if key.kind != KeyEventKind::Press {
            return Action::Done;
        }
        match key.code {
            KeyCode::Up => {
                self.cursor = match self.cursor {
                    Some(row) => Some(row.saturating_sub(1)),
                    None => Some(0),
                };
            },
            KeyCode::Down => {
                self.cursor = match self.cursor {
                    Some(row) => {
                        let next = row.saturating_add(1);
                        if next >= self.content.len() {
                            Some(self.content.len() - 1)
                        } else {
                            Some(next)
                        }
                    },
                    None => Some(0),
                };
            },
            _ => {},
        }
        Action::Done
    }

    /// A click changes nothing in the table.
    fn click(&mut self, event: MouseEvent)
        ensures
            *final(self) == *old(self),
    {
    }
}

} // verus!
