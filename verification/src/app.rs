//! The state of the application, and what each event of the terminal does
//! to it.

use crate::commands::Command;
use crate::event::{Event, KeyCode, KeyEvent, KeyEventKind, MouseEvent, MouseEventKind};
use crate::ui::search::{inserts_newline, SearchBox};
use crate::ui::state::{Action, Area, Position, UIComponent};
use crate::ui::table::{cursor_after, CommandsTable};
use crate::ui::template::{cursor_scrolled, document_to_open, Template};
use vstd::prelude::*;
use vstd::string::StringExecFns;

verus! {

/// The widget that has the user's attention.
#[derive(Debug, Clone, Copy, PartialEq, Eq, Structural)]
pub enum AppFocus {
    Table,
    Search,
    Template,
    Nowhere,
}

/// The application.
#[derive(Debug)]
pub struct App {
    /// Is the application running?
    pub running: bool,
    /// The state of the table.
    pub table_state: CommandsTable<Command>,
    /// The state of the search box.
    pub search_state: SearchBox,
    /// The state of the document viewer.
    pub template_state: Template,
    /// The widget that the user is on.
    pub attention: AppFocus,
}

/// The command that a new application lists.
pub open spec fn lists_directory(command: Command) -> bool {
    &&& command.command@ == "ls"@
    &&& command.description@ == "List directory contents"@
    &&& command.tags.deep_view() == seq!["list"@, "directory"@, "contents"@]
}

/// The keys that end the application: Escape, and `c` with Control.
pub open spec fn quits(key: KeyEvent) -> bool {
    key.code == KeyCode::Esc || (key.code == KeyCode::Char('c') && key.ctrl)
}

impl App {
    /// The widget that lies at a position: the table, else the search box,
    /// else the viewer, as far as each has an area that holds the position.
    pub open spec fn focus_at(&self, position: Position) -> AppFocus {
        if self.table_state.placed() matches Some(area) && area.holds(position) {
            AppFocus::Table
        } else if self.search_state.placed() matches Some(area) && area.holds(position) {
            AppFocus::Search
        } else if self.template_state.placed() matches Some(area) && area.holds(position) {
            AppFocus::Template
        } else {
            AppFocus::Nowhere
        }
    }

    /// The events that the application can handle in its present state: no
    /// change of the terminal's size, and what the widget that the event goes
    /// to can handle.
    pub open spec fn takes(&self, event: Event) -> bool {
        match event {
            Event::Tick => true,
            Event::Resize(_, _) => false,
            Event::Key(key) => quits(key) || (self.attention == AppFocus::Table
                ==> self.table_state.takes_key(key)),
            Event::Mouse(mouse) => self.focus_at(Position { x: mouse.column, y: mouse.row })
                == AppFocus::Template ==> self.template_state.takes_click(mouse),
        }
    }

    /// A running application that lists ten times the command `ls`. No
    /// widget has the user's attention or an area yet.
    pub fn new() -> (app: Self)
        ensures
            app.running,
            app.attention == AppFocus::Nowhere,
            app.table_state.spec_content().len() == 10,
            forall|i: int| 0 <= i < 10 ==> lists_directory(#[trigger] app.table_state.spec_content()[i]),
            app.table_state.spec_cursor() is None,
            app.table_state.spec_offset() == 0,
            app.table_state.spec_commands_in_view() == 0,
            app.table_state.placed() is None,
            app.search_state.placed() is None,
            !app.template_state.spec_showing_document(),
            app.template_state.spec_cursor() == 0,
            app.template_state.spec_document().len() == 0,
            app.template_state.spec_document_path() is None,
            app.template_state.placed() is None,
    {
        let mut rows: Vec<Command> = Vec::new();
        while rows.len() < 10
            invariant
                rows@.len() <= 10,
                forall|i: int| 0 <= i < rows@.len() ==> lists_directory(#[trigger] rows@[i]),
            decreases 10 - rows@.len(),
        {
            let mut tags: Vec<String> = Vec::new();
            tags.push(String::from_str("list"));
            tags.push(String::from_str("directory"));
            tags.push(String::from_str("contents"));
            assert(tags.deep_view() == seq!["list"@, "directory"@, "contents"@]);
            rows.push(
                Command {
                    command: String::from_str("ls"),
                    description: String::from_str("List directory contents"),
                    tags,
                },
            );
        }
        App {
            running: true,
            table_state: CommandsTable::new(rows),
            search_state: SearchBox::default(),
            template_state: Template::default(),
            attention: AppFocus::Nowhere,
        }
    }

    /// Puts the three widgets into their areas.
    pub fn views(&mut self, template: Area, commands: Area, search: Area)
        ensures
            final(self).template_state.placed() == Some(template),
            final(self).table_state.placed() == Some(commands),
            final(self).search_state.placed() == Some(search),
            final(self).running == old(self).running,
            final(self).attention == old(self).attention,
            final(self).table_state.same_but_area(&old(self).table_state),
            final(self).template_state.same_but_area(&old(self).template_state),
    {
        self.search_state.place(search);
        self.table_state.place(commands);
        self.template_state.place(template);
    }

    /// The tick of the terminal changes nothing.
    pub fn tick(&self) {
    }

    /// Ends the application.
    pub fn quit(&mut self)
        ensures
            !final(self).running,
            final(self).table_state == old(self).table_state,
            final(self).search_state == old(self).search_state,
            final(self).template_state == old(self).template_state,
            final(self).attention == old(self).attention,
    {
        self.running = false;
    }

    /// Whether the application can handle the event in its present state.
    pub fn accepts(&self, event: &Event) -> (accepted: bool)
        ensures
            accepted == self.takes(*event),
    {
        match event {
            Event::Tick => true,
            Event::Resize(_, _) => false,
            Event::Key(key) => {
                let quitting = match key.code {
                    KeyCode::Esc => true,
                    KeyCode::Char(c) => c == 'c' && key.ctrl,
                    _ => false,
                };
                let moving_down = match (key.kind, key.code) {
                    (KeyEventKind::Press, KeyCode::Down) => true,
                    _ => false,
                };
                quitting || !(self.attention == AppFocus::Table) || !moving_down
                    || self.table_state.cursor().is_none() || self.table_state.content().len() > 0
            },
            Event::Mouse(mouse) => {
                let position = Position { x: mouse.column, y: mouse.row };
                let scrolling_down = match mouse.kind {
                    MouseEventKind::ScrollDown => true,
                    _ => false,
                };
                self.table_state.contains(position) || self.search_state.contains(position)
                    || !self.template_state.contains(position)
                    || !self.template_state.showing_document() || !scrolling_down
                    || self.template_state.document().len() > 0
            },
        }
    }

    /// Handles an event of the terminal, and says what is left for the
    /// caller to do.
    ///
    /// Escape, and `c` with Control, end the application. Any other key goes
    /// to the widget that has the user's attention. A mouse event gives the
    /// attention to the widget under the mouse, and the event with it. A tick
    /// changes nothing.
    pub fn handle(&mut self, event: Event) -> (action: Action)
        requires
            old(self).takes(event),
        ensures
            final(self).search_state == old(self).search_state,
            final(self).table_state.same_but_cursor(&old(self).table_state),
            final(self).template_state.same_but_cursor(&old(self).template_state),
            final(self).running == (old(self).running && !(event matches Event::Key(key) && quits(
                key,
            ))),
            final(self).attention == match event {
                Event::Mouse(mouse) => old(self).focus_at(
                    Position { x: mouse.column, y: mouse.row },
                ),
                _ => old(self).attention,
            },
            final(self).table_state.spec_cursor() == match event {
                Event::Key(key) if !quits(key) && old(self).attention == AppFocus::Table
                    => cursor_after(
                    old(self).table_state.spec_cursor(),
                    old(self).table_state.spec_content().len(),
                    key,
                ),
                _ => old(self).table_state.spec_cursor(),
            },
            final(self).template_state.spec_cursor() == match event {
                Event::Mouse(mouse) if final(self).attention == AppFocus::Template && old(
                    self,
                ).template_state.spec_showing_document() => cursor_scrolled(
                    old(self).template_state.spec_cursor(),
                    old(self).template_state.spec_document().len(),
                    mouse.kind,
                ),
                _ => old(self).template_state.spec_cursor(),
            },
            match event {
                Event::Key(key) if !quits(key) && old(self).attention == AppFocus::Search
                    && !inserts_newline(key) => action == Action::Edit,
                Event::Key(key) if !quits(key) && old(self).attention == AppFocus::Template
                    => action matches Action::Open(path) && path@ == document_to_open(),
                _ => action == Action::Done,
            },
    {
        match event {
            Event::Key(key) => {
                let quitting = match key.code {
                    KeyCode::Esc => true,
                    KeyCode::Char(c) => c == 'c' && key.ctrl,
                    _ => false,
                };
                if quitting {
                    self.quit();
                    Action::Done
                } else {
                    self.key_handling(key)
                }
            },
            Event::Mouse(mouse) => {
                self.click(mouse);
                Action::Done
            },
            _ => Action::Done,
        }
    }

    /// Hands a key to the widget that has the user's attention.
    fn key_handling(&mut self, key: KeyEvent) -> (action: Action)
        requires
            old(self).attention == AppFocus::Table ==> old(self).table_state.takes_key(key),
        ensures
            final(self).running == old(self).running,
            final(self).attention == old(self).attention,
            final(self).search_state == old(self).search_state,
            final(self).template_state == old(self).template_state,
            final(self).table_state.same_but_cursor(&old(self).table_state),
            final(self).table_state.spec_cursor() == if old(self).attention == AppFocus::Table {
                cursor_after(
                    old(self).table_state.spec_cursor(),
                    old(self).table_state.spec_content().len(),
                    key,
                )
            } else {
                old(self).table_state.spec_cursor()
            },
            match old(self).attention {
                AppFocus::Table | AppFocus::Nowhere => action == Action::Done,
                AppFocus::Search => action == if inserts_newline(key) {
                    Action::Done
                } else {
                    Action::Edit
                },
                AppFocus::Template => action matches Action::Open(path) && path@ == document_to_open(),
            },
    {
        match self.attention {
            AppFocus::Table => self.table_state.key(key),
            AppFocus::Search => self.search_state.key(key),
            AppFocus::Template => self.template_state.key(key),
            AppFocus::Nowhere => Action::Done,
        }
    }

    /// Gives the user's attention to the widget under the mouse, and the
    /// event to that widget.
    fn click(&mut self, event: MouseEvent)
        requires
            old(self).focus_at(Position { x: event.column, y: event.row }) == AppFocus::Template
                ==> old(self).template_state.takes_click(event),
        ensures
            final(self).attention == old(self).focus_at(Position { x: event.column, y: event.row }),
            final(self).running == old(self).running,
            final(self).table_state == old(self).table_state,
            final(self).search_state == old(self).search_state,
            final(self).template_state.same_but_cursor(&old(self).template_state),
            final(self).template_state.spec_cursor() == if final(self).attention
                == AppFocus::Template && old(self).template_state.spec_showing_document() {
                cursor_scrolled(
                    old(self).template_state.spec_cursor(),
                    old(self).template_state.spec_document().len(),
                    event.kind,
                )
            } else {
                old(self).template_state.spec_cursor()
            },
    {
        let position = Position { x: event.column, y: event.row };
        if self.table_state.contains(position) {
            self.attention = AppFocus::Table;
            self.table_state.click(event);
        } else if self.search_state.contains(position) {
            self.attention = AppFocus::Search;
            self.search_state.click(event);
        } else if self.template_state.contains(position) {
            self.attention = AppFocus::Template;
            self.template_state.click(event);
        } else {
            self.attention = AppFocus::Nowhere;
        }
    }
}

} // verus!
