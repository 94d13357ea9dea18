//! The state of the viewer that shows the document of a command.

use crate::error::Error;
use crate::event::{KeyEvent, MouseEvent, MouseEventKind};
use crate::strings::{join_range, joined, lines_of, split_lines};
use crate::ui::state::{Action, Area, UIComponent};
use vstd::prelude::*;
use vstd::string::StringExecFns;

verus! {

/// The document that is shown, if one is, and the line that its window
/// starts at.
#[derive(Debug)]
pub struct Template {
    showing_document: bool,
    cursor: usize,
    document: Vec<String>,
    document_path: Option<String>,
    pub(crate) area: Option<Area>,
}

/// The lines of a document that a window of the given height shows, as the
/// index of the first and the index behind the last. A document that fits
/// is shown whole. A longer one is shown from the cursor on; where that
/// would run past its end, the window is moved up, and stops one line
/// short of the end.
pub open spec fn window(cursor: nat, lines: nat, height: nat) -> (int, int) {
    if lines <= height {
        (0, lines as int)
    } else if cursor + height > lines {
        (lines - height, lines - 1)
    } else {
        (cursor as int, (cursor + height) as int)
    }
}

/// The path of the document that the viewer asks for.
pub open spec fn document_to_open() -> Seq<char> {
    "Cargo.lock"@
}

/// Where the cursor is after a mouse event on a viewer that shows a
/// document of so many lines: the wheel moves it by one line, not before
/// the first and not beyond the last.
pub open spec fn cursor_scrolled(cursor: usize, lines: nat, kind: MouseEventKind) -> usize
    recommends
        lines > 0,
{
    match kind {
        MouseEventKind::ScrollUp => if cursor > 0 {
            (cursor - 1) as usize
        } else {
            cursor
        },
        MouseEventKind::ScrollDown => if cursor + 1 >= lines {
            (lines - 1) as usize
        } else {
            (cursor + 1) as usize
        },
        MouseEventKind::Other => cursor,
    }
}

impl Default for Template {
    /// A viewer that shows no document and has no area yet.
    fn default() -> (viewer: Self)
        ensures
            !viewer.spec_showing_document(),
            viewer.spec_cursor() == 0,
            viewer.spec_document().len() == 0,
            viewer.spec_document_path() is None,
            viewer.placed() is None,
    {
        Template {
            showing_document: false,
            cursor: 0,
            document: Vec::new(),
            document_path: None,
            area: None,
        }
    }
}

impl Template {
    /// The cursor is on a line of the document, or at the start.
    #[verifier::type_invariant]
    spec fn cursor_on_a_line(&self) -> bool {
        self.cursor == 0 || self.cursor < self.document@.len()
    }

    /// Whether a document is shown.
    pub closed spec fn spec_showing_document(&self) -> bool {
        self.showing_document
    }

    /// The line that the window starts at.
    pub closed spec fn spec_cursor(&self) -> usize {
        self.cursor
    }

    /// The lines of the document.
    pub closed spec fn spec_document(&self) -> Seq<Seq<char>> {
        self.document.deep_view()
    }

    /// The path that the document was read from.
    pub closed spec fn spec_document_path(&self) -> Option<Seq<char>> {
        match self.document_path {
            Some(path) => Some(path@),
            None => None,
        }
    }

    /// The two viewers differ in their area at most.
    pub open spec fn same_but_area(&self, other: &Self) -> bool {
        &&& self.spec_showing_document() == other.spec_showing_document()
        &&& self.spec_cursor() == other.spec_cursor()
        &&& self.spec_document() == other.spec_document()
        &&& self.spec_document_path() == other.spec_document_path()
    }

    /// The two viewers differ in their cursor at most.
    pub open spec fn same_but_cursor(&self, other: &Self) -> bool {
        &&& self.spec_showing_document() == other.spec_showing_document()
        &&& self.spec_document() == other.spec_document()
        &&& self.spec_document_path() == other.spec_document_path()
        &&& self.placed() == other.placed()
    }

    /// Whether a document is shown.
    #[verifier::when_used_as_spec(spec_showing_document)]
    pub fn showing_document(&self) -> (showing: bool)
        ensures
            showing == self.spec_showing_document(),
    {
        self.showing_document
    }

    /// The line that the window starts at: a line of the document, or 0.
    #[verifier::when_used_as_spec(spec_cursor)]
    pub fn cursor(&self) -> (cursor: usize)
        ensures
            cursor == self.spec_cursor(),
            cursor == 0 || cursor < self.spec_document().len(),
    {
        proof {
            use_type_invariant(self);
        }
        self.cursor
    }

    /// The lines of the document.
    pub fn document(&self) -> (lines: &Vec<String>)
        ensures
            lines.deep_view() == self.spec_document(),
    {
        &self.document
    }

    /// The path that the document was read from.
    pub fn document_path(&self) -> (path: &Option<String>)
        ensures
            match path {
                Some(path) => self.spec_document_path() == Some(path@),
                None => self.spec_document_path() is None,
            },
    {
        &self.document_path
    }

    /// Puts the viewer into an area of the terminal.
    pub fn place(&mut self, area: Area)
        ensures
            final(self).placed() == Some(area),
            final(self).same_but_area(old(self)),
    {
        proof {
            use_type_invariant(&*self);
        }
        self.area = Some(area);
    }

    /// Shows what is hidden and hides what is shown. A viewer that hides
    /// its document forgets it.
    fn toggle_document(&mut self)
        ensures
            final(self).spec_showing_document() == !old(self).spec_showing_document(),
            final(self).placed() == old(self).placed(),
            if old(self).spec_showing_document() {
                &&& final(self).spec_cursor() == 0
                &&& final(self).spec_document().len() == 0
                &&& final(self).spec_document_path() is None
            } else {
                &&& final(self).spec_cursor() == old(self).spec_cursor()
                &&& final(self).spec_document() == old(self).spec_document()
                &&& final(self).spec_document_path() == old(self).spec_document_path()
            },
    {
        proof {
            use_type_invariant(&*self);
        }
        self.showing_document = !self.showing_document;
        if !self.showing_document {
            self.clear_document();
        }
    }

    /// Forgets the document.
    fn clear_document(&mut self)
        ensures
            final(self).spec_showing_document() == old(self).spec_showing_document(),
            final(self).spec_cursor() == 0,
            final(self).spec_document().len() == 0,
            final(self).spec_document_path() is None,
            final(self).placed() == old(self).placed(),
    {
        proof {
            use_type_invariant(&*self);
        }
        self.cursor = 0;
        self.document_path = None;
        self.document = Vec::new();
    }

    /// Whether the document needs a scrollbar: it has more lines than the
    /// area has rows inside its frame.
    pub fn needs_scrollbar(&self) -> (needed: bool)
        requires
            self.placed() matches Some(area) && area.height >= 2,
        ensures
            needed == (self.spec_document().len() > self.placed()->0.height - 2),
    {
        match self.area {
            Some(area) => self.document.len() > (area.height - 2) as usize,
            None => false,
        }
    }

    /// The text of the window: the lines that [`window`] picks for the
    /// height of the area, each on a line of its own.
    pub fn text(&self) -> (text: String)
        requires
            self.placed() is Some,
        ensures
            ({
                let lines = self.spec_document();
                let (from, to) = window(
                    self.spec_cursor() as nat,
                    lines.len(),
                    self.placed()->0.height as nat,
                );
                text@ == joined(lines.subrange(from, to), "\n"@)
            }),
    {
        proof {
            use_type_invariant(self);
        }
        let height: usize = match self.area {
            Some(area) => area.height as usize,
            None => 0,
        };
        let lines = self.document.len();
        if lines <= height {
            join_range(&self.document, 0, lines, "\n")
        } else if height > lines - self.cursor {
            join_range(&self.document, lines - height, lines - 1, "\n")
        } else {
            join_range(&self.document, self.cursor, self.cursor + height, "\n")
        }
    }

    /// Shows the given lines as the document at `path`, from its first line.
    pub fn show_lines(&mut self, path: &str, lines: Vec<String>)
        ensures
            final(self).spec_showing_document(),
            final(self).spec_cursor() == 0,
            final(self).spec_document() == lines.deep_view(),
            final(self).spec_document_path() == Some(path@),
            final(self).placed() == old(self).placed(),
    {
        proof {
            use_type_invariant(&*self);
        }
        self.cursor = 0;
        self.document = lines;
        self.document_path = Some(String::from_str(path));
        if !self.showing_document {
            self.toggle_document();
        }
    }

    /// Takes what came of reading the document at `path`. What was read is
    /// shown line by line, from the first. Where reading failed, the viewer
    /// forgets its document and returns what to tell the user: the text of
    /// the error behind `Error: `.
    pub fn show_document(&mut self, path: &str, outcome: Result<String, Error>) -> (complaint:
        Option<String>)
        ensures
            final(self).spec_cursor() == 0,
            final(self).placed() == old(self).placed(),
            match outcome {
                Ok(content) => {
                    &&& complaint is None
                    &&& final(self).spec_showing_document()
                    &&& final(self).spec_document() == lines_of(content@)
                    &&& final(self).spec_document_path() == Some(path@)
                },
                Err(error) => {
                    &&& complaint matches Some(line) && exists|text: Seq<char>|
                        error.shown_as(text) && line@ == "Error: "@ + text
                    &&& final(self).spec_showing_document() == old(self).spec_showing_document()
                    &&& final(self).spec_document().len() == 0
                    &&& final(self).spec_document_path() is None
                },
            },
    {
        match outcome {
            Ok(content) => {
                let lines = split_lines(content.as_str());
                self.show_lines(path, lines);
                None
            },
            Err(error) => {
                self.clear_document();
                let text = error.message();
                Some(String::from_str("Error: ").concat(text.as_str()))
            },
        }
    }
}

impl UIComponent for Template {
    closed spec fn placed(&self) -> Option<Area> {
        self.area
    }

    open spec fn takes_key(&self, key: KeyEvent) -> bool {
        true
    }

    /// Every event but the wheel turned down on a document without lines.
    open spec fn takes_click(&self, event: MouseEvent) -> bool {
        self.spec_showing_document() && event.kind == MouseEventKind::ScrollDown
            ==> self.spec_document().len() > 0
    }

    fn area(&self) -> (area: Option<Area>) {
        self.area
    }

    /// Any key asks for the document, which the caller reads and hands to
    /// [`Template::show_document`].
    fn key(&mut self, key: KeyEvent) -> (action: Action)
        ensures
            action matches Action::Open(path) && path@ == document_to_open(),
            *final(self) == *old(self),
    {
        Action::Open(String::from_str("Cargo.lock"))
    }

    /// The wheel moves the window over a document that is shown, as
    /// [`cursor_scrolled`] says.
    fn click(&mut self, event: MouseEvent)
        ensures
            final(self).spec_cursor() == if old(self).spec_showing_document() {
                cursor_scrolled(old(self).spec_cursor(), old(self).spec_document().len(), event.kind)
            } else {
                old(self).spec_cursor()
            },
            final(self).same_but_cursor(old(self)),
    {
        proof {
            use_type_invariant(&*self);
        }
        if !self.showing_document {
            return ;
        }
        match event.kind {
            MouseEventKind::ScrollUp => {
                if self.cursor > 0 {
                    self.cursor = self.cursor - 1;
                }
            },
            MouseEventKind::ScrollDown => {
                let next = self.cursor.saturating_add(1);
                if next >= self.document.len() {
                    self.cursor = self.document.len() - 1;
                } else {
                    self.cursor = next;
                }
            },
            MouseEventKind::Other => {},
        }
    }
}

} // verus!
