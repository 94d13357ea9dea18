//! The record of one command.

use crate::strings::{join, joined};
use vstd::prelude::*;
use vstd::string::StringExecFns;

verus! {

/// A command, the tags it is found under, and what it does.
#[derive(Debug, Clone)]
pub struct Command {
    pub command: String,
    pub tags: Vec<String>,
    pub description: String,
}

impl Command {
    /// The record that a list of fields stands for: the command comes last,
    /// its description before it, and the tags are all that precedes them.
    ///
    /// The list must hold the command and its description at least.
    pub fn from(fields: Vec<String>) -> (record: Command)
        requires
            fields@.len() >= 2,
        ensures
            record.command@ == fields@[fields@.len() - 1]@,
            record.description@ == fields@[fields@.len() - 2]@,
            record.tags.deep_view() == fields.deep_view().take(fields@.len() - 2),
    {
        let mut fields = fields;
        let command = fields.pop().unwrap_or_default();
        let description = fields.pop().unwrap_or_default();
        Command { command, tags: fields, description }
    }

    /// What the table shows for the tags: the tags with a comma and a space
    /// between each two, or `No tags` where there is none.
    pub fn tags_label(&self) -> (label: String)
        ensures
            label@ == self.spec_tags_label(),
    {
        if self.tags.len() == 0 {
            String::from_str("No tags")
        } else {
            join(&self.tags, ", ")
        }
    }

    /// The text of [`Command::tags_label`].
    pub open spec fn spec_tags_label(&self) -> Seq<char> {
        if self.tags@.len() == 0 {
            "No tags"@
        } else {
            joined(self.tags.deep_view(), ", "@)
        }
    }
}

} // verus!
