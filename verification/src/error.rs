//! The errors of the task rules.

use crate::text::{decimal, to_decimal};
use vstd::prelude::*;

verus! {

/// The three families an error belongs to.
#[derive(Clone, Copy, Debug, PartialEq, Eq, Structural)]
pub enum ErrorKind {
    /// A field of a task breaks a length or emptiness rule.
    Validation,
    /// No task has the id that was asked for.
    NotFound,
    /// A status or priority name could not be read.
    InvalidValue,
}

/// Why an operation on a task or on the collection was refused.
#[derive(Clone, Copy, Debug, PartialEq, Eq, Structural)]
pub enum TodoError {
    /// The title is empty once trimmed.
    EmptyTitle,
    /// The trimmed title has `len` characters, more than the limit.
    TitleTooLong { len: usize },
    /// The category has `len` characters, more than the limit.
    CategoryTooLong { len: usize },
    /// The project has `len` characters, more than the limit.
    ProjectTooLong { len: usize },
    /// The notes have `len` characters, more than the limit.
    NotesTooLong { len: usize },
    /// The normalized tag at `index` has `len` characters, more than the limit.
    TagTooLong { index: usize, len: usize },
    /// The normalized tag at `index` holds a space.
    TagHasSpace { index: usize },
    /// No task has this id.
    NotFound { id: u32 },
    /// The text names no status.
    InvalidStatus,
    /// The text names no priority.
    InvalidPriority,
    /// The form's priority list has nothing selected.
    NoPrioritySelected,
    /// The form's status list has nothing selected.
    NoStatusSelected,
    /// A delete was asked for without an id, a category or a status.
    NoDeleteTarget,
}

impl TodoError {
    /// The family of the error.
    pub open spec fn kind_of(self) -> ErrorKind {
        match self {
            TodoError::NotFound { .. } => ErrorKind::NotFound,
            TodoError::InvalidStatus
            | TodoError::InvalidPriority
            | TodoError::NoDeleteTarget => ErrorKind::InvalidValue,
            _ => ErrorKind::Validation,
        }
    }

    /// The family of the error.
    pub fn kind(&self) -> (k: ErrorKind)
        ensures
            k == self.kind_of(),
    {
        match self {
            TodoError::NotFound { .. } => ErrorKind::NotFound,
            TodoError::InvalidStatus
            | TodoError::InvalidPriority
            | TodoError::NoDeleteTarget => ErrorKind::InvalidValue,
            _ => ErrorKind::Validation,
        }
    }
    /// What the error says, in words.
    pub open spec fn message_text(self) -> Seq<char> {
        match self {
            TodoError::EmptyTitle => "Title cannot be empty"@,
            TodoError::TitleTooLong { len } => "Title cannot exceed 200 characters (current: "@
                + decimal(len as nat) + ")"@,
            TodoError::CategoryTooLong { len } => "Category cannot exceed 50 characters (current: "@
                + decimal(len as nat) + ")"@,
            TodoError::ProjectTooLong { len } => "Project cannot exceed 100 characters (current: "@
                + decimal(len as nat) + ")"@,
            TodoError::NotesTooLong { len } => "Notes cannot exceed 2000 characters (current: "@
                + decimal(len as nat) + ")"@,
            TodoError::TagTooLong { index, len } => "Tag number "@ + decimal(index as nat)
                + " cannot exceed 30 characters (current: "@ + decimal(len as nat) + ")"@,
            TodoError::TagHasSpace { index } => "Tag number "@ + decimal(index as nat)
                + " cannot contain spaces (use underscores)"@,
            TodoError::NotFound { id } => "TODO with ID "@ + decimal(id as nat) + " not found"@,
            TodoError::InvalidStatus => "Invalid status. Valid values: todo, inprogress, done, archived"@,
            TodoError::InvalidPriority => "Invalid priority. Valid values: p0, p1, p2, p3, p4, p5"@,
            TodoError::NoPrioritySelected => "No priority selected"@,
            TodoError::NoStatusSelected => "No status selected"@,
            TodoError::NoDeleteTarget => "Must specify either ID, category, or status"@,
        }
    }

    /// What the error says, in words. Tags are numbered from 0, in the order
    /// of the normalized tags.
    pub fn message(&self) -> (text: String)
        ensures
            text@ == self.message_text(),
    {
        match self {
            TodoError::EmptyTitle => "Title cannot be empty".to_owned(),
            TodoError::TitleTooLong { len } => with_number(
                "Title cannot exceed 200 characters (current: ",
                *len as u64,
                ")",
            ),
            TodoError::CategoryTooLong { len } => with_number(
                "Category cannot exceed 50 characters (current: ",
                *len as u64,
                ")",
            ),
            TodoError::ProjectTooLong { len } => with_number(
                "Project cannot exceed 100 characters (current: ",
                *len as u64,
                ")",
            ),
            TodoError::NotesTooLong { len } => with_number(
                "Notes cannot exceed 2000 characters (current: ",
                *len as u64,
                ")",
            ),
            TodoError::TagTooLong { index, len } => {
                let mut text = with_number(
                    "Tag number ",
                    *index as u64,
                    " cannot exceed 30 characters (current: ",
                );
                let count = to_decimal(*len as u64);
                text.append(count.as_str());
                text.append(")");
                text
            },
            TodoError::TagHasSpace { index } => with_number(
                "Tag number ",
                *index as u64,
                " cannot contain spaces (use underscores)",
            ),
            TodoError::NotFound { id } => with_number("TODO with ID ", *id as u64, " not found"),
            TodoError::InvalidStatus => "Invalid status. Valid values: todo, inprogress, done, archived".to_owned(),
            TodoError::InvalidPriority => "Invalid priority. Valid values: p0, p1, p2, p3, p4, p5".to_owned(),
            TodoError::NoPrioritySelected => "No priority selected".to_owned(),
            TodoError::NoStatusSelected => "No status selected".to_owned(),
            TodoError::NoDeleteTarget => "Must specify either ID, category, or status".to_owned(),
        }
    }
}

/// A text, a number in decimal, and a text, one after another.
fn with_number(before: &str, n: u64, after: &str) -> (text: String)
    ensures
        text@ == before@ + decimal(n as nat) + after@,
{
    let mut text = before.to_owned();
    let number = to_decimal(n);
    text.append(number.as_str());
    text.append(after);
    text
}

} // verus!
