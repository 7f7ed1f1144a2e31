//! The lifecycle stage of a task.

use crate::error::TodoError;
use crate::text::{lowercase, same_text, to_lowercase};
use vstd::prelude::*;

verus! {

/// Where a task stands in its life.
#[derive(Clone, Copy, Debug, PartialEq, Eq, Hash, Structural)]
pub enum Status {
    Todo,
    InProgress,
    Done,
    Archived,
}

impl Default for Status {
    fn default() -> (s: Self)
        ensures
            s == Status::Todo,
    {
        Status::Todo
    }
}

impl Status {
    /// A task is active while it is still to do or in progress.
    pub open spec fn active(self) -> bool {
        self == Status::Todo || self == Status::InProgress
    }

    /// The name of the status.
    pub open spec fn label_text(self) -> Seq<char> {
        match self {
            Status::Todo => "Todo"@,
            Status::InProgress => "InProgress"@,
            Status::Done => "Done"@,
            Status::Archived => "Archived"@,
        }
    }

    /// Whether the status is `Todo` or `InProgress`.
    pub fn is_active(&self) -> (b: bool)
        ensures
            b == self.active(),
    {
        match self {
            Status::Todo | Status::InProgress => true,
            _ => false,
        }
    }

    /// The name of the status.
    pub fn label(&self) -> (s: String)
        ensures
            s@ == self.label_text(),
    {
        match self {
            Status::Todo => "Todo".to_owned(),
            Status::InProgress => "InProgress".to_owned(),
            Status::Done => "Done".to_owned(),
            Status::Archived => "Archived".to_owned(),
        }
    }
}

/// The status that a lowercase name stands for. "In progress" has three
/// spellings: `inprogress`, `in-progress` and `in_progress`.
pub open spec fn status_named(name: Seq<char>) -> Option<Status> {
    if name == "todo"@ {
        Some(Status::Todo)
    } else if name == "inprogress"@ || name == "in-progress"@ || name == "in_progress"@ {
        Some(Status::InProgress)
    } else if name == "done"@ {
        Some(Status::Done)
    } else if name == "archived"@ {
        Some(Status::Archived)
    } else {
        None
    }
}

/// Reads a status from its lowercase name, exactly as written.
pub fn parse_status_for_filter(status_str: &str) -> (r: Result<Status, ()>)
    ensures
        r == match status_named(status_str@) {
            Some(s) => Ok::<Status, ()>(s),
            None => Err(()),
        },
{
    if same_text(status_str, "todo") {
        Ok(Status::Todo)
    } else if same_text(status_str, "inprogress") || same_text(status_str, "in-progress")
        || same_text(status_str, "in_progress") {
        Ok(Status::InProgress)
    } else if same_text(status_str, "done") {
        Ok(Status::Done)
    } else if same_text(status_str, "archived") {
        Ok(Status::Archived)
    } else {
        Err(())
    }
}

/// Reads a status from its name in any letter case.
pub fn parse_status(status_str: &str) -> (r: Result<Status, TodoError>)
    ensures
        r == match status_named(lowercase(status_str@)) {
            Some(s) => Ok::<Status, TodoError>(s),
            None => Err(TodoError::InvalidStatus),
        },
{
    let lower = to_lowercase(status_str);
    match parse_status_for_filter(lower.as_str()) {
        Ok(s) => Ok(s),
        Err(_) => Err(TodoError::InvalidStatus),
    }
}

} // verus!
