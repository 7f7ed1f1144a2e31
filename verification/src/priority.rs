//! The urgency of a task.

use crate::error::TodoError;
use crate::text::{lowercase, same_text, to_lowercase};
use vstd::prelude::*;

verus! {

/// Ordinal urgency: `P0` is the most urgent, `P5` the least.
#[derive(Clone, Copy, Debug, PartialEq, Eq, Hash, Structural)]
pub enum Priority {
    /// Urgent: work on this right now.
    P0,
    /// Must have.
    P1,
    /// Should do.
    P2,
    /// Nice to have.
    P3,
    /// Wishlist.
    P4,
    /// Worth considering.
    P5,
}

impl Default for Priority {
    fn default() -> (p: Self)
        ensures
            p == Priority::P2,
    {
        Priority::P2
    }
}

impl Priority {
    /// The number by which priorities are ordered: 0 for `P0` up to 5 for `P5`.
    pub open spec fn rank(self) -> int {
        match self {
            Priority::P0 => 0,
            Priority::P1 => 1,
            Priority::P2 => 2,
            Priority::P3 => 3,
            Priority::P4 => 4,
            Priority::P5 => 5,
        }
    }

    /// The priority whose rank is `n`, for `n` up to 5; `P5` beyond.
    pub open spec fn of_rank(n: int) -> Priority {
        if n <= 0 {
            Priority::P0
        } else if n == 1 {
            Priority::P1
        } else if n == 2 {
            Priority::P2
        } else if n == 3 {
            Priority::P3
        } else if n == 4 {
            Priority::P4
        } else {
            Priority::P5
        }
    }

    /// The name of the priority: `P0` to `P5`.
    pub open spec fn label_text(self) -> Seq<char> {
        match self {
            Priority::P0 => "P0"@,
            Priority::P1 => "P1"@,
            Priority::P2 => "P2"@,
            Priority::P3 => "P3"@,
            Priority::P4 => "P4"@,
            Priority::P5 => "P5"@,
        }
    }

    /// The rank of the priority, 0 to 5; lower is more urgent.
    pub fn value(&self) -> (v: u8)
        ensures
            v == self.rank(),
    {
        match self {
            Priority::P0 => 0,
            Priority::P1 => 1,
            Priority::P2 => 2,
            Priority::P3 => 3,
            Priority::P4 => 4,
            Priority::P5 => 5,
        }
    }

    /// The name of the priority: `P0` to `P5`.
    pub fn label(&self) -> (s: String)
        ensures
            s@ == self.label_text(),
    {
        match self {
            Priority::P0 => "P0".to_owned(),
            Priority::P1 => "P1".to_owned(),
            Priority::P2 => "P2".to_owned(),
            Priority::P3 => "P3".to_owned(),
            Priority::P4 => "P4".to_owned(),
            Priority::P5 => "P5".to_owned(),
        }
    }

    /// One step more urgent; `P0` stays `P0`.
    pub fn raised(&self) -> (p: Priority)
        ensures
            p == Priority::of_rank(self.rank() - 1),
            p.rank() == if self.rank() == 0 { 0 } else { self.rank() - 1 },
    {
        match self {
            Priority::P5 => Priority::P4,
            Priority::P4 => Priority::P3,
            Priority::P3 => Priority::P2,
            Priority::P2 => Priority::P1,
            Priority::P1 => Priority::P0,
            Priority::P0 => Priority::P0,
        }
    }

    /// One step less urgent; `P5` stays `P5`.
    pub fn lowered(&self) -> (p: Priority)
        ensures
            p == Priority::of_rank(self.rank() + 1),
            p.rank() == if self.rank() == 5 { 5 } else { self.rank() + 1 },
    {
        match self {
            Priority::P0 => Priority::P1,
            Priority::P1 => Priority::P2,
            Priority::P2 => Priority::P3,
            Priority::P3 => Priority::P4,
            Priority::P4 => Priority::P5,
            Priority::P5 => Priority::P5,
        }
    }
}

/// The priority that a lowercase name stands for: `p0` to `p5`.
pub open spec fn priority_named(name: Seq<char>) -> Option<Priority> {
    if name == "p0"@ {
        Some(Priority::P0)
    } else if name == "p1"@ {
        Some(Priority::P1)
    } else if name == "p2"@ {
        Some(Priority::P2)
    } else if name == "p3"@ {
        Some(Priority::P3)
    } else if name == "p4"@ {
        Some(Priority::P4)
    } else if name == "p5"@ {
        Some(Priority::P5)
    } else {
        None
    }
}

/// Reads a priority from its lowercase name, exactly as written.
pub fn parse_priority_for_filter(priority_str: &str) -> (r: Result<Priority, ()>)
    ensures
        r == match priority_named(priority_str@) {
            Some(p) => Ok::<Priority, ()>(p),
            None => Err(()),
        },
{
    if same_text(priority_str, "p0") {
        Ok(Priority::P0)
    } else if same_text(priority_str, "p1") {
        Ok(Priority::P1)
    } else if same_text(priority_str, "p2") {
        Ok(Priority::P2)
    } else if same_text(priority_str, "p3") {
        Ok(Priority::P3)
    } else if same_text(priority_str, "p4") {
        Ok(Priority::P4)
    } else if same_text(priority_str, "p5") {
        Ok(Priority::P5)
    } else {
        Err(())
    }
}

/// Reads a priority from its name in any letter case.
pub fn parse_priority(priority_str: &str) -> (r: Result<Priority, TodoError>)
    ensures
        r == match priority_named(lowercase(priority_str@)) {
            Some(p) => Ok::<Priority, TodoError>(p),
            None => Err(TodoError::InvalidPriority),
        },
{
    let lower = to_lowercase(priority_str);
    match parse_priority_for_filter(lower.as_str()) {
        Ok(p) => Ok(p),
        Err(_) => Err(TodoError::InvalidPriority),
    }
}

} // verus!
