//! The decisions of the first-time setup: what a menu answer means, and how
//! the wait for an authorization goes on.

use crate::text::{same_text, trim, trimmed};
use vstd::prelude::*;

verus! {

/// What the user chose in the setup menu.
#[derive(Clone, Copy, Debug, PartialEq, Eq, Structural)]
pub enum SetupChoice {
    /// Create a repository on GitHub and link it.
    WithGithub,
    /// Keep the data on this machine only.
    LocalOnly,
    /// Leave without changing anything.
    Cancel,
}

/// The choice that an answer stands for, once trimmed: `1`, `2` or `3`.
pub open spec fn choice_named(answer: Seq<char>) -> Option<SetupChoice> {
    let t = trimmed(answer);
    if t == "1"@ {
        Some(SetupChoice::WithGithub)
    } else if t == "2"@ {
        Some(SetupChoice::LocalOnly)
    } else if t == "3"@ {
        Some(SetupChoice::Cancel)
    } else {
        None
    }
}

/// Reads the answer to the setup menu: see [`choice_named`].
pub fn parse_choice(answer: &str) -> (choice: Option<SetupChoice>)
    ensures
        choice == choice_named(answer@),
{
    let t = trim(answer);
    if same_text(t.as_str(), "1") {
        Some(SetupChoice::WithGithub)
    } else if same_text(t.as_str(), "2") {
        Some(SetupChoice::LocalOnly)
    } else if same_text(t.as_str(), "3") {
        Some(SetupChoice::Cancel)
    } else {
        None
    }
}

/// How the wait for an authorization goes on after an answer of the server.
#[derive(Clone, Copy, Debug, PartialEq, Eq, Structural)]
pub enum PollDecision {
    /// The answer holds the access token.
    Granted,
    /// Ask again after the usual interval.
    KeepWaiting,
    /// Wait five seconds more, then ask again after the usual interval.
    SlowDown,
    /// The server refused; give up with its error.
    Refused,
}

/// The decision for an answer, of which only this is read: whether it holds
/// an access token, and its error text if it has one. A token ends the wait.
/// The error `authorization_pending` asks to go on, `slow_down` to go on
/// more slowly, and any other error ends the wait. An answer with neither
/// asks to go on.
pub open spec fn poll_decision(has_token: bool, error: Option<Seq<char>>) -> PollDecision {
    if has_token {
        PollDecision::Granted
    } else {
        match error {
            Some(e) => if e == "authorization_pending"@ {
                PollDecision::KeepWaiting
            } else if e == "slow_down"@ {
                PollDecision::SlowDown
            } else {
                PollDecision::Refused
            },
            None => PollDecision::KeepWaiting,
        }
    }
}

/// Decides how the wait for an authorization goes on: see [`poll_decision`].
pub fn decide_poll(has_token: bool, error: Option<&str>) -> (decision: PollDecision)
    ensures
        decision == poll_decision(
            has_token,
            match error {
                Some(e) => Some(e@),
                None => None,
            },
        ),
{
    if has_token {
        return PollDecision::Granted;
    }
    match error {
        Some(e) => {
            if same_text(e, "authorization_pending") {
                PollDecision::KeepWaiting
            } else if same_text(e, "slow_down") {
                PollDecision::SlowDown
            } else {
                PollDecision::Refused
            }
        },
        None => PollDecision::KeepWaiting,
    }
}

} // verus!
