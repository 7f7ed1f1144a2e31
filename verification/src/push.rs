//! The decisions of pushing the data directory to its remote: which git
//! command comes next, given how the last one went.

use crate::text::{
    chars_of, contains_chars, contains_text, is_blank, replace_text, replaced_text,
    starts_with_str, starts_with_text, trimmed,
};
use crate::time::{is_minute_text, local_minute_text};
use vstd::prelude::*;

verus! {

/// Where a push stands.
#[derive(Clone, Copy, Debug, PartialEq, Eq, Structural)]
pub enum PushState {
    /// The working tree is being asked for changes.
    CheckingStatus,
    /// The changes are being staged.
    Staging,
    /// The staged changes are being committed.
    Committing,
    /// The commits are being pushed.
    Pushing,
    /// The commits are being pushed once more, this time setting the
    /// upstream branch.
    SettingUpstream,
}

/// The git command to run next, or the end of the push.
#[derive(Clone, Copy, Debug, PartialEq, Eq, Structural)]
pub enum PushStep {
    /// `git add .`
    Stage,
    /// `git commit -m` with the message.
    Commit,
    /// `git push origin main`
    Push,
    /// `git push --set-upstream origin main`
    PushSettingUpstream,
    /// There is nothing to push and the push was not forced.
    NothingToPush,
    /// Everything is pushed.
    Finished,
    /// The command failed; the push ends with its error output.
    Failed,
}

/// The text that git prints where a branch has no upstream.
pub open spec fn no_upstream_text() -> Seq<char> {
    "no upstream branch"@
}

/// What comes next after a command ended. `succeeded` says whether it ended
/// well, `has_changes` whether the status command found changes, `force`
/// whether the push was forced, and `error_output` is what the command
/// printed as its error. Without changes the push goes straight to pushing
/// where it is forced, and ends where it is not. A push that fails for want
/// of an upstream branch is tried once more setting it; every other failure
/// ends the push.
pub open spec fn next_step(
    state: PushState,
    succeeded: bool,
    has_changes: bool,
    force: bool,
    error_output: Seq<char>,
) -> PushStep {
    match state {
        PushState::CheckingStatus => if !succeeded {
            PushStep::Failed
        } else if has_changes {
            PushStep::Stage
        } else if force {
            PushStep::Push
        } else {
            PushStep::NothingToPush
        },
        PushState::Staging => if succeeded {
            PushStep::Commit
        } else {
            PushStep::Failed
        },
        PushState::Committing => if succeeded {
            PushStep::Push
        } else {
            PushStep::Failed
        },
        PushState::Pushing => if succeeded {
            PushStep::Finished
        } else if contains_text(error_output, no_upstream_text()) {
            PushStep::PushSettingUpstream
        } else {
            PushStep::Failed
        },
        PushState::SettingUpstream => if succeeded {
            PushStep::Finished
        } else {
            PushStep::Failed
        },
    }
}

/// The state that a step leads to, for a step that runs a command.
pub open spec fn state_of(step: PushStep) -> Option<PushState> {
    match step {
        PushStep::Stage => Some(PushState::Staging),
        PushStep::Commit => Some(PushState::Committing),
        PushStep::Push => Some(PushState::Pushing),
        PushStep::PushSettingUpstream => Some(PushState::SettingUpstream),
        _ => None,
    }
}

impl PushState {
    /// Says what comes next after a command ended: see [`next_step`].
    pub fn advance(&self, succeeded: bool, has_changes: bool, force: bool, error_output: &str) -> (step:
        PushStep)
        ensures
            step == next_step(*self, succeeded, has_changes, force, error_output@),
    {
        match self {
            PushState::CheckingStatus => {
                if !succeeded {
                    PushStep::Failed
                } else if has_changes {
                    PushStep::Stage
                } else if force {
                    PushStep::Push
                } else {
                    PushStep::NothingToPush
                }
            },
            PushState::Staging => {
                if succeeded {
                    PushStep::Commit
                } else {
                    PushStep::Failed
                }
            },
            PushState::Committing => {
                if succeeded {
                    PushStep::Push
                } else {
                    PushStep::Failed
                }
            },
            PushState::Pushing => {
                if succeeded {
                    PushStep::Finished
                } else {
                    let output = chars_of(error_output);
                    let marker = chars_of("no upstream branch");
                    if contains_chars(&output, &marker) {
                        PushStep::PushSettingUpstream
                    } else {
                        PushStep::Failed
                    }
                }
            },
            PushState::SettingUpstream => {
                if succeeded {
                    PushStep::Finished
                } else {
                    PushStep::Failed
                }
            },
        }
    }
}

impl PushStep {
    /// The state in which the command of this step runs; none where the step
    /// ends the push.
    pub fn state(&self) -> (state: Option<PushState>)
        ensures
            state == state_of(*self),
    {
        match self {
            PushStep::Stage => Some(PushState::Staging),
            PushStep::Commit => Some(PushState::Committing),
            PushStep::Push => Some(PushState::Pushing),
            PushStep::PushSettingUpstream => Some(PushState::SettingUpstream),
            _ => None,
        }
    }
}

/// The commit message used where none is given: a fixed opening and the time
/// as text.
pub open spec fn default_message(time_text: Seq<char>) -> Seq<char> {
    "Update TODOs - "@ + time_text
}

/// The commit message of a push: the one given, or the default one with the
/// time in it.
pub fn commit_message(message: Option<String>, time_text: &str) -> (r: String)
    ensures
        r@ == match message {
            Some(m) => m@,
            None => default_message(time_text@),
        },
{
    match message {
        Some(m) => m,
        None => {
            let mut r = "Update TODOs - ".to_owned();
            r.append(time_text);
            r
        },
    }
}

/// The commit message of a push made now: the one given, or the default one
/// with the local date and time in it, to the minute. Which time that is, the
/// clock says; whatever it is, it is written as a date and a time.
pub fn commit_message_now(message: Option<String>) -> (r: String)
    ensures
        match message {
            Some(m) => r@ == m@,
            None => exists|time_text: Seq<char>|
                is_minute_text(time_text) && r@ == #[trigger] default_message(time_text),
        },
{
    match message {
        Some(m) => m,
        None => {
            let text = local_minute_text();
            commit_message(None, text.as_str())
        },
    }
}

/// A path as it is shown: where it begins with the home directory, every
/// occurrence of the home directory in it is written as `~`; else it is
/// shown as it is.
pub open spec fn pretty(path: Seq<char>, home: Seq<char>) -> Seq<char> {
    if starts_with_text(path, home) {
        replaced_text(path, home, "~"@)
    } else {
        path
    }
}

/// The path as it is shown: see [`pretty`].
pub fn format_pretty_path(path: &str, home: &str) -> (r: String)
    ensures
        r@ == pretty(path@, home@),
{
    if starts_with_str(path, home) {
        replace_text(path, home, "~")
    } else {
        path.to_owned()
    }
}

/// The state of the data directory as the search shows it.
#[derive(Debug, Clone)]
pub struct GitStatus {
    pub has_changes: bool,
    pub pretty_path: String,
    pub status_message: String,
}

/// What the status line says of a working tree.
pub open spec fn status_text(has_changes: bool) -> Seq<char> {
    if has_changes {
        "modified"@
    } else {
        "up to date"@
    }
}

impl GitStatus {
    /// The status of a directory that is no git repository.
    pub fn not_a_repository(pretty_path: String) -> (status: GitStatus)
        ensures
            !status.has_changes,
            status.pretty_path@ == pretty_path@,
            status.status_message@ == "not a git repository"@,
    {
        GitStatus {
            has_changes: false,
            pretty_path,
            status_message: "not a git repository".to_owned(),
        }
    }

    /// The status of a directory in which git failed.
    pub fn git_error(pretty_path: String) -> (status: GitStatus)
        ensures
            !status.has_changes,
            status.pretty_path@ == pretty_path@,
            status.status_message@ == "git error"@,
    {
        GitStatus { has_changes: false, pretty_path, status_message: "git error".to_owned() }
    }

    /// The status shown where nothing could be found out.
    pub fn unavailable() -> (status: GitStatus)
        ensures
            !status.has_changes,
            status.pretty_path@ == "unknown"@,
            status.status_message@ == "unavailable"@,
    {
        GitStatus {
            has_changes: false,
            pretty_path: "unknown".to_owned(),
            status_message: "unavailable".to_owned(),
        }
    }

    /// The status read from what `git status --porcelain` printed: there are
    /// changes where it printed anything but whitespace.
    pub fn from_porcelain(pretty_path: String, output: &str) -> (status: GitStatus)
        ensures
            status.has_changes == (trimmed(output@).len() > 0),
            status.pretty_path@ == pretty_path@,
            status.status_message@ == status_text(status.has_changes),
    {
        let has_changes = !is_blank(output);
        let status_message = if has_changes {
            "modified".to_owned()
        } else {
            "up to date".to_owned()
        };
        GitStatus { has_changes, pretty_path, status_message }
    }
}

} // verus!
