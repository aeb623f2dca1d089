//! What the driver of a command reports back after performing an action, and
//! the errors with which a command ends.
use vstd::prelude::*;

use crate::text::trim;

verus! {

/// The result of performing an action, as the driver reports it.
pub enum OutcomeOf<S> {
    /// A git command ran with its output captured. `command` is how its
    /// arguments are shown in messages.
    Captured { command: S, success: bool, stdout: S, stderr: S },
    /// A command ran on the terminal; whether it exited successfully.
    Exited { command: S, success: bool },
    /// The language model's complete reply.
    Reply(S),
    /// The preview was shown.
    Shown,
    /// The outside work raised an error; its message.
    Failed(S),
}

pub type Outcome = OutcomeOf<String>;

impl View for OutcomeOf<String> {
    type V = OutcomeOf<Seq<char>>;

    open spec fn view(&self) -> OutcomeOf<Seq<char>> {
        match self {
            OutcomeOf::Captured { command, success, stdout, stderr } => OutcomeOf::Captured {
                command: command@,
                success: *success,
                stdout: stdout@,
                stderr: stderr@,
            },
            OutcomeOf::Exited { command, success } => OutcomeOf::Exited {
                command: command@,
                success: *success,
            },
            OutcomeOf::Reply(r) => OutcomeOf::Reply(r@),
            OutcomeOf::Shown => OutcomeOf::Shown,
            OutcomeOf::Failed(m) => OutcomeOf::Failed(m@),
        }
    }
}

/// Why a command ended without doing its work.
pub enum FlowErrorOf<S> {
    /// A captured git command failed; how it was shown and what it printed on stderr.
    GitFailed { command: S, stderr: S },
    /// A git command on the terminal failed.
    GitExitFailed { command: S },
    /// The outside work raised an error with this message.
    Failed(S),
    NoStagedChanges,
    EmptyMessage,
    OnBaseBranch { base: S },
    NoCommitsAhead { branch: S, base: S },
    EmptyTitle,
    PrCreateFailed,
    /// The driver reported an outcome that does not answer the last action.
    UnexpectedOutcome,
}

pub type FlowError = FlowErrorOf<String>;

impl View for FlowErrorOf<String> {
    type V = FlowErrorOf<Seq<char>>;

    open spec fn view(&self) -> FlowErrorOf<Seq<char>> {
        match self {
            FlowErrorOf::GitFailed { command, stderr } => FlowErrorOf::GitFailed {
                command: command@,
                stderr: stderr@,
            },
            FlowErrorOf::GitExitFailed { command } => FlowErrorOf::GitExitFailed {
                command: command@,
            },
            FlowErrorOf::Failed(m) => FlowErrorOf::Failed(m@),
            FlowErrorOf::NoStagedChanges => FlowErrorOf::NoStagedChanges,
            FlowErrorOf::EmptyMessage => FlowErrorOf::EmptyMessage,
            FlowErrorOf::OnBaseBranch { base } => FlowErrorOf::OnBaseBranch { base: base@ },
            FlowErrorOf::NoCommitsAhead { branch, base } => FlowErrorOf::NoCommitsAhead {
                branch: branch@,
                base: base@,
            },
            FlowErrorOf::EmptyTitle => FlowErrorOf::EmptyTitle,
            FlowErrorOf::PrCreateFailed => FlowErrorOf::PrCreateFailed,
            FlowErrorOf::UnexpectedOutcome => FlowErrorOf::UnexpectedOutcome,
        }
    }
}

/// The text with which an error is reported.
pub open spec fn error_text(e: FlowErrorOf<Seq<char>>) -> Seq<char> {
    match e {
        FlowErrorOf::GitFailed { command, stderr } => "git "@ + command + " failed: "@ + stderr,
        FlowErrorOf::GitExitFailed { command } => "git "@ + command + " failed"@,
        FlowErrorOf::Failed(m) => m,
        FlowErrorOf::NoStagedChanges => "No staged changes."@,
        FlowErrorOf::EmptyMessage => "Model returned empty message."@,
        FlowErrorOf::OnBaseBranch { base } => "On base branch '"@ + base
            + "'. Checkout a feature branch."@,
        FlowErrorOf::NoCommitsAhead { branch, base } => "No commits on '"@ + branch
            + "' ahead of origin/"@ + base + "."@,
        FlowErrorOf::EmptyTitle => "Model returned empty title."@,
        FlowErrorOf::PrCreateFailed => "gh pr create failed"@,
        FlowErrorOf::UnexpectedOutcome => "unexpected outcome for the last step"@,
    }
}

impl FlowErrorOf<String> {
    /// The text with which the error is reported.
    pub fn message(&self) -> (r: String)
        ensures
            r@ == error_text(self@),
    {
        match self {
            FlowErrorOf::GitFailed { command, stderr } => {
                let mut r = String::from_str("git ");
                r.append(command.as_str());
                r.append(" failed: ");
                r.append(stderr.as_str());
                r
            },
            FlowErrorOf::GitExitFailed { command } => {
                let mut r = String::from_str("git ");
                r.append(command.as_str());
                r.append(" failed");
                r
            },
            FlowErrorOf::Failed(m) => m.clone(),
            FlowErrorOf::NoStagedChanges => String::from_str("No staged changes."),
            FlowErrorOf::EmptyMessage => String::from_str("Model returned empty message."),
            FlowErrorOf::OnBaseBranch { base } => {
                let mut r = String::from_str("On base branch '");
                r.append(base.as_str());
                r.append("'. Checkout a feature branch.");
                r
            },
            FlowErrorOf::NoCommitsAhead { branch, base } => {
                let mut r = String::from_str("No commits on '");
                r.append(branch.as_str());
                r.append("' ahead of origin/");
                r.append(base.as_str());
                r.append(".");
                r
            },
            FlowErrorOf::EmptyTitle => String::from_str("Model returned empty title."),
            FlowErrorOf::PrCreateFailed => String::from_str("gh pr create failed"),
            FlowErrorOf::UnexpectedOutcome => String::from_str(
                "unexpected outcome for the last step",
            ),
        }
    }
}

/// The trimmed output of a captured git command that succeeded.
pub open spec fn git_output(o: OutcomeOf<Seq<char>>) -> Option<Seq<char>> {
    match o {
        OutcomeOf::Captured { success, stdout, .. } => if success {
            Some(trim(stdout))
        } else {
            None
        },
        _ => None,
    }
}

/// The error that ends a command whose last step did not succeed.
pub open spec fn failure_of(o: OutcomeOf<Seq<char>>) -> FlowErrorOf<Seq<char>> {
    match o {
        OutcomeOf::Captured { command, stderr, .. } => FlowErrorOf::GitFailed { command, stderr },
        OutcomeOf::Exited { command, .. } => FlowErrorOf::GitExitFailed { command },
        OutcomeOf::Failed(m) => FlowErrorOf::Failed(m),
        _ => FlowErrorOf::UnexpectedOutcome,
    }
}

/// `git_output` in executable form.
pub fn git_output_of(o: &Outcome) -> (r: Option<String>)
    ensures
        match r {
            Some(t) => git_output(o@) == Some(t@),
            None => git_output(o@) is None,
        },
{
    match o {
        OutcomeOf::Captured { success, stdout, .. } => crate::git::captured_output(
            *success,
            stdout.as_str(),
        ),
        _ => None,
    }
}

/// `failure_of` in executable form.
pub fn failure(o: Outcome) -> (e: FlowError)
    ensures
        e@ == failure_of(o@),
{
    match o {
        OutcomeOf::Captured { command, stderr, .. } => FlowErrorOf::GitFailed { command, stderr },
        OutcomeOf::Exited { command, .. } => FlowErrorOf::GitExitFailed { command },
        OutcomeOf::Failed(m) => FlowErrorOf::Failed(m),
        _ => FlowErrorOf::UnexpectedOutcome,
    }
}

} // verus!
