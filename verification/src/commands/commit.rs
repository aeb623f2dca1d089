//! `ciri commit`: stage changes, ask the model for a Conventional Commit
//! message for the staged diff, and commit with it. The command is a state
//! machine: each step takes the outcome of the last action and says what to
//! do next; the driver performs the actions.
use vstd::prelude::*;

use crate::flow::{
    failure, failure_of, git_output, git_output_of, FlowErrorOf, Outcome, OutcomeOf,
};
use crate::git::GitCommandOf;
use crate::prompts::{
    commit_prompt, commit_user_prompt, fences_stripped, strip_fences, truncate_diff,
    truncated_diff, COMMIT_SYSTEM,
};

verus! {

/// The model used unless the user names one.
pub const DEFAULT_MODEL: &'static str = "gemma4:e2b";

/// The largest diff, in bytes, sent to the model as it is.
pub const MAX_DIFF: usize = 12000;

/// The options of `ciri commit`.
#[derive(Clone, Copy, Debug, PartialEq, Eq, Structural)]
pub struct Args {
    /// Skip actually committing — just print the generated message.
    pub dry_run: bool,
    /// Don't auto-stage; only use what's already staged.
    pub no_add: bool,
}

/// Where the command stands.
pub enum CommitPhaseOf<S> {
    CheckingRepo,
    Staging,
    ReadingDiff,
    ReadingStatus { diff: S },
    Generating,
    Committing,
    Finished,
}

/// The command's state: its options, the model, and where it stands.
pub struct CommitFlowOf<S> {
    pub args: Args,
    pub model: S,
    pub phase: CommitPhaseOf<S>,
}

/// What the driver does next.
pub enum CommitActionOf<S> {
    /// Run a git command and capture its output.
    RunGit(GitCommandOf<S>),
    /// Run a git command on the terminal.
    RunGitOnTerminal(GitCommandOf<S>),
    /// Stream a reply of `model` to the system and user prompts onto the terminal.
    Generate { model: S, system: S, user: S },
    /// Stop: successfully, or with the error.
    Finish(Option<FlowErrorOf<S>>),
}

pub type CommitPhase = CommitPhaseOf<String>;

pub type CommitFlow = CommitFlowOf<String>;

pub type CommitAction = CommitActionOf<String>;

impl View for CommitPhaseOf<String> {
    type V = CommitPhaseOf<Seq<char>>;

    open spec fn view(&self) -> CommitPhaseOf<Seq<char>> {
        match self {
            CommitPhaseOf::CheckingRepo => CommitPhaseOf::CheckingRepo,
            CommitPhaseOf::Staging => CommitPhaseOf::Staging,
            CommitPhaseOf::ReadingDiff => CommitPhaseOf::ReadingDiff,
            CommitPhaseOf::ReadingStatus { diff } => CommitPhaseOf::ReadingStatus { diff: diff@ },
            CommitPhaseOf::Generating => CommitPhaseOf::Generating,
            CommitPhaseOf::Committing => CommitPhaseOf::Committing,
            CommitPhaseOf::Finished => CommitPhaseOf::Finished,
        }
    }
}

impl View for CommitFlowOf<String> {
    type V = CommitFlowOf<Seq<char>>;

    open spec fn view(&self) -> CommitFlowOf<Seq<char>> {
        CommitFlowOf { args: self.args, model: self.model@, phase: self.phase@ }
    }
}

impl View for CommitActionOf<String> {
    type V = CommitActionOf<Seq<char>>;

    open spec fn view(&self) -> CommitActionOf<Seq<char>> {
        match self {
            CommitActionOf::RunGit(c) => CommitActionOf::RunGit(c@),
            CommitActionOf::RunGitOnTerminal(c) => CommitActionOf::RunGitOnTerminal(c@),
            CommitActionOf::Generate { model, system, user } => CommitActionOf::Generate {
                model: model@,
                system: system@,
                user: user@,
            },
            CommitActionOf::Finish(e) => CommitActionOf::Finish(
                match e {
                    Some(e) => Some(e@),
                    None => None,
                },
            ),
        }
    }
}

/// The state in `phase`, other parts unchanged.
pub open spec fn moved(f: CommitFlowOf<Seq<char>>, phase: CommitPhaseOf<Seq<char>>) -> CommitFlowOf<
    Seq<char>,
> {
    CommitFlowOf { phase, ..f }
}

/// Stop with error `e`.
pub open spec fn stop(f: CommitFlowOf<Seq<char>>, e: FlowErrorOf<Seq<char>>) -> (
    CommitFlowOf<Seq<char>>,
    CommitActionOf<Seq<char>>,
) {
    (moved(f, CommitPhaseOf::Finished), CommitActionOf::Finish(Some(e)))
}

/// The command's transitions: from a state and the outcome of the last
/// action to the next state and action.
pub open spec fn commit_next(f: CommitFlowOf<Seq<char>>, o: OutcomeOf<Seq<char>>) -> (
    CommitFlowOf<Seq<char>>,
    CommitActionOf<Seq<char>>,
) {
    match f.phase {
        CommitPhaseOf::CheckingRepo => match git_output(o) {
            Some(_) => if f.args.no_add {
                (moved(f, CommitPhaseOf::ReadingDiff), CommitActionOf::RunGit(GitCommandOf::StagedDiff))
            } else {
                (moved(f, CommitPhaseOf::Staging), CommitActionOf::RunGit(GitCommandOf::AddAll))
            },
            None => stop(f, failure_of(o)),
        },
        CommitPhaseOf::Staging => match git_output(o) {
            Some(_) => (moved(f, CommitPhaseOf::ReadingDiff), CommitActionOf::RunGit(GitCommandOf::StagedDiff)),
            None => stop(f, failure_of(o)),
        },
        CommitPhaseOf::ReadingDiff => match git_output(o) {
            Some(diff) => if diff.len() == 0 {
                stop(f, FlowErrorOf::NoStagedChanges)
            } else {
                (
                    moved(f, CommitPhaseOf::ReadingStatus { diff }),
                    CommitActionOf::RunGit(GitCommandOf::StagedNameStatus),
                )
            },
            None => stop(f, failure_of(o)),
        },
        CommitPhaseOf::ReadingStatus { diff } => match git_output(o) {
            Some(status) => (
                moved(f, CommitPhaseOf::Generating),
                CommitActionOf::Generate {
                    model: f.model,
                    system: COMMIT_SYSTEM@,
                    user: commit_prompt(status, truncated_diff(diff, MAX_DIFF as int).0),
                },
            ),
            None => stop(f, failure_of(o)),
        },
        CommitPhaseOf::Generating => match o {
            OutcomeOf::Reply(content) => {
                let message = fences_stripped(content);
                if message.len() == 0 {
                    stop(f, FlowErrorOf::EmptyMessage)
                } else if f.args.dry_run {
                    (moved(f, CommitPhaseOf::Finished), CommitActionOf::Finish(None))
                } else {
                    (
                        moved(f, CommitPhaseOf::Committing),
                        CommitActionOf::RunGitOnTerminal(GitCommandOf::Commit(message)),
                    )
                }
            },
            _ => stop(f, failure_of(o)),
        },
        CommitPhaseOf::Committing => match o {
            OutcomeOf::Exited { success: true, .. } => (
                moved(f, CommitPhaseOf::Finished),
                CommitActionOf::Finish(None),
            ),
            _ => stop(f, failure_of(o)),
        },
        CommitPhaseOf::Finished => stop(f, FlowErrorOf::UnexpectedOutcome),
    }
}

/// The options never change from one step to the next.
pub proof fn lemma_options_are_kept(f: CommitFlowOf<Seq<char>>, o: OutcomeOf<Seq<char>>)
    ensures
        commit_next(f, o).0.args == f.args,
        commit_next(f, o).0.model == f.model,
{
}

/// A dry run never commits: no step of a dry run runs a command on the terminal.
pub proof fn lemma_dry_run_never_commits(f: CommitFlowOf<Seq<char>>, o: OutcomeOf<Seq<char>>)
    requires
        f.args.dry_run,
    ensures
        !(commit_next(f, o).1 is RunGitOnTerminal),
{
}

/// With `--no-add` nothing is staged: no step runs `git add -A`.
pub proof fn lemma_no_add_never_stages(f: CommitFlowOf<Seq<char>>, o: OutcomeOf<Seq<char>>)
    requires
        f.args.no_add,
    ensures
        commit_next(f, o).1 != CommitActionOf::RunGit(GitCommandOf::<Seq<char>>::AddAll),
{
}

/// The only commit ever made uses the model's reply with its fences
/// stripped, and that message is not empty.
pub proof fn lemma_commit_uses_cleaned_reply(f: CommitFlowOf<Seq<char>>, o: OutcomeOf<Seq<char>>)
    ensures
        commit_next(f, o).1 matches CommitActionOf::RunGitOnTerminal(c) ==> (c matches GitCommandOf::Commit(
            m,
        ) && o matches OutcomeOf::Reply(content) && m == fences_stripped(content) && m.len() > 0),
{
}

/// A repository with nothing staged is refused with "No staged changes.".
pub proof fn lemma_empty_diff_is_refused(f: CommitFlowOf<Seq<char>>, o: OutcomeOf<Seq<char>>)
    requires
        f.phase is ReadingDiff,
        git_output(o) == Some(Seq::<char>::empty()),
    ensures
        commit_next(f, o).1 == CommitActionOf::Finish(Some(FlowErrorOf::<Seq<char>>::NoStagedChanges)),
{
}

/// Each step that succeeds leads to the next action of `ciri commit`: after
/// the repository check, `git add -A` (or, with `--no-add`, straight to the
/// staged diff); after staging, `git diff --staged`; after a diff that is not
/// empty, the staged file list, keeping the diff; then the model, asked with
/// the commit system prompt and a user prompt made of that file list and the
/// diff cut to 12000 bytes; then, for a reply that is not empty once its
/// fences are stripped, `git commit` with that text (a dry run stops there);
/// a commit that succeeds ends the command successfully.
pub proof fn lemma_commit_steps_in_order(f: CommitFlowOf<Seq<char>>, o: OutcomeOf<Seq<char>>)
    ensures
        (f.phase is CheckingRepo && git_output(o) is Some && !f.args.no_add) ==> commit_next(
            f,
            o,
        ).1 == CommitActionOf::RunGit(GitCommandOf::<Seq<char>>::AddAll),
        (f.phase is CheckingRepo && git_output(o) is Some && f.args.no_add) ==> commit_next(
            f,
            o,
        ).1 == CommitActionOf::RunGit(GitCommandOf::<Seq<char>>::StagedDiff),
        (f.phase is Staging && git_output(o) is Some) ==> commit_next(f, o).1
            == CommitActionOf::RunGit(GitCommandOf::<Seq<char>>::StagedDiff),
        (f.phase is ReadingDiff && git_output(o) is Some && git_output(o)->0.len() > 0)
            ==> commit_next(f, o).1 == CommitActionOf::RunGit(GitCommandOf::<Seq<char>>::StagedNameStatus),
        (f.phase is ReadingDiff && git_output(o) is Some && git_output(o)->0.len() > 0)
            ==> commit_next(f, o).0.phase == (CommitPhaseOf::ReadingStatus {
            diff: git_output(o)->0,
        }),
        (f.phase is ReadingStatus && git_output(o) is Some) ==> commit_next(f, o).1 == (
        CommitActionOf::Generate {
            model: f.model,
            system: COMMIT_SYSTEM@,
            user: commit_prompt(
                git_output(o)->0,
                truncated_diff(f.phase->ReadingStatus_diff, 12000).0,
            ),
        }),
        (f.phase is Generating && o is Reply && fences_stripped(o->Reply_0).len() > 0
            && !f.args.dry_run) ==> commit_next(f, o).1 == CommitActionOf::RunGitOnTerminal(
            GitCommandOf::Commit(fences_stripped(o->Reply_0)),
        ),
        (f.phase is Generating && o is Reply && fences_stripped(o->Reply_0).len() > 0
            && f.args.dry_run) ==> commit_next(f, o).1 == CommitActionOf::<
            Seq<char>,
        >::Finish(None),
        (f.phase is Committing && o is Exited && o->Exited_success)
            ==> commit_next(f, o).1 == CommitActionOf::<Seq<char>>::Finish(None),
{
}

/// A step that fails ends the command, reporting why: a git command that
/// failed with its arguments and error output, `git commit` that failed with
/// its arguments, an error of the model with its message, and a reply that
/// is empty once its fences are stripped with "Model returned empty message.".
pub proof fn lemma_failures_end_the_command(f: CommitFlowOf<Seq<char>>, o: OutcomeOf<Seq<char>>)
    ensures
        (o is Captured && !o->Captured_success && (
        f.phase is CheckingRepo || f.phase is Staging || f.phase is ReadingDiff
            || f.phase is ReadingStatus)) ==> commit_next(f, o).1 == CommitActionOf::Finish(
            Some(
                (FlowErrorOf::GitFailed {
                    command: o->Captured_command,
                    stderr: o->Captured_stderr,
                }),
            ),
        ),
        (f.phase is Committing && o is Exited && !o->Exited_success)
            ==> commit_next(f, o).1 == CommitActionOf::Finish(
            Some((FlowErrorOf::GitExitFailed { command: o->Exited_command })),
        ),
        (f.phase is Generating && o is Failed) ==> commit_next(f, o).1 == CommitActionOf::Finish(
            Some(FlowErrorOf::Failed(o->Failed_0)),
        ),
        (f.phase is Generating && o is Reply && fences_stripped(o->Reply_0).len() == 0) ==> commit_next(f, o).1 == CommitActionOf::Finish(
            Some(FlowErrorOf::<Seq<char>>::EmptyMessage),
        ),
        commit_next(f, o).1 is Finish ==> commit_next(f, o).0.phase is Finished,
        commit_next(f, o).0.args == f.args,
{
}

impl CommitFlowOf<String> {
    /// Begin the command: check that the working directory is a repository.
    /// `model` is the model the user named, if any.
    pub fn start(args: Args, model: Option<&str>) -> (r: (CommitFlow, CommitAction))
        ensures
            r.0@.args == args,
            r.0@.model == match model {
                Some(m) => m@,
                None => DEFAULT_MODEL@,
            },
            r.0@.phase == CommitPhaseOf::<Seq<char>>::CheckingRepo,
            r.1@ == CommitActionOf::RunGit(GitCommandOf::<Seq<char>>::IsInsideWorkTree),
    {
        let model = match model {
            Some(m) => String::from_str(m),
            None => String::from_str(DEFAULT_MODEL),
        };
        (
            CommitFlowOf { args, model, phase: CommitPhaseOf::CheckingRepo },
            CommitActionOf::RunGit(GitCommandOf::IsInsideWorkTree),
        )
    }

    /// Take the outcome of the last action and say what to do next.
    pub fn step(&mut self, o: Outcome) -> (a: CommitAction)
        ensures
            (final(self)@, a@) == commit_next(old(self)@, o@),
    {
        let mut phase = CommitPhaseOf::Finished;
        std::mem::swap(&mut phase, &mut self.phase);
        match phase {
            CommitPhaseOf::CheckingRepo => match git_output_of(&o) {
                Some(_) => if self.args.no_add {
                    self.phase = CommitPhaseOf::ReadingDiff;
                    CommitActionOf::RunGit(GitCommandOf::StagedDiff)
                } else {
                    self.phase = CommitPhaseOf::Staging;
                    CommitActionOf::RunGit(GitCommandOf::AddAll)
                },
                None => CommitActionOf::Finish(Some(failure(o))),
            },
            CommitPhaseOf::Staging => match git_output_of(&o) {
                Some(_) => {
                    self.phase = CommitPhaseOf::ReadingDiff;
                    CommitActionOf::RunGit(GitCommandOf::StagedDiff)
                },
                None => CommitActionOf::Finish(Some(failure(o))),
            },
            CommitPhaseOf::ReadingDiff => match git_output_of(&o) {
                Some(diff) => if diff.as_str().unicode_len() == 0 {
                    CommitActionOf::Finish(Some(FlowErrorOf::NoStagedChanges))
                } else {
                    self.phase = CommitPhaseOf::ReadingStatus { diff };
                    CommitActionOf::RunGit(GitCommandOf::StagedNameStatus)
                },
                None => CommitActionOf::Finish(Some(failure(o))),
            },
            CommitPhaseOf::ReadingStatus { diff } => match git_output_of(&o) {
                Some(status) => {
                    let (short, _) = truncate_diff(diff.as_str(), MAX_DIFF);
                    let user = commit_user_prompt(status.as_str(), short.as_str());
                    self.phase = CommitPhaseOf::Generating;
                    CommitActionOf::Generate {
                        model: self.model.clone(),
                        system: String::from_str(COMMIT_SYSTEM),
                        user,
                    }
                },
                None => CommitActionOf::Finish(Some(failure(o))),
            },
            CommitPhaseOf::Generating => match o {
                OutcomeOf::Reply(content) => {
                    let message = strip_fences(content.as_str());
                    if message.as_str().unicode_len() == 0 {
                        CommitActionOf::Finish(Some(FlowErrorOf::EmptyMessage))
                    } else if self.args.dry_run {
                        CommitActionOf::Finish(None)
                    } else {
                        self.phase = CommitPhaseOf::Committing;
                        CommitActionOf::RunGitOnTerminal(GitCommandOf::Commit(message))
                    }
                },
                _ => CommitActionOf::Finish(Some(failure(o))),
            },
            CommitPhaseOf::Committing => match o {
                OutcomeOf::Exited { success: true, .. } => CommitActionOf::Finish(None),
                _ => CommitActionOf::Finish(Some(failure(o))),
            },
            CommitPhaseOf::Finished => CommitActionOf::Finish(
                Some(FlowErrorOf::UnexpectedOutcome),
            ),
        }
    }
}

} // verus!
