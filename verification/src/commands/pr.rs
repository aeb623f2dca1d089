//! `ciri pr`: find the base branch, collect the commits and the diff of the
//! current branch, ask the model for a title and body, preview them, push the
//! branch and open the pull request with `gh`. Like `commit`, the command is
//! a state machine whose actions a driver performs.
use vstd::prelude::*;

use crate::flow::{failure, failure_of, git_output, git_output_of, FlowErrorOf, Outcome, OutcomeOf};
use crate::git::{probe_next, probe_step, texts, BaseProbe, GitCommandOf, ProbeStepOf};
use crate::prompts::{
    body_of, pr_prompt, pr_user_prompt, split_title_body, title_of, truncate_diff, truncated_diff,
    PR_SYSTEM,
};
use crate::text::same_text;
use crate::ui::{preview, preview_markdown};

verus! {

/// The Ollama model used offline unless the user names one.
pub const OFFLINE_MODEL: &'static str = "gemma4:e2b";

/// The largest diff, in bytes, sent to the model as it is.
pub const MAX_DIFF: usize = 16000;

/// The options of `ciri pr`.
pub struct Args {
    /// Target base branch (auto-detected if omitted).
    pub base: Option<String>,
    /// Open as draft.
    pub draft: bool,
    /// Print the generated title/body but don't push or open the PR.
    pub dry_run: bool,
}

/// Where the command stands, with what it has learnt so far.
pub enum PrPhaseOf<S> {
    CheckingRepo { requested_base: Option<S> },
    DetectingBase(BaseProbe),
    ReadingBranch { base: S },
    Fetching { base: S, branch: S },
    FindingMergeBase { base: S, branch: S },
    ReadingLog { base: S, branch: S, merge_base: S },
    ReadingStat { base: S, branch: S, merge_base: S, commits: S },
    ReadingDiff { base: S, branch: S, merge_base: S, commits: S, stat: S },
    Generating { base: S, branch: S },
    Previewing { base: S, branch: S, title: S, body: S },
    Pushing { base: S, branch: S, title: S, body: S },
    Creating,
    Finished,
}

/// The command's state.
pub struct PrFlowOf<S> {
    pub draft: bool,
    pub dry_run: bool,
    /// The model the user named, if any.
    pub model: Option<S>,
    pub phase: PrPhaseOf<S>,
}

/// What the driver does next.
pub enum PrActionOf<S> {
    /// Run a git command and capture its output.
    RunGit(GitCommandOf<S>),
    /// Ask the chosen backend for a reply to the prompts, without showing it;
    /// `model` is the model the user named, if any.
    Generate { model: Option<S>, system: S, user: S },
    /// Render this markdown on the terminal.
    Preview(S),
    /// Open the pull request with `gh`.
    CreatePr { base: S, branch: S, title: S, body: S, draft: bool },
    /// Stop: successfully, or with the error.
    Finish(Option<FlowErrorOf<S>>),
}

pub type PrPhase = PrPhaseOf<String>;

pub type PrFlow = PrFlowOf<String>;

pub type PrAction = PrActionOf<String>;

pub open spec fn opt_view(o: Option<String>) -> Option<Seq<char>> {
    match o {
        Some(s) => Some(s@),
        None => None,
    }
}

impl View for PrPhaseOf<String> {
    type V = PrPhaseOf<Seq<char>>;

    open spec fn view(&self) -> PrPhaseOf<Seq<char>> {
        match self {
            PrPhaseOf::CheckingRepo { requested_base } => PrPhaseOf::CheckingRepo {
                requested_base: opt_view(*requested_base),
            },
            PrPhaseOf::DetectingBase(p) => PrPhaseOf::DetectingBase(*p),
            PrPhaseOf::ReadingBranch { base } => PrPhaseOf::ReadingBranch { base: base@ },
            PrPhaseOf::Fetching { base, branch } => PrPhaseOf::Fetching {
                base: base@,
                branch: branch@,
            },
            PrPhaseOf::FindingMergeBase { base, branch } => PrPhaseOf::FindingMergeBase {
                base: base@,
                branch: branch@,
            },
            PrPhaseOf::ReadingLog { base, branch, merge_base } => PrPhaseOf::ReadingLog {
                base: base@,
                branch: branch@,
                merge_base: merge_base@,
            },
            PrPhaseOf::ReadingStat { base, branch, merge_base, commits } => PrPhaseOf::ReadingStat {
                base: base@,
                branch: branch@,
                merge_base: merge_base@,
                commits: commits@,
            },
            PrPhaseOf::ReadingDiff { base, branch, merge_base, commits, stat } =>
                PrPhaseOf::ReadingDiff {
                base: base@,
                branch: branch@,
                merge_base: merge_base@,
                commits: commits@,
                stat: stat@,
            },
            PrPhaseOf::Generating { base, branch } => PrPhaseOf::Generating {
                base: base@,
                branch: branch@,
            },
            PrPhaseOf::Previewing { base, branch, title, body } => PrPhaseOf::Previewing {
                base: base@,
                branch: branch@,
                title: title@,
                body: body@,
            },
            PrPhaseOf::Pushing { base, branch, title, body } => PrPhaseOf::Pushing {
                base: base@,
                branch: branch@,
                title: title@,
                body: body@,
            },
            PrPhaseOf::Creating => PrPhaseOf::Creating,
            PrPhaseOf::Finished => PrPhaseOf::Finished,
        }
    }
}

impl View for PrFlowOf<String> {
    type V = PrFlowOf<Seq<char>>;

    open spec fn view(&self) -> PrFlowOf<Seq<char>> {
        PrFlowOf {
            draft: self.draft,
            dry_run: self.dry_run,
            model: opt_view(self.model),
            phase: self.phase@,
        }
    }
}

impl View for PrActionOf<String> {
    type V = PrActionOf<Seq<char>>;

    open spec fn view(&self) -> PrActionOf<Seq<char>> {
        match self {
            PrActionOf::RunGit(c) => PrActionOf::RunGit(c@),
            PrActionOf::Generate { model, system, user } => PrActionOf::Generate {
                model: opt_view(*model),
                system: system@,
                user: user@,
            },
            PrActionOf::Preview(m) => PrActionOf::Preview(m@),
            PrActionOf::CreatePr { base, branch, title, body, draft } => PrActionOf::CreatePr {
                base: base@,
                branch: branch@,
                title: title@,
                body: body@,
                draft: *draft,
            },
            PrActionOf::Finish(e) => PrActionOf::Finish(
                match e {
                    Some(e) => Some(e@),
                    None => None,
                },
            ),
        }
    }
}

/// The state in `phase`, other parts unchanged.
pub open spec fn moved(f: PrFlowOf<Seq<char>>, phase: PrPhaseOf<Seq<char>>) -> PrFlowOf<Seq<char>> {
    PrFlowOf { phase, ..f }
}

/// Stop with error `e`.
pub open spec fn stop(f: PrFlowOf<Seq<char>>, e: FlowErrorOf<Seq<char>>) -> (
    PrFlowOf<Seq<char>>,
    PrActionOf<Seq<char>>,
) {
    (moved(f, PrPhaseOf::Finished), PrActionOf::Finish(Some(e)))
}

/// With the base branch known, read the current branch.
pub open spec fn base_known(f: PrFlowOf<Seq<char>>, base: Seq<char>) -> (
    PrFlowOf<Seq<char>>,
    PrActionOf<Seq<char>>,
) {
    (moved(f, PrPhaseOf::ReadingBranch { base }), PrActionOf::RunGit(GitCommandOf::CurrentBranch))
}

/// Whether an outcome says that a command succeeded (the base search's notion).
pub open spec fn answered(o: OutcomeOf<Seq<char>>) -> bool {
    git_output(o) is Some
}

/// The stdout of an outcome, if it carries one.
pub open spec fn stdout_of(o: OutcomeOf<Seq<char>>) -> Seq<char> {
    match o {
        OutcomeOf::Captured { stdout, .. } => stdout,
        _ => Seq::empty(),
    }
}

/// The command's transitions: from a state and the outcome of the last
/// action to the next state and action.
pub open spec fn pr_next(f: PrFlowOf<Seq<char>>, o: OutcomeOf<Seq<char>>) -> (
    PrFlowOf<Seq<char>>,
    PrActionOf<Seq<char>>,
) {
    match f.phase {
        PrPhaseOf::CheckingRepo { requested_base } => match git_output(o) {
            Some(_) => match requested_base {
                Some(b) => base_known(f, b),
                None => (
                    moved(f, PrPhaseOf::DetectingBase(BaseProbe::OriginHead)),
                    PrActionOf::RunGit(GitCommandOf::OriginHead),
                ),
            },
            None => stop(f, failure_of(o)),
        },
        PrPhaseOf::DetectingBase(p) => {
            let (p2, st) = probe_next(p, answered(o), stdout_of(o));
            match st {
                ProbeStepOf::Run(c) => (moved(f, PrPhaseOf::DetectingBase(p2)), PrActionOf::RunGit(c)),
                ProbeStepOf::Found(b) => base_known(f, b),
            }
        },
        PrPhaseOf::ReadingBranch { base } => match git_output(o) {
            Some(branch) => if branch == base {
                stop(f, FlowErrorOf::OnBaseBranch { base })
            } else {
                (
                    moved(f, PrPhaseOf::Fetching { base, branch }),
                    PrActionOf::RunGit(GitCommandOf::Fetch(base)),
                )
            },
            None => stop(f, failure_of(o)),
        },
        PrPhaseOf::Fetching { base, branch } => match git_output(o) {
            Some(_) => (
                moved(f, PrPhaseOf::FindingMergeBase { base, branch }),
                PrActionOf::RunGit(GitCommandOf::MergeBase(base)),
            ),
            None => stop(f, failure_of(o)),
        },
        PrPhaseOf::FindingMergeBase { base, branch } => match git_output(o) {
            Some(merge_base) => (
                moved(f, PrPhaseOf::ReadingLog { base, branch, merge_base }),
                PrActionOf::RunGit(GitCommandOf::Log(merge_base)),
            ),
            None => stop(f, failure_of(o)),
        },
        PrPhaseOf::ReadingLog { base, branch, merge_base } => match git_output(o) {
            Some(commits) => if commits.len() == 0 {
                stop(f, FlowErrorOf::NoCommitsAhead { branch, base })
            } else {
                (
                    moved(f, PrPhaseOf::ReadingStat { base, branch, merge_base, commits }),
                    PrActionOf::RunGit(GitCommandOf::DiffStat(merge_base)),
                )
            },
            None => stop(f, failure_of(o)),
        },
        PrPhaseOf::ReadingStat { base, branch, merge_base, commits } => match git_output(o) {
            Some(stat) => (
                moved(f, PrPhaseOf::ReadingDiff { base, branch, merge_base, commits, stat }),
                PrActionOf::RunGit(GitCommandOf::Diff(merge_base)),
            ),
            None => stop(f, failure_of(o)),
        },
        PrPhaseOf::ReadingDiff { base, branch, merge_base, commits, stat } => match git_output(o) {
            Some(diff) => (
                moved(f, PrPhaseOf::Generating { base, branch }),
                PrActionOf::Generate {
                    model: f.model,
                    system: PR_SYSTEM@,
                    user: pr_prompt(branch, base, commits, stat, truncated_diff(diff, MAX_DIFF as int).0),
                },
            ),
            None => stop(f, failure_of(o)),
        },
        PrPhaseOf::Generating { base, branch } => match o {
            OutcomeOf::Reply(content) => {
                let title = title_of(content);
                let body = body_of(content);
                if title.len() == 0 {
                    stop(f, FlowErrorOf::EmptyTitle)
                } else {
                    (
                        moved(f, PrPhaseOf::Previewing { base, branch, title, body }),
                        PrActionOf::Preview(preview(title, body)),
                    )
                }
            },
            _ => stop(f, failure_of(o)),
        },
        PrPhaseOf::Previewing { base, branch, title, body } => match o {
            OutcomeOf::Shown => if f.dry_run {
                (moved(f, PrPhaseOf::Finished), PrActionOf::Finish(None))
            } else {
                (
                    moved(f, PrPhaseOf::Pushing { base, branch, title, body }),
                    PrActionOf::RunGit(GitCommandOf::Push(branch)),
                )
            },
            _ => stop(f, failure_of(o)),
        },
        PrPhaseOf::Pushing { base, branch, title, body } => match git_output(o) {
            Some(_) => (
                moved(f, PrPhaseOf::Creating),
                PrActionOf::CreatePr { base, branch, title, body, draft: f.draft },
            ),
            None => stop(f, failure_of(o)),
        },
        PrPhaseOf::Creating => match o {
            OutcomeOf::Exited { success, .. } => if success {
                (moved(f, PrPhaseOf::Finished), PrActionOf::Finish(None))
            } else {
                stop(f, FlowErrorOf::PrCreateFailed)
            },
            _ => stop(f, failure_of(o)),
        },
        PrPhaseOf::Finished => stop(f, FlowErrorOf::UnexpectedOutcome),
    }
}

/// The options never change from one step to the next.
pub proof fn lemma_pr_options_are_kept(f: PrFlowOf<Seq<char>>, o: OutcomeOf<Seq<char>>)
    ensures
        pr_next(f, o).0.dry_run == f.dry_run,
        pr_next(f, o).0.draft == f.draft,
        pr_next(f, o).0.model == f.model,
{
}

/// What holds of every state that a run reaches: a dry run is never about
/// to push or to open the pull request.
pub open spec fn reachable_shape(f: PrFlowOf<Seq<char>>) -> bool {
    &&& f.dry_run ==> !(f.phase is Pushing) && !(f.phase is Creating)
    &&& match f.phase {
        PrPhaseOf::Fetching { base, branch } => base != branch,
        PrPhaseOf::FindingMergeBase { base, branch } => base != branch,
        PrPhaseOf::ReadingLog { base, branch, .. } => base != branch,
        PrPhaseOf::ReadingStat { base, branch, commits, .. } => base != branch && commits.len() > 0,
        PrPhaseOf::ReadingDiff { base, branch, commits, .. } => base != branch && commits.len() > 0,
        PrPhaseOf::Generating { base, branch } => base != branch,
        PrPhaseOf::Previewing { base, branch, title, .. } => base != branch && title.len() > 0,
        PrPhaseOf::Pushing { base, branch, title, .. } => base != branch && title.len() > 0,
        _ => true,
    }
}

/// Every step keeps `reachable_shape`, and the first state has it.
pub proof fn lemma_reachable_shape_is_kept(f: PrFlowOf<Seq<char>>, o: OutcomeOf<Seq<char>>)
    requires
        reachable_shape(f),
    ensures
        reachable_shape(pr_next(f, o).0),
{
}

/// The pull request is opened as a draft exactly when the command was asked
/// for one, from the branch that was pushed, onto a different base branch,
/// with a title that is not empty and the title and body that were previewed.
pub proof fn lemma_pull_request_is_what_was_asked(f: PrFlowOf<Seq<char>>, o: OutcomeOf<Seq<char>>)
    requires
        reachable_shape(f),
    ensures
        pr_next(f, o).1 matches PrActionOf::CreatePr { base, branch, title, body, draft } ==> {
            &&& draft == f.draft
            &&& base != branch
            &&& title.len() > 0
            &&& f.phase == (PrPhaseOf::Pushing { base, branch, title, body })
        },
        pr_next(f, o).1 matches PrActionOf::RunGit(c) ==> (c is Push ==> f.phase is Previewing
            && c->Push_0 == f.phase->Previewing_branch),
{
}

/// A dry run neither pushes the branch nor opens a pull request.
pub proof fn lemma_dry_run_never_publishes(f: PrFlowOf<Seq<char>>, o: OutcomeOf<Seq<char>>)
    requires
        f.dry_run,
        reachable_shape(f),
    ensures
        !(pr_next(f, o).1 matches PrActionOf::RunGit(c) && c is Push),
        !(pr_next(f, o).1 is CreatePr),
{
}

/// On the base branch itself the command is refused.
pub proof fn lemma_base_branch_is_refused(f: PrFlowOf<Seq<char>>, o: OutcomeOf<Seq<char>>)
    requires
        f.phase matches PrPhaseOf::ReadingBranch { base } && git_output(o) == Some(base),
    ensures
        pr_next(f, o).1 == PrActionOf::Finish(
            Some(FlowErrorOf::OnBaseBranch { base: f.phase->ReadingBranch_base }),
        ),
{
}

/// A branch with no commits ahead of the base is refused.
pub proof fn lemma_no_commits_is_refused(f: PrFlowOf<Seq<char>>, o: OutcomeOf<Seq<char>>)
    requires
        f.phase is ReadingLog,
        git_output(o) == Some(Seq::<char>::empty()),
    ensures
        pr_next(f, o).1 == PrActionOf::Finish(
            Some(
                FlowErrorOf::NoCommitsAhead {
                    branch: f.phase->ReadingLog_branch,
                    base: f.phase->ReadingLog_base,
                },
            ),
        ),
{
}

/// The prompt sent to the model opens with "Branch: <branch> -> <base>" and
/// carries the commit summaries and the diff statistics.
pub proof fn lemma_prompt_names_branch_and_base(f: PrFlowOf<Seq<char>>, o: OutcomeOf<Seq<char>>)
    requires
        f.phase is ReadingDiff,
        git_output(o) is Some,
    ensures
        pr_next(f, o).1 matches PrActionOf::Generate { user, .. } && ("Branch: "@
            + f.phase->ReadingDiff_branch + " -> "@ + f.phase->ReadingDiff_base).is_prefix_of(
            user,
        ) && user == pr_prompt(
            f.phase->ReadingDiff_branch,
            f.phase->ReadingDiff_base,
            f.phase->ReadingDiff_commits,
            f.phase->ReadingDiff_stat,
            truncated_diff(git_output(o)->0, MAX_DIFF as int).0,
        ),
{
    let branch = f.phase->ReadingDiff_branch;
    let base = f.phase->ReadingDiff_base;
    let head = "Branch: "@ + branch + " -> "@ + base;
    let user = pr_prompt(
        branch,
        base,
        f.phase->ReadingDiff_commits,
        f.phase->ReadingDiff_stat,
        truncated_diff(git_output(o)->0, MAX_DIFF as int).0,
    );
    assert(user.subrange(0, head.len() as int) =~= head);
}

/// Each step that succeeds leads to the next action of `ciri pr`: after the
/// repository check, the current branch (with `--base`) or the search for the
/// base branch; on a branch other than the base, `git fetch origin <base>`,
/// then `git merge-base` with `origin/<base>`, then the log, the statistics
/// and the diff from that merge base, each keeping what was read; after a
/// reply whose title is not empty, the preview of that title and body; once
/// it is shown, the push of the branch (a dry run stops there); after the
/// push, `gh pr create`; and the command succeeds when `gh` does.
pub proof fn lemma_pr_steps_in_order(f: PrFlowOf<Seq<char>>, o: OutcomeOf<Seq<char>>)
    ensures
        (f.phase is CheckingRepo && git_output(o) is Some && f.phase->requested_base is Some)
            ==> pr_next(f, o) == (PrFlowOf {
            phase: PrPhaseOf::ReadingBranch { base: f.phase->requested_base->0 },
            ..f
        }, PrActionOf::RunGit(GitCommandOf::<Seq<char>>::CurrentBranch)),
        (f.phase is CheckingRepo && git_output(o) is Some && f.phase->requested_base is None)
            ==> pr_next(f, o) == (PrFlowOf {
            phase: PrPhaseOf::DetectingBase(BaseProbe::OriginHead),
            ..f
        }, PrActionOf::RunGit(GitCommandOf::<Seq<char>>::OriginHead)),
        (f.phase is ReadingBranch && git_output(o) is Some && git_output(o)->0
            != f.phase->ReadingBranch_base) ==> pr_next(f, o) == (PrFlowOf {
            phase: PrPhaseOf::Fetching {
                base: f.phase->ReadingBranch_base,
                branch: git_output(o)->0,
            },
            ..f
        }, PrActionOf::RunGit(GitCommandOf::Fetch(f.phase->ReadingBranch_base))),
        (f.phase is Fetching && git_output(o) is Some) ==> pr_next(f, o).1 == PrActionOf::RunGit(
            GitCommandOf::MergeBase(f.phase->Fetching_base),
        ),
        (f.phase is FindingMergeBase && git_output(o) is Some) ==> pr_next(f, o) == (PrFlowOf {
            phase: PrPhaseOf::ReadingLog {
                base: f.phase->FindingMergeBase_base,
                branch: f.phase->FindingMergeBase_branch,
                merge_base: git_output(o)->0,
            },
            ..f
        }, PrActionOf::RunGit(GitCommandOf::Log(git_output(o)->0))),
        (f.phase is ReadingLog && git_output(o) is Some && git_output(o)->0.len() > 0)
            ==> pr_next(f, o).1 == PrActionOf::RunGit(
            GitCommandOf::DiffStat(f.phase->ReadingLog_merge_base),
        ),
        (f.phase is ReadingLog && git_output(o) is Some && git_output(o)->0.len() > 0)
            ==> pr_next(f, o).0.phase->ReadingStat_commits == git_output(o)->0,
        (f.phase is ReadingStat && git_output(o) is Some) ==> pr_next(f, o).1 == PrActionOf::RunGit(
            GitCommandOf::Diff(f.phase->ReadingStat_merge_base),
        ),
        (f.phase is ReadingStat && git_output(o) is Some) ==> pr_next(f, o).0.phase
            == (PrPhaseOf::ReadingDiff {
            base: f.phase->ReadingStat_base,
            branch: f.phase->ReadingStat_branch,
            merge_base: f.phase->ReadingStat_merge_base,
            commits: f.phase->ReadingStat_commits,
            stat: git_output(o)->0,
        }),
        (f.phase is ReadingDiff && git_output(o) is Some) ==> (pr_next(f, o).1 is Generate
            && pr_next(f, o).1->Generate_model == f.model && pr_next(f, o).1->Generate_system
            == PR_SYSTEM@),
        (f.phase is Generating && o is Reply && title_of(o->Reply_0).len() > 0) ==> pr_next(f, o)
            == (PrFlowOf {
            phase: PrPhaseOf::Previewing {
                base: f.phase->Generating_base,
                branch: f.phase->Generating_branch,
                title: title_of(o->Reply_0),
                body: body_of(o->Reply_0),
            },
            ..f
        }, PrActionOf::Preview(
            "# "@ + title_of(o->Reply_0) + "\n\n"@ + body_of(o->Reply_0) + "\n"@,
        )),
        (f.phase is Previewing && o is Shown && !f.dry_run) ==> pr_next(f, o).1
            == PrActionOf::RunGit(GitCommandOf::Push(f.phase->Previewing_branch)),
        (f.phase is Previewing && o is Shown && f.dry_run) ==> pr_next(f, o).1 == PrActionOf::<
            Seq<char>,
        >::Finish(None),
        (f.phase is Pushing && git_output(o) is Some) ==> pr_next(f, o).1 == (
        PrActionOf::CreatePr {
            base: f.phase->Pushing_base,
            branch: f.phase->Pushing_branch,
            title: f.phase->Pushing_title,
            body: f.phase->Pushing_body,
            draft: f.draft,
        }),
        (f.phase is Creating && o is Exited && o->Exited_success) ==> pr_next(f, o).1
            == PrActionOf::<Seq<char>>::Finish(None),
{
}

/// A step that fails ends the command, reporting why: a git command that
/// failed with its arguments and error output, an error of the model with its
/// message, a reply without a title with "Model returned empty title.", and a
/// failed `gh pr create` with "gh pr create failed".
pub proof fn lemma_pr_failures_end_the_command(f: PrFlowOf<Seq<char>>, o: OutcomeOf<Seq<char>>)
    ensures
        (o is Captured && !o->Captured_success && (f.phase is CheckingRepo
            || f.phase is ReadingBranch || f.phase is Fetching || f.phase is FindingMergeBase
            || f.phase is ReadingLog || f.phase is ReadingStat || f.phase is ReadingDiff
            || f.phase is Pushing)) ==> pr_next(f, o).1 == PrActionOf::Finish(
            Some(
                (FlowErrorOf::GitFailed {
                    command: o->Captured_command,
                    stderr: o->Captured_stderr,
                }),
            ),
        ),
        (f.phase is Generating && o is Failed) ==> pr_next(f, o).1 == PrActionOf::Finish(
            Some(FlowErrorOf::Failed(o->Failed_0)),
        ),
        (f.phase is Generating && o is Reply && title_of(o->Reply_0).len() == 0) ==> pr_next(
            f,
            o,
        ).1 == PrActionOf::Finish(Some(FlowErrorOf::<Seq<char>>::EmptyTitle)),
        (f.phase is Creating && o is Exited && !o->Exited_success) ==> pr_next(f, o).1
            == PrActionOf::Finish(Some(FlowErrorOf::<Seq<char>>::PrCreateFailed)),
        pr_next(f, o).1 is Finish ==> pr_next(f, o).0.phase is Finished,
{
}

/// The arguments that follow `gh` to open a pull request.
pub open spec fn gh_args(
    base: Seq<char>,
    branch: Seq<char>,
    title: Seq<char>,
    body: Seq<char>,
    draft: bool,
) -> Seq<Seq<char>> {
    seq!["pr"@, "create"@, "--base"@, base, "--head"@, branch, "--title"@, title, "--body"@, body]
        + if draft {
        seq!["--draft"@]
    } else {
        Seq::empty()
    }
}

/// `gh pr create` names the base, the head branch, the title and the body,
/// and adds `--draft` exactly for a draft.
pub proof fn lemma_gh_arguments(
    base: Seq<char>,
    branch: Seq<char>,
    title: Seq<char>,
    body: Seq<char>,
)
    ensures
        gh_args(base, branch, title, body, false) == seq![
            "pr"@,
            "create"@,
            "--base"@,
            base,
            "--head"@,
            branch,
            "--title"@,
            title,
            "--body"@,
            body,
        ],
        gh_args(base, branch, title, body, true) == gh_args(base, branch, title, body, false).push(
            "--draft"@,
        ),
{
    assert(gh_args(base, branch, title, body, false) =~= seq![
        "pr"@,
        "create"@,
        "--base"@,
        base,
        "--head"@,
        branch,
        "--title"@,
        title,
        "--body"@,
        body,
    ]);
    assert(gh_args(base, branch, title, body, true) =~= gh_args(base, branch, title, body, false).push(
        "--draft"@,
    ));
}

fn text(s: &str) -> (r: String)
    ensures
        r@ == s@,
{
    String::from_str(s)
}

/// The arguments that follow `gh` to open a pull request.
pub fn gh_pr_create_args(base: &str, branch: &str, title: &str, body: &str, draft: bool) -> (r: Vec<
    String,
>)
    ensures
        texts(r) == gh_args(base@, branch@, title@, body@, draft),
{
    let mut r = vec![
        text("pr"),
        text("create"),
        text("--base"),
        text(base),
        text("--head"),
        text(branch),
        text("--title"),
        text(title),
        text("--body"),
        text(body),
    ];
    if draft {
        r.push(text("--draft"));
    }
    assert(texts(r) =~= gh_args(base@, branch@, title@, body@, draft));
    r
}

impl PrFlowOf<String> {
    /// Begin the command: check that the working directory is a repository.
    /// `model` is the model the user named, if any.
    pub fn start(args: Args, model: Option<&str>) -> (r: (PrFlow, PrAction))
        ensures
            r.0@.draft == args.draft,
            r.0@.dry_run == args.dry_run,
            r.0@.model == match model {
                Some(m) => Some(m@),
                None => None::<Seq<char>>,
            },
            r.0@.phase == (PrPhaseOf::CheckingRepo { requested_base: opt_view(args.base) }),
            r.1@ == PrActionOf::RunGit(GitCommandOf::<Seq<char>>::IsInsideWorkTree),
            reachable_shape(r.0@),
    {
        let model = match model {
            Some(m) => Some(String::from_str(m)),
            None => None,
        };
        (
            PrFlowOf {
                draft: args.draft,
                dry_run: args.dry_run,
                model,
                phase: PrPhaseOf::CheckingRepo { requested_base: args.base },
            },
            PrActionOf::RunGit(GitCommandOf::IsInsideWorkTree),
        )
    }

    /// Take the outcome of the last action and say what to do next.
    pub fn step(&mut self, o: Outcome) -> (a: PrAction)
        ensures
            (final(self)@, a@) == pr_next(old(self)@, o@),
    {
        let mut phase = PrPhaseOf::Finished;
        std::mem::swap(&mut phase, &mut self.phase);
        match phase {
            PrPhaseOf::CheckingRepo { requested_base } => match git_output_of(&o) {
                Some(_) => match requested_base {
                    Some(b) => {
                        self.phase = PrPhaseOf::ReadingBranch { base: b };
                        PrActionOf::RunGit(GitCommandOf::CurrentBranch)
                    },
                    None => {
                        self.phase = PrPhaseOf::DetectingBase(BaseProbe::OriginHead);
                        PrActionOf::RunGit(GitCommandOf::OriginHead)
                    },
                },
                None => PrActionOf::Finish(Some(failure(o))),
            },
            PrPhaseOf::DetectingBase(p) => {
                let ok = git_output_of(&o).is_some();
                let (p2, st) = match &o {
                    OutcomeOf::Captured { stdout, .. } => probe_step(p, ok, stdout.as_str()),
                    _ => probe_step(p, ok, ""),
                };
                proof {
                    reveal_strlit("");
                    assert(""@ =~= Seq::<char>::empty());
                }
                match st {
                    ProbeStepOf::Run(c) => {
                        self.phase = PrPhaseOf::DetectingBase(p2);
                        PrActionOf::RunGit(c)
                    },
                    ProbeStepOf::Found(b) => {
                        self.phase = PrPhaseOf::ReadingBranch { base: b };
                        PrActionOf::RunGit(GitCommandOf::CurrentBranch)
                    },
                }
            },
            PrPhaseOf::ReadingBranch { base } => match git_output_of(&o) {
                Some(branch) => if same_text(branch.as_str(), base.as_str()) {
                    PrActionOf::Finish(Some(FlowErrorOf::OnBaseBranch { base }))
                } else {
                    let fetch = GitCommandOf::Fetch(base.clone());
                    self.phase = PrPhaseOf::Fetching { base, branch };
                    PrActionOf::RunGit(fetch)
                },
                None => PrActionOf::Finish(Some(failure(o))),
            },
            PrPhaseOf::Fetching { base, branch } => match git_output_of(&o) {
                Some(_) => {
                    let cmd = GitCommandOf::MergeBase(base.clone());
                    self.phase = PrPhaseOf::FindingMergeBase { base, branch };
                    PrActionOf::RunGit(cmd)
                },
                None => PrActionOf::Finish(Some(failure(o))),
            },
            PrPhaseOf::FindingMergeBase { base, branch } => match git_output_of(&o) {
                Some(merge_base) => {
                    let cmd = GitCommandOf::Log(merge_base.clone());
                    self.phase = PrPhaseOf::ReadingLog { base, branch, merge_base };
                    PrActionOf::RunGit(cmd)
                },
                None => PrActionOf::Finish(Some(failure(o))),
            },
            PrPhaseOf::ReadingLog { base, branch, merge_base } => match git_output_of(&o) {
                Some(commits) => if commits.as_str().unicode_len() == 0 {
                    PrActionOf::Finish(Some(FlowErrorOf::NoCommitsAhead { branch, base }))
                } else {
                    let cmd = GitCommandOf::DiffStat(merge_base.clone());
                    self.phase = PrPhaseOf::ReadingStat { base, branch, merge_base, commits };
                    PrActionOf::RunGit(cmd)
                },
                None => PrActionOf::Finish(Some(failure(o))),
            },
            PrPhaseOf::ReadingStat { base, branch, merge_base, commits } => match git_output_of(&o) {
                Some(stat) => {
                    let cmd = GitCommandOf::Diff(merge_base.clone());
                    self.phase = PrPhaseOf::ReadingDiff { base, branch, merge_base, commits, stat };
                    PrActionOf::RunGit(cmd)
                },
                None => PrActionOf::Finish(Some(failure(o))),
            },
            PrPhaseOf::ReadingDiff { base, branch, merge_base, commits, stat } => match git_output_of(
                &o,
            ) {
                Some(diff) => {
                    let (short, _) = truncate_diff(diff.as_str(), MAX_DIFF);
                    let user = pr_user_prompt(
                        branch.as_str(),
                        base.as_str(),
                        commits.as_str(),
                        stat.as_str(),
                        short.as_str(),
                    );
                    let model = self.model.clone();
                    self.phase = PrPhaseOf::Generating { base, branch };
                    PrActionOf::Generate { model, system: String::from_str(PR_SYSTEM), user }
                },
                None => PrActionOf::Finish(Some(failure(o))),
            },
            PrPhaseOf::Generating { base, branch } => match o {
                OutcomeOf::Reply(content) => {
                    let (title, body) = split_title_body(content.as_str());
                    if title.as_str().unicode_len() == 0 {
                        PrActionOf::Finish(Some(FlowErrorOf::EmptyTitle))
                    } else {
                        let md = preview_markdown(title.as_str(), body.as_str());
                        self.phase = PrPhaseOf::Previewing { base, branch, title, body };
                        PrActionOf::Preview(md)
                    }
                },
                _ => PrActionOf::Finish(Some(failure(o))),
            },
            PrPhaseOf::Previewing { base, branch, title, body } => match o {
                OutcomeOf::Shown => if self.dry_run {
                    PrActionOf::Finish(None)
                } else {
                    let cmd = GitCommandOf::Push(branch.clone());
                    self.phase = PrPhaseOf::Pushing { base, branch, title, body };
                    PrActionOf::RunGit(cmd)
                },
                _ => PrActionOf::Finish(Some(failure(o))),
            },
            PrPhaseOf::Pushing { base, branch, title, body } => match git_output_of(&o) {
                Some(_) => {
                    self.phase = PrPhaseOf::Creating;
                    PrActionOf::CreatePr { base, branch, title, body, draft: self.draft }
                },
                None => PrActionOf::Finish(Some(failure(o))),
            },
            PrPhaseOf::Creating => match o {
                OutcomeOf::Exited { success, .. } => if success {
                    PrActionOf::Finish(None)
                } else {
                    PrActionOf::Finish(Some(FlowErrorOf::PrCreateFailed))
                },
                _ => PrActionOf::Finish(Some(failure(o))),
            },
            PrPhaseOf::Finished => PrActionOf::Finish(Some(FlowErrorOf::UnexpectedOutcome)),
        }
    }
}

} // verus!
