//! The git commands the tool runs, their argument vectors, how a captured
//! run's output is read, and the search for the repository's base branch.
use vstd::prelude::*;

use crate::text::{chars_of, replace_all, replace_all_exec, substring, trim, trim_window};

verus! {

/// A git command, with the text it needs (a message, a branch, a commit).
pub enum GitCommandOf<S> {
    /// `git rev-parse --is-inside-work-tree`
    IsInsideWorkTree,
    /// `git add -A`
    AddAll,
    /// `git diff --staged`
    StagedDiff,
    /// `git diff --staged --name-status`
    StagedNameStatus,
    /// `git commit -m <message>`
    Commit(S),
    /// `git rev-parse --abbrev-ref HEAD`
    CurrentBranch,
    /// `git symbolic-ref refs/remotes/origin/HEAD`
    OriginHead,
    /// `git show-ref --verify --quiet refs/remotes/origin/<branch>`
    HasOriginBranch(S),
    /// `git fetch origin <base>`
    Fetch(S),
    /// `git merge-base HEAD origin/<base>`
    MergeBase(S),
    /// `git log --pretty=format:- %s <merge-base>..HEAD`
    Log(S),
    /// `git diff --stat <merge-base>..HEAD`
    DiffStat(S),
    /// `git diff <merge-base>..HEAD`
    Diff(S),
    /// `git push -u origin <branch>`
    Push(S),
}

pub type GitCommand = GitCommandOf<String>;

impl View for GitCommandOf<String> {
    type V = GitCommandOf<Seq<char>>;

    open spec fn view(&self) -> GitCommandOf<Seq<char>> {
        match self {
            GitCommandOf::IsInsideWorkTree => GitCommandOf::IsInsideWorkTree,
            GitCommandOf::AddAll => GitCommandOf::AddAll,
            GitCommandOf::StagedDiff => GitCommandOf::StagedDiff,
            GitCommandOf::StagedNameStatus => GitCommandOf::StagedNameStatus,
            GitCommandOf::Commit(m) => GitCommandOf::Commit(m@),
            GitCommandOf::CurrentBranch => GitCommandOf::CurrentBranch,
            GitCommandOf::OriginHead => GitCommandOf::OriginHead,
            GitCommandOf::HasOriginBranch(b) => GitCommandOf::HasOriginBranch(b@),
            GitCommandOf::Fetch(b) => GitCommandOf::Fetch(b@),
            GitCommandOf::MergeBase(b) => GitCommandOf::MergeBase(b@),
            GitCommandOf::Log(m) => GitCommandOf::Log(m@),
            GitCommandOf::DiffStat(m) => GitCommandOf::DiffStat(m@),
            GitCommandOf::Diff(m) => GitCommandOf::Diff(m@),
            GitCommandOf::Push(b) => GitCommandOf::Push(b@),
        }
    }
}

/// The arguments that follow `git` for a command.
pub open spec fn git_args(c: GitCommandOf<Seq<char>>) -> Seq<Seq<char>> {
    match c {
        GitCommandOf::IsInsideWorkTree => seq!["rev-parse"@, "--is-inside-work-tree"@],
        GitCommandOf::AddAll => seq!["add"@, "-A"@],
        GitCommandOf::StagedDiff => seq!["diff"@, "--staged"@],
        GitCommandOf::StagedNameStatus => seq!["diff"@, "--staged"@, "--name-status"@],
        GitCommandOf::Commit(m) => seq!["commit"@, "-m"@, m],
        GitCommandOf::CurrentBranch => seq!["rev-parse"@, "--abbrev-ref"@, "HEAD"@],
        GitCommandOf::OriginHead => seq!["symbolic-ref"@, "refs/remotes/origin/HEAD"@],
        GitCommandOf::HasOriginBranch(b) => seq![
            "show-ref"@,
            "--verify"@,
            "--quiet"@,
            "refs/remotes/origin/"@ + b,
        ],
        GitCommandOf::Fetch(b) => seq!["fetch"@, "origin"@, b],
        GitCommandOf::MergeBase(b) => seq!["merge-base"@, "HEAD"@, "origin/"@ + b],
        GitCommandOf::Log(m) => seq!["log"@, "--pretty=format:- %s"@, m + "..HEAD"@],
        GitCommandOf::DiffStat(m) => seq!["diff"@, "--stat"@, m + "..HEAD"@],
        GitCommandOf::Diff(m) => seq!["diff"@, m + "..HEAD"@],
        GitCommandOf::Push(b) => seq!["push"@, "-u"@, "origin"@, b],
    }
}

/// The commit reads the staged changes: `git diff --staged` for the diff and
/// the same with `--name-status` for the file list; `git add -A` stages
/// everything; the repository check and the commit are the plain commands.
pub proof fn lemma_commit_commands(message: Seq<char>)
    ensures
        git_args(GitCommandOf::StagedDiff) == seq!["diff"@, "--staged"@],
        git_args(GitCommandOf::StagedNameStatus) == git_args(GitCommandOf::<Seq<char>>::StagedDiff).push(
            "--name-status"@,
        ),
        git_args(GitCommandOf::AddAll) == seq!["add"@, "-A"@],
        git_args(GitCommandOf::IsInsideWorkTree) == seq!["rev-parse"@, "--is-inside-work-tree"@],
        git_args(GitCommandOf::Commit(message)) == seq!["commit"@, "-m"@, message],
{
    assert(git_args(GitCommandOf::<Seq<char>>::StagedDiff).push("--name-status"@) =~= seq![
        "diff"@,
        "--staged"@,
        "--name-status"@,
    ]);
}

/// The pull-request commands: the branch and base lookups, and the log,
/// statistics and diff all over the same range `<merge-base>..HEAD`.
pub proof fn lemma_pr_commands(base: Seq<char>, branch: Seq<char>, merge_base: Seq<char>)
    ensures
        git_args(GitCommandOf::CurrentBranch) == seq!["rev-parse"@, "--abbrev-ref"@, "HEAD"@],
        git_args(GitCommandOf::OriginHead) == seq!["symbolic-ref"@, remote_prefix() + "HEAD"@],
        git_args(GitCommandOf::HasOriginBranch(branch)) == seq![
            "show-ref"@,
            "--verify"@,
            "--quiet"@,
            remote_prefix() + branch,
        ],
        git_args(GitCommandOf::Fetch(base)) == seq!["fetch"@, "origin"@, base],
        git_args(GitCommandOf::MergeBase(base)) == seq!["merge-base"@, "HEAD"@, "origin/"@ + base],
        git_args(GitCommandOf::Log(merge_base)) == seq!["log"@, "--pretty=format:- %s"@].push(
            merge_base + "..HEAD"@,
        ),
        git_args(GitCommandOf::DiffStat(merge_base)) == seq!["diff"@, "--stat"@].push(
            merge_base + "..HEAD"@,
        ),
        git_args(GitCommandOf::Diff(merge_base)) == seq!["diff"@].push(merge_base + "..HEAD"@),
        git_args(GitCommandOf::Push(branch)) == seq!["push"@, "-u"@, "origin"@, branch],
{
    reveal_strlit("refs/remotes/origin/");
    reveal_strlit("refs/remotes/origin/HEAD");
    reveal_strlit("HEAD");
    assert("refs/remotes/origin/HEAD"@ =~= remote_prefix() + "HEAD"@);
    assert(git_args(GitCommandOf::Log(merge_base)) =~= seq!["log"@, "--pretty=format:- %s"@].push(
        merge_base + "..HEAD"@,
    ));
    assert(git_args(GitCommandOf::DiffStat(merge_base)) =~= seq!["diff"@, "--stat"@].push(
        merge_base + "..HEAD"@,
    ));
    assert(git_args(GitCommandOf::Diff(merge_base)) =~= seq!["diff"@].push(merge_base + "..HEAD"@));
}

/// The views of a vector of strings.
pub open spec fn texts(v: Vec<String>) -> Seq<Seq<char>> {
    v@.map_values(|s: String| s@)
}

fn text(s: &str) -> (r: String)
    ensures
        r@ == s@,
{
    String::from_str(s)
}

fn joined2(a: &str, b: &str) -> (r: String)
    ensures
        r@ == a@ + b@,
{
    let mut r = String::from_str(a);
    r.append(b);
    r
}

impl GitCommandOf<String> {
    /// The arguments that follow `git`.
    pub fn argv(&self) -> (r: Vec<String>)
        ensures
            texts(r) == git_args(self@),
    {
        let r = match self {
            GitCommandOf::IsInsideWorkTree => vec![text("rev-parse"), text("--is-inside-work-tree")],
            GitCommandOf::AddAll => vec![text("add"), text("-A")],
            GitCommandOf::StagedDiff => vec![text("diff"), text("--staged")],
            GitCommandOf::StagedNameStatus => vec![
                text("diff"),
                text("--staged"),
                text("--name-status"),
            ],
            GitCommandOf::Commit(m) => vec![text("commit"), text("-m"), text(m.as_str())],
            GitCommandOf::CurrentBranch => vec![text("rev-parse"), text("--abbrev-ref"), text("HEAD")],
            GitCommandOf::OriginHead => vec![text("symbolic-ref"), text("refs/remotes/origin/HEAD")],
            GitCommandOf::HasOriginBranch(b) => vec![
                text("show-ref"),
                text("--verify"),
                text("--quiet"),
                joined2("refs/remotes/origin/", b.as_str()),
            ],
            GitCommandOf::Fetch(b) => vec![text("fetch"), text("origin"), text(b.as_str())],
            GitCommandOf::MergeBase(b) => vec![
                text("merge-base"),
                text("HEAD"),
                joined2("origin/", b.as_str()),
            ],
            GitCommandOf::Log(m) => vec![
                text("log"),
                text("--pretty=format:- %s"),
                joined2(m.as_str(), "..HEAD"),
            ],
            GitCommandOf::DiffStat(m) => vec![
                text("diff"),
                text("--stat"),
                joined2(m.as_str(), "..HEAD"),
            ],
            GitCommandOf::Diff(m) => vec![text("diff"), joined2(m.as_str(), "..HEAD")],
            GitCommandOf::Push(b) => vec![text("push"), text("-u"), text("origin"), text(b.as_str())],
        };
        assert(texts(r) =~= git_args(self@));
        r
    }
}

/// What a successful captured run yields: its standard output, trimmed.
pub fn captured_output(success: bool, stdout: &str) -> (r: Option<String>)
    ensures
        success ==> (r matches Some(t) && t@ == trim(stdout@)),
        !success ==> r is None,
{
    if success {
        let v = chars_of(stdout);
        let n = v.len();
        assert(v@.subrange(0, n as int) =~= v@);
        let (a, b) = trim_window(&v, 0, n);
        Some(substring(stdout, a, b))
    } else {
        None
    }
}

/// Where the search for the base branch stands.
#[derive(Clone, Copy, Debug, PartialEq, Eq, Structural)]
pub enum BaseProbe {
    /// Asking where `origin/HEAD` points.
    OriginHead,
    /// Asking whether `origin/main` exists.
    Main,
    /// Asking whether `origin/master` exists.
    Master,
}

/// The next step of the search: run a command, or the base branch was found.
pub enum ProbeStepOf<S> {
    Run(GitCommandOf<S>),
    Found(S),
}

pub type ProbeStep = ProbeStepOf<String>;

impl View for ProbeStepOf<String> {
    type V = ProbeStepOf<Seq<char>>;

    open spec fn view(&self) -> ProbeStepOf<Seq<char>> {
        match self {
            ProbeStepOf::Run(c) => ProbeStepOf::Run(c@),
            ProbeStepOf::Found(b) => ProbeStepOf::Found(b@),
        }
    }
}

/// The prefix of a remote branch reference.
pub open spec fn remote_prefix() -> Seq<char> {
    "refs/remotes/origin/"@
}

/// The search for the base branch: where `origin/HEAD` points, else `main`
/// if `origin/main` exists, else `master` if `origin/master` exists, else
/// `main`. `answered` is whether the last command succeeded, `stdout` its
/// output.
pub open spec fn probe_next(p: BaseProbe, answered: bool, stdout: Seq<char>) -> (
    BaseProbe,
    ProbeStepOf<Seq<char>>,
) {
    match p {
        BaseProbe::OriginHead => if answered {
            (p, ProbeStepOf::Found(replace_all(trim(stdout), remote_prefix(), Seq::empty())))
        } else {
            (BaseProbe::Main, ProbeStepOf::Run(GitCommandOf::HasOriginBranch("main"@)))
        },
        BaseProbe::Main => if answered {
            (p, ProbeStepOf::Found("main"@))
        } else {
            (BaseProbe::Master, ProbeStepOf::Run(GitCommandOf::HasOriginBranch("master"@)))
        },
        BaseProbe::Master => if answered {
            (p, ProbeStepOf::Found("master"@))
        } else {
            (p, ProbeStepOf::Found("main"@))
        },
    }
}

/// The search for the base branch asks at most three questions, in this
/// order: where `origin/HEAD` points, whose answer (trimmed, with every
/// `refs/remotes/origin/` removed) is the base; else whether `origin/main`
/// exists, which makes `main` the base; else whether `origin/master` exists,
/// which makes `master` the base; and when none answers, the base is `main`.
pub proof fn lemma_base_search_order(head: Seq<char>, s1: Seq<char>, s2: Seq<char>, s3: Seq<char>)
    ensures
        probe_next(BaseProbe::OriginHead, true, head).1 == ProbeStepOf::Found(
            replace_all(trim(head), "refs/remotes/origin/"@, Seq::<char>::empty()),
        ),
        probe_next(BaseProbe::OriginHead, false, s1) == (BaseProbe::Main, ProbeStepOf::Run(
            GitCommandOf::HasOriginBranch("main"@),
        )),
        probe_next(BaseProbe::Main, true, s2).1 == ProbeStepOf::Found("main"@),
        probe_next(BaseProbe::Main, false, s2) == (BaseProbe::Master, ProbeStepOf::Run(
            GitCommandOf::HasOriginBranch("master"@),
        )),
        probe_next(BaseProbe::Master, true, s3).1 == ProbeStepOf::Found("master"@),
        probe_next(BaseProbe::Master, false, s3).1 == ProbeStepOf::Found("main"@),
        git_args(GitCommandOf::HasOriginBranch("main"@)) == seq![
            "show-ref"@,
            "--verify"@,
            "--quiet"@,
            "refs/remotes/origin/main"@,
        ],
        git_args(GitCommandOf::HasOriginBranch("master"@)) == seq![
            "show-ref"@,
            "--verify"@,
            "--quiet"@,
            "refs/remotes/origin/master"@,
        ],
{
    reveal_strlit("refs/remotes/origin/");
    reveal_strlit("refs/remotes/origin/main");
    reveal_strlit("refs/remotes/origin/master");
    reveal_strlit("main");
    reveal_strlit("master");
    assert("refs/remotes/origin/"@ + "main"@ =~= "refs/remotes/origin/main"@);
    assert("refs/remotes/origin/"@ + "master"@ =~= "refs/remotes/origin/master"@);
}

/// The first command of the search for the base branch.
pub fn probe_start() -> (r: (BaseProbe, GitCommand))
    ensures
        r.0 == BaseProbe::OriginHead,
        r.1@ == GitCommandOf::<Seq<char>>::OriginHead,
{
    (BaseProbe::OriginHead, GitCommandOf::OriginHead)
}

/// One step of the search for the base branch.
pub fn probe_step(p: BaseProbe, answered: bool, stdout: &str) -> (r: (BaseProbe, ProbeStep))
    ensures
        (r.0, r.1@) == probe_next(p, answered, stdout@),
{
    match p {
        BaseProbe::OriginHead => if answered {
            proof {
                reveal_strlit("refs/remotes/origin/");
                reveal_strlit("");
                assert(""@ =~= Seq::<char>::empty());
            }
            let h = captured_output(true, stdout);
            let h = match h {
                Some(h) => h,
                None => String::new(),
            };
            (p, ProbeStepOf::Found(replace_all_exec(h.as_str(), "refs/remotes/origin/", "")))
        } else {
            (BaseProbe::Main, ProbeStepOf::Run(GitCommandOf::HasOriginBranch(text("main"))))
        },
        BaseProbe::Main => if answered {
            (p, ProbeStepOf::Found(text("main")))
        } else {
            (BaseProbe::Master, ProbeStepOf::Run(GitCommandOf::HasOriginBranch(text("master"))))
        },
        BaseProbe::Master => if answered {
            (p, ProbeStepOf::Found(text("master")))
        } else {
            (p, ProbeStepOf::Found(text("main")))
        },
    }
}

} // verus!
