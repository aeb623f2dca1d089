use ciri::commands::commit::{self, CommitActionOf, CommitFlowOf};
use ciri::commands::pr::{self, gh_pr_create_args, PrActionOf, PrFlowOf};
use ciri::flow::{FlowErrorOf, OutcomeOf};
use ciri::git::{probe_start, probe_step, BaseProbe, GitCommandOf, ProbeStepOf};
use ciri::ui::preview_markdown;

fn ok(stdout: &str) -> OutcomeOf<String> {
    OutcomeOf::Captured {
        command: "[..]".to_string(),
        success: true,
        stdout: stdout.to_string(),
        stderr: String::new(),
    }
}

fn failed_git(stderr: &str) -> OutcomeOf<String> {
    OutcomeOf::Captured {
        command: "[\"x\"]".to_string(),
        success: false,
        stdout: String::new(),
        stderr: stderr.to_string(),
    }
}

fn args_of(c: &GitCommandOf<String>) -> Vec<String> {
    c.argv()
}

#[test]
fn git_argument_vectors() {
    assert_eq!(args_of(&GitCommandOf::AddAll), vec!["add", "-A"]);
    assert_eq!(
        args_of(&GitCommandOf::HasOriginBranch("main".into())),
        vec!["show-ref", "--verify", "--quiet", "refs/remotes/origin/main"]
    );
    assert_eq!(args_of(&GitCommandOf::MergeBase("dev".into())), vec!["merge-base", "HEAD", "origin/dev"]);
    assert_eq!(
        args_of(&GitCommandOf::Log("abc".into())),
        vec!["log", "--pretty=format:- %s", "abc..HEAD"]
    );
    assert_eq!(args_of(&GitCommandOf::Commit("m".into())), vec!["commit", "-m", "m"]);
}

#[test]
fn base_is_read_from_origin_head() {
    let (p, cmd) = probe_start();
    assert_eq!(p, BaseProbe::OriginHead);
    assert_eq!(cmd.argv(), vec!["symbolic-ref", "refs/remotes/origin/HEAD"]);
    let (_, st) = probe_step(p, true, "refs/remotes/origin/develop\n");
    match st {
        ProbeStepOf::Found(b) => assert_eq!(b, "develop"),
        ProbeStepOf::Run(_) => panic!("expected the base"),
    }
}

#[test]
fn base_falls_back_to_main_then_master() {
    let (p, st) = probe_step(BaseProbe::OriginHead, false, "");
    assert_eq!(p, BaseProbe::Main);
    assert!(matches!(st, ProbeStepOf::Run(GitCommandOf::HasOriginBranch(ref b)) if b == "main"));
    let (p, st) = probe_step(p, false, "");
    assert_eq!(p, BaseProbe::Master);
    assert!(matches!(st, ProbeStepOf::Run(GitCommandOf::HasOriginBranch(ref b)) if b == "master"));
    let (_, st) = probe_step(p, true, "");
    assert!(matches!(st, ProbeStepOf::Found(ref b) if b == "master"));
    let (_, st) = probe_step(BaseProbe::Master, false, "");
    assert!(matches!(st, ProbeStepOf::Found(ref b) if b == "main"));
}

#[test]
fn commit_runs_through_to_the_commit() {
    let (mut f, a) = CommitFlowOf::start(commit::Args { dry_run: false, no_add: false }, None);
    assert!(matches!(a, CommitActionOf::RunGit(GitCommandOf::IsInsideWorkTree)));
    assert!(matches!(f.step(ok("true")), CommitActionOf::RunGit(GitCommandOf::AddAll)));
    assert!(matches!(f.step(ok("")), CommitActionOf::RunGit(GitCommandOf::StagedDiff)));
    assert!(matches!(f.step(ok("+a\n")), CommitActionOf::RunGit(GitCommandOf::StagedNameStatus)));
    match f.step(ok("A\tsrc/a.txt\n")) {
        CommitActionOf::Generate { model, system, user } => {
            assert_eq!(model, "gemma4:e2b");
            assert!(system.contains("gitmoji"));
            assert_eq!(user, "Files changed:\nA\tsrc/a.txt\n\nDiff:\n+a\n\nWrite the commit message.");
        }
        _ => panic!("expected generation"),
    }
    match f.step(OutcomeOf::Reply("```\nfeat: cleaned\n```".into())) {
        CommitActionOf::RunGitOnTerminal(GitCommandOf::Commit(m)) => assert_eq!(m, "feat: cleaned"),
        _ => panic!("expected the commit"),
    }
    assert!(matches!(
        f.step(OutcomeOf::Exited { command: String::new(), success: true }),
        CommitActionOf::Finish(None)
    ));
}

#[test]
fn commit_without_changes_is_refused() {
    let (mut f, _) = CommitFlowOf::start(commit::Args { dry_run: false, no_add: true }, Some("m1"));
    assert!(matches!(f.step(ok("true")), CommitActionOf::RunGit(GitCommandOf::StagedDiff)));
    match f.step(ok("  \n")) {
        CommitActionOf::Finish(Some(e)) => assert_eq!(e.message(), "No staged changes."),
        _ => panic!("expected refusal"),
    }
}

#[test]
fn commit_dry_run_stops_before_committing() {
    let (mut f, _) = CommitFlowOf::start(commit::Args { dry_run: true, no_add: true }, Some("m1"));
    f.step(ok("true"));
    f.step(ok("+x"));
    match f.step(ok("M x")) {
        CommitActionOf::Generate { model, .. } => assert_eq!(model, "m1"),
        _ => panic!("expected generation"),
    }
    assert!(matches!(f.step(OutcomeOf::Reply("chore: nope".into())), CommitActionOf::Finish(None)));
}

#[test]
fn commit_with_empty_reply_is_refused() {
    let (mut f, _) = CommitFlowOf::start(commit::Args { dry_run: false, no_add: true }, None);
    f.step(ok("true"));
    f.step(ok("+x"));
    f.step(ok("M x"));
    match f.step(OutcomeOf::Reply("```\n```".into())) {
        CommitActionOf::Finish(Some(e)) => assert_eq!(e.message(), "Model returned empty message."),
        _ => panic!("expected refusal"),
    }
}

#[test]
fn commit_outside_a_repository_reports_git() {
    let (mut f, _) = CommitFlowOf::start(commit::Args { dry_run: false, no_add: false }, None);
    match f.step(failed_git("fatal: not a git repository")) {
        CommitActionOf::Finish(Some(e)) => {
            assert_eq!(e.message(), "git [\"x\"] failed: fatal: not a git repository")
        }
        _ => panic!("expected failure"),
    }
}

#[test]
fn pr_on_base_branch_is_refused() {
    let (mut f, _) = PrFlowOf::start(pr::Args { base: None, draft: false, dry_run: true }, None);
    assert!(matches!(f.step(ok("true")), PrActionOf::RunGit(GitCommandOf::OriginHead)));
    assert!(matches!(f.step(failed_git("")), PrActionOf::RunGit(GitCommandOf::HasOriginBranch(_))));
    assert!(matches!(f.step(ok("")), PrActionOf::RunGit(GitCommandOf::CurrentBranch)));
    match f.step(ok("main\n")) {
        PrActionOf::Finish(Some(e)) => {
            assert_eq!(e.message(), "On base branch 'main'. Checkout a feature branch.")
        }
        _ => panic!("expected refusal"),
    }
}

#[test]
fn pr_without_commits_is_refused() {
    let (mut f, _) =
        PrFlowOf::start(pr::Args { base: Some("main".into()), draft: false, dry_run: true }, None);
    assert!(matches!(f.step(ok("true")), PrActionOf::RunGit(GitCommandOf::CurrentBranch)));
    assert!(matches!(f.step(ok("feat/empty")), PrActionOf::RunGit(GitCommandOf::Fetch(_))));
    assert!(matches!(f.step(ok("")), PrActionOf::RunGit(GitCommandOf::MergeBase(_))));
    assert!(matches!(f.step(ok("abc123")), PrActionOf::RunGit(GitCommandOf::Log(_))));
    match f.step(ok("")) {
        PrActionOf::Finish(Some(FlowErrorOf::NoCommitsAhead { branch, base })) => {
            assert_eq!(branch, "feat/empty");
            assert_eq!(base, "main");
        }
        _ => panic!("expected refusal"),
    }
}

fn pr_up_to_preview(dry_run: bool, draft: bool) -> PrFlowOf<String> {
    let (mut f, _) =
        PrFlowOf::start(pr::Args { base: Some("main".into()), draft, dry_run }, None);
    f.step(ok("true"));
    f.step(ok("feat/xyz"));
    f.step(ok(""));
    f.step(ok("abc"));
    f.step(ok("- feat: content"));
    f.step(ok(" f.txt | 1 +"));
    match f.step(ok("+content")) {
        PrActionOf::Generate { model, user, .. } => {
            assert!(model.is_none());
            assert!(user.starts_with("Branch: feat/xyz -> main"));
            assert!(user.contains("Diff stat:"));
            assert!(user.contains("feat: content"));
        }
        _ => panic!("expected generation"),
    }
    match f.step(OutcomeOf::Reply("feat: xyz\n\n## Summary\n- body".into())) {
        PrActionOf::Preview(md) => assert_eq!(md, "# feat: xyz\n\n## Summary\n- body\n"),
        _ => panic!("expected preview"),
    }
    f
}

#[test]
fn pr_dry_run_previews_without_pushing() {
    let mut f = pr_up_to_preview(true, false);
    assert!(matches!(f.step(OutcomeOf::Shown), PrActionOf::Finish(None)));
}

#[test]
fn pr_pushes_and_opens_the_request() {
    let mut f = pr_up_to_preview(false, true);
    match f.step(OutcomeOf::Shown) {
        PrActionOf::RunGit(GitCommandOf::Push(b)) => assert_eq!(b, "feat/xyz"),
        _ => panic!("expected push"),
    }
    match f.step(ok("")) {
        PrActionOf::CreatePr { base, branch, title, body, draft } => {
            assert_eq!(
                gh_pr_create_args(&base, &branch, &title, &body, draft),
                vec![
                    "pr", "create", "--base", "main", "--head", "feat/xyz", "--title",
                    "feat: xyz", "--body", "## Summary\n- body", "--draft"
                ]
            );
        }
        _ => panic!("expected pull request"),
    }
    match f.step(OutcomeOf::Exited { command: String::new(), success: false }) {
        PrActionOf::Finish(Some(e)) => assert_eq!(e.message(), "gh pr create failed"),
        _ => panic!("expected failure"),
    }
}

#[test]
fn pr_with_empty_title_is_refused() {
    let (mut f, _) =
        PrFlowOf::start(pr::Args { base: Some("main".into()), draft: false, dry_run: true }, None);
    f.step(ok("true"));
    f.step(ok("feat/xyz"));
    f.step(ok(""));
    f.step(ok("abc"));
    f.step(ok("- c"));
    f.step(ok("s"));
    f.step(ok("d"));
    match f.step(OutcomeOf::Reply("#  \nbody".into())) {
        PrActionOf::Finish(Some(e)) => assert_eq!(e.message(), "Model returned empty title."),
        _ => panic!("expected refusal"),
    }
}

#[test]
fn preview_layout() {
    assert_eq!(preview_markdown("t", "b"), "# t\n\nb\n");
}
