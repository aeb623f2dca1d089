use ciri::prompts::{
    commit_user_prompt, pr_user_prompt, split_title_body, strip_fences, truncate_diff,
    COMMIT_SYSTEM, PR_SYSTEM,
};

#[test]
fn truncate_preserves_short_input() {
    let (out, truncated) = truncate_diff("hello", 100);
    assert_eq!(out, "hello");
    assert!(!truncated);
}

#[test]
fn truncate_marks_long_input() {
    let long = "a".repeat(200);
    let (out, truncated) = truncate_diff(&long, 50);
    assert!(truncated);
    assert!(out.ends_with("...[truncated]"));
    assert!(out.starts_with(&"a".repeat(50)));
}

#[test]
fn truncate_respects_char_boundaries() {
    // 4-byte emoji at the cut point must not be sliced in half
    let s = format!("{}🎉ok", "x".repeat(20));
    let (out, _) = truncate_diff(&s, 22);
    // Should not panic; output should be valid UTF-8 by construction
    assert!(out.is_char_boundary(out.find("\n...").unwrap_or(out.len())));
}

#[test]
fn strip_fences_removes_markdown_wrapper() {
    let raw = "```markdown\nhello\n```";
    assert_eq!(strip_fences(raw), "hello");
}

#[test]
fn strip_fences_removes_plain_wrapper() {
    assert_eq!(strip_fences("```\nhi\n```"), "hi");
}

#[test]
fn strip_fences_leaves_clean_text_alone() {
    assert_eq!(strip_fences("feat: add thing"), "feat: add thing");
}

#[test]
fn split_title_body_simple() {
    let (t, b) = split_title_body("add feature\n\n## Summary\n- one");
    assert_eq!(t, "add feature");
    assert_eq!(b, "## Summary\n- one");
}

#[test]
fn split_title_body_strips_hash_prefix() {
    let (t, _) = split_title_body("# add feature\n\nbody");
    assert_eq!(t, "add feature");
}

#[test]
fn split_title_body_empty_body_is_ok() {
    let (t, b) = split_title_body("just a title");
    assert_eq!(t, "just a title");
    assert_eq!(b, "");
}

#[test]
fn commit_system_prompt_requires_gitmoji() {
    // Spec: the commit system prompt tells the model to lead with a gitmoji.
    assert!(COMMIT_SYSTEM.contains("gitmoji"));
    assert!(COMMIT_SYSTEM.contains("✨ feat"));
    assert!(COMMIT_SYSTEM.contains("🐛 fix"));
    assert!(COMMIT_SYSTEM.contains("<emoji> <type>"));
}

#[test]
fn split_title_body_unwraps_fenced_markdown() {
    let (t, b) = split_title_body("```markdown\nfeat: x\n\nbody here\n```");
    assert_eq!(t, "feat: x");
    assert_eq!(b, "body here");
}

// Further cases.

#[test]
fn truncate_cuts_before_a_split_character() {
    let s = format!("{}🎉ok", "x".repeat(20));
    let (out, truncated) = truncate_diff(&s, 22);
    assert!(truncated);
    assert_eq!(out, format!("{}\n...[truncated]", "x".repeat(20)));
}

#[test]
fn truncate_keeps_a_whole_character_that_fits() {
    let s = format!("{}🎉ok", "x".repeat(20));
    let (out, truncated) = truncate_diff(&s, 24);
    assert!(truncated);
    assert_eq!(out, format!("{}🎉\n...[truncated]", "x".repeat(20)));
}

#[test]
fn truncate_at_exact_length_is_untouched() {
    let (out, truncated) = truncate_diff("abcde", 5);
    assert_eq!(out, "abcde");
    assert!(!truncated);
}

#[test]
fn truncate_with_zero_budget_keeps_only_the_marker() {
    let (out, truncated) = truncate_diff("abc", 0);
    assert!(truncated);
    assert_eq!(out, "\n...[truncated]");
}

#[test]
fn strip_fences_removes_md_wrapper_and_surrounding_space() {
    assert_eq!(strip_fences("  ```md\n\n\nfix: y\n```  \n"), "fix: y");
}

#[test]
fn strip_fences_of_empty_text_is_empty() {
    assert_eq!(strip_fences(" \t\n"), "");
}

#[test]
fn strip_fences_unicode_whitespace_is_trimmed() {
    assert_eq!(strip_fences("\u{3000}feat: z\u{a0}"), "feat: z");
}

#[test]
fn split_title_body_of_empty_reply() {
    let (t, b) = split_title_body("");
    assert_eq!(t, "");
    assert_eq!(b, "");
}

#[test]
fn split_title_body_strips_several_hashes() {
    let (t, b) = split_title_body("### title here  \n  body line\n");
    assert_eq!(t, "title here");
    assert_eq!(b, "body line");
}

#[test]
fn commit_user_prompt_layout() {
    assert_eq!(
        commit_user_prompt("M\ta.rs", "+x"),
        "Files changed:\nM\ta.rs\n\nDiff:\n+x\n\nWrite the commit message."
    );
}

#[test]
fn pr_user_prompt_layout() {
    assert_eq!(
        pr_user_prompt("feat/x", "main", "- one", " 1 file", "+y"),
        "Branch: feat/x -> main\n\nCommits:\n- one\n\nDiff stat:\n 1 file\n\nDiff:\n+y\n\nWrite the PR title and body."
    );
}

#[test]
fn pr_system_prompt_asks_for_summary() {
    assert!(PR_SYSTEM.contains("## Summary"));
}
