//! Prompt construction and response clean-up for the language model: the
//! system prompts, diff truncation on character boundaries, the user prompts
//! for commits and pull requests, and the parsing of a reply into a message
//! or a title and body.
use vstd::prelude::*;
use vstd::string::StringSliceAdditionalSpecFns;
use vstd::utf8::*;

use crate::text::{
    chars_of, in_class, is_whitespace, lemma_split_once_parts, lemma_trim_end_shape, lemma_trim_idempotent,
    lemma_trim_shape, lemma_trim_start_shape, split_once, split_once_window, strip_prefix, strip_prefix_window, strip_suffix,
    strip_suffix_window, substring, trim, trim_end_by, trim_start_by, trim_start_window, trim_window, CharClass,
};



verus! {

broadcast use vstd::utf8::encode_utf8_valid_utf8, vstd::utf8::encode_utf8_decode_utf8;

pub const COMMIT_SYSTEM: &'static str = "You write Conventional Commit messages prefixed with a gitmoji.\n\
Format: <emoji> <type>(<optional scope>): <subject>\n\n\
Gitmoji → type mapping (pick the single best fit):\n\
- ✨ feat      — new feature\n\
- 🐛 fix       — bug fix\n\
- 📝 docs      — documentation only\n\
- 🎨 style     — formatting / whitespace / no code change\n\
- ♻️  refactor  — code change that neither fixes a bug nor adds a feature\n\
- ⚡️  perf      — performance improvement\n\
- ✅ test      — adding or fixing tests\n\
- 👷 build     — build system / dependencies\n\
- 💚 ci        — CI configuration\n\
- 🔧 chore     — tooling / maintenance\n\
- ⏪️  revert    — revert a previous commit\n\
- 🔥 (remove)  — removing code/files (use with refactor/chore)\n\
- 🔒 (security)— security fix (use with fix)\n\n\
Rules:\n\
- Start with exactly one gitmoji emoji, then a single space, then the conventional commit.\n\
- Subject: imperative mood, lowercase, no trailing period, <= 72 chars (including emoji).\n\
- Optionally add a blank line then a short body explaining the \"why\" (wrap at 72).\n\
- Output ONLY the commit message. No markdown, no code fences, no commentary.\n\n\
Examples:\n\
✨ feat(pr): detect and update existing PRs\n\
🐛 fix(commit): handle empty diff without panicking\n\
✅ test: cover dry-run and no-add flag paths";

pub const PR_SYSTEM: &'static str = "You write concise, helpful GitHub pull request descriptions.\n\
Output format (markdown):\n  \
<short imperative title on a single line, <= 72 chars, no trailing period>\n  \
<blank line>\n  \
## Summary\n  \
- bullet points of what changed and why\n  \
## Changes\n  \
- key file/area level changes\n  \
## Notes\n  \
- optional: testing, risks, follow-ups (omit section if nothing to say)\n\n\
Rules:\n\
- Title first line only. No \"#\", no quotes, no prefix like \"PR:\".\n\
- Then blank line, then body in markdown.\n\
- No code fences around the whole thing. No commentary.";

/// The marker appended to a diff that was cut short.
pub open spec fn truncation_marker() -> Seq<char> {
    "\n...[truncated]"@
}

/// The largest character boundary of `bytes` that is at most `i`.
pub open spec fn floor_char_boundary(bytes: Seq<u8>, i: int) -> int
    decreases i,
{
    if i <= 0 {
        0
    } else if is_char_boundary(bytes, i) {
        i
    } else {
        floor_char_boundary(bytes, i - 1)
    }
}

/// What `truncate_diff` returns for a diff with characters `s` and a byte budget `max`:
/// the text as it is when its UTF-8 encoding fits, else the longest prefix
/// that ends on a character boundary within `max` bytes, followed by the marker.
pub open spec fn truncated_diff(s: Seq<char>, max: int) -> (Seq<char>, bool) {
    let bytes = encode_utf8(s);
    if bytes.len() > max {
        (decode_utf8(bytes.subrange(0, floor_char_boundary(bytes, max))) + truncation_marker(), true)
    } else {
        (s, false)
    }
}

proof fn lemma_floor_char_boundary(bytes: Seq<u8>, i: int)
    requires
        valid_utf8(bytes),
        0 <= i <= bytes.len(),
    ensures
        0 <= floor_char_boundary(bytes, i) <= i,
        is_char_boundary(bytes, floor_char_boundary(bytes, i)),
        forall|j: int|
            floor_char_boundary(bytes, i) < j <= i ==> !is_char_boundary(bytes, j),
    decreases i,
{
    if i > 0 && !is_char_boundary(bytes, i) {
        lemma_floor_char_boundary(bytes, i - 1);
    }
}

/// The encoding of a prefix of `c` ends on a character boundary of the
/// encoding of `c`, and a longer prefix has a longer encoding.
proof fn lemma_prefix_encoding(c: Seq<char>, j: int)
    requires
        0 <= j <= c.len(),
    ensures
        encode_utf8(c.take(j)).len() <= encode_utf8(c).len(),
        is_char_boundary(encode_utf8(c), encode_utf8(c.take(j)).len() as int),
        j < c.len() ==> encode_utf8(c.take(j)).len() < encode_utf8(c.take(j + 1)).len(),
    decreases c.len(),
{
    let bytes = encode_utf8(c);
    if c.len() == 0 {
        assert(c.take(j) =~= c);
    } else {
        encode_utf8_first_scalar(c);
        assert(pop_first_scalar(bytes) =~= encode_utf8(c.drop_first()));
        let w = encode_scalar(c[0] as u32).len();
        assert(w >= 1);
        if j == 0 {
            assert(c.take(0) =~= Seq::<char>::empty());
            assert(c.take(1).drop_first() =~= Seq::<char>::empty());
        } else {
            lemma_prefix_encoding(c.drop_first(), j - 1);
            assert(c.take(j).drop_first() =~= c.drop_first().take(j - 1));
            assert(encode_utf8(c.take(j)).len() == w + encode_utf8(c.drop_first().take(j - 1)).len());
            if j < c.len() {
                assert(c.take(j + 1).drop_first() =~= c.drop_first().take(j));
            }
        }
    }
}

/// A diff that fits is passed on as it is; one that does not is cut to the
/// longest prefix of whole characters whose UTF-8 encoding fits in `max`
/// bytes, followed by the marker.
pub proof fn lemma_truncation_keeps_whole_characters(s: Seq<char>, max: int)
    requires
        0 <= max,
    ensures
        encode_utf8(s).len() <= max ==> truncated_diff(s, max) == (s, false),
        encode_utf8(s).len() > max ==> exists|k: int|
            #![trigger s.take(k)]
            0 <= k <= s.len() && encode_utf8(s.take(k)).len() <= max && (k < s.len()
                ==> encode_utf8(s.take(k + 1)).len() > max) && truncated_diff(s, max) == (
                s.take(k) + truncation_marker(),
                true,
            ),
{
    let bytes = encode_utf8(s);
    if bytes.len() > max {
        lemma_floor_char_boundary(bytes, max);
        let cut = floor_char_boundary(bytes, max);
        let head = bytes.subrange(0, cut);
        let tail = bytes.subrange(cut, bytes.len() as int);
        decode_utf8_split(bytes, cut);
        valid_utf8_split(bytes, cut);
        decode_utf8_encode_utf8(head);
        let p = decode_utf8(head);
        let q = decode_utf8(tail);
        assert(s == p + q);
        let k = p.len() as int;
        assert(s.take(k) =~= p);
        assert(encode_utf8(s.take(k)) == head);
        if k < s.len() {
            lemma_prefix_encoding(s, k);
            lemma_prefix_encoding(s, k + 1);
        }
    }
}

/// Truncate a diff with a visible marker. Returns (text, truncated?).
pub fn truncate_diff(diff: &str, max: usize) -> (r: (String, bool))
    ensures
        (r.0@, r.1) == truncated_diff(diff@, max as int),
{
    let nbytes = diff.as_bytes().len();
    if nbytes > max {
        let ghost bytes = diff.spec_bytes();
        let mut cut = max;
        while !diff.is_char_boundary(cut) && cut > 0
            invariant
                bytes == diff.spec_bytes(),
                cut <= max < bytes.len(),
                floor_char_boundary(bytes, max as int) == floor_char_boundary(bytes, cut as int),
            decreases cut,
        {
            cut -= 1;
        }
        let (head, _tail) = diff.split_at(cut);
        proof {
            assert(head@ == decode_utf8(head.spec_bytes()));
        }
        let mut out = String::from_str(head);
        out.append("\n...[truncated]");
        (out, true)
    } else {
        (String::from_str(diff), false)
    }
}

/// What `commit_user_prompt` builds from the staged file list and the diff.
pub open spec fn commit_prompt(status: Seq<char>, diff: Seq<char>) -> Seq<char> {
    "Files changed:\n"@ + status + "\n\nDiff:\n"@ + diff + "\n\nWrite the commit message."@
}

pub fn commit_user_prompt(status: &str, diff: &str) -> (r: String)
    ensures
        r@ == commit_prompt(status@, diff@),
{
    let mut out = String::from_str("Files changed:\n");
    out.append(status);
    out.append("\n\nDiff:\n");
    out.append(diff);
    out.append("\n\nWrite the commit message.");
    out
}

/// What `pr_user_prompt` builds from the branch names, the commit summaries,
/// the diff statistics and the diff.
pub open spec fn pr_prompt(
    branch: Seq<char>,
    base: Seq<char>,
    commits: Seq<char>,
    diff_stat: Seq<char>,
    diff: Seq<char>,
) -> Seq<char> {
    "Branch: "@ + branch + " -> "@ + base + "\n\nCommits:\n"@ + commits + "\n\nDiff stat:\n"@
        + diff_stat + "\n\nDiff:\n"@ + diff + "\n\nWrite the PR title and body."@
}

pub fn pr_user_prompt(branch: &str, base: &str, commits: &str, diff_stat: &str, diff: &str) -> (r:
    String)
    ensures
        r@ == pr_prompt(branch@, base@, commits@, diff_stat@, diff@),
{
    let mut out = String::from_str("Branch: ");
    out.append(branch);
    out.append(" -> ");
    out.append(base);
    out.append("\n\nCommits:\n");
    out.append(commits);
    out.append("\n\nDiff stat:\n");
    out.append(diff_stat);
    out.append("\n\nDiff:\n");
    out.append(diff);
    out.append("\n\nWrite the PR title and body.");
    out
}

/// An opening fence removed: "```markdown", else "```md", else "```".
pub open spec fn without_opening_fence(t: Seq<char>) -> Seq<char> {
    match strip_prefix(t, "```markdown"@) {
        Some(r) => r,
        None => match strip_prefix(t, "```md"@) {
            Some(r) => r,
            None => match strip_prefix(t, "```"@) {
                Some(r) => r,
                None => t,
            },
        },
    }
}

/// What `strip_fences` returns: the text trimmed, one opening fence and the
/// newlines after it removed, one closing fence removed, and trimmed again.
pub open spec fn fences_stripped(s: Seq<char>) -> Seq<char> {
    let t = without_opening_fence(trim(s));
    let t = trim_start_by(t, CharClass::Exactly('\n'));
    let t = match strip_suffix(t, "```"@) {
        Some(r) => r,
        None => t,
    };
    trim(t)
}

/// The window of `v` that `fences_stripped` leaves.
fn strip_fences_window(v: &Vec<char>) -> (r: (usize, usize))
    ensures
        r.0 <= r.1 <= v@.len(),
        v@.subrange(r.0 as int, r.1 as int) == fences_stripped(v@),
{
    let n = v.len();
    assert(v@.subrange(0, n as int) =~= v@);
    let (lo, hi) = trim_window(v, 0, n);
    let md_long = chars_of("```markdown");
    let md_short = chars_of("```md");
    let fence = chars_of("```");
    let lo = match strip_prefix_window(v, lo, hi, &md_long) {
        Some(a) => a,
        None => match strip_prefix_window(v, lo, hi, &md_short) {
            Some(a) => a,
            None => match strip_prefix_window(v, lo, hi, &fence) {
                Some(a) => a,
                None => lo,
            },
        },
    };
    let lo = trim_start_window(v, lo, hi, CharClass::Exactly('\n'));
    let hi = match strip_suffix_window(v, lo, hi, &fence) {
        Some(b) => b,
        None => hi,
    };
    trim_window(v, lo, hi)
}

/// Text that is not wrapped in fences is only trimmed.
pub proof fn lemma_unfenced_text_is_only_trimmed(s: Seq<char>)
    requires
        !"```"@.is_prefix_of(trim(s)),
        !"```"@.is_suffix_of(trim(s)),
    ensures
        fences_stripped(s) == trim(s),
{
    let t = trim(s);
    reveal_strlit("```");
    reveal_strlit("```md");
    reveal_strlit("```markdown");
    if "```markdown"@.is_prefix_of(t) {
        assert(t[0] == '`' && t[1] == '`' && t[2] == '`');
        assert("```"@.is_prefix_of(t));
    }
    if "```md"@.is_prefix_of(t) {
        assert(t[0] == '`' && t[1] == '`' && t[2] == '`');
        assert("```"@.is_prefix_of(t));
    }
    assert(without_opening_fence(t) == t);
    lemma_trim_shape(s);
    assert(trim_start_by(t, CharClass::Exactly('\n')) == t);
    lemma_trim_idempotent(s);
}

/// A reply wrapped in a fence (opened by "```markdown", "```md" or "```" on
/// a line of its own and closed by "```" on the last line) is unwrapped: what
/// is left is exactly the text inside, when that text is trimmed and not empty.
pub proof fn lemma_fenced_reply_is_unwrapped(fence: Seq<char>, x: Seq<char>)
    requires
        fence == "```markdown"@ || fence == "```md"@ || fence == "```"@,
        trim(x) == x,
        x.len() > 0,
    ensures
        fences_stripped(fence + "\n"@ + x + "\n```"@) == x,
{
    reveal_strlit("```markdown");
    reveal_strlit("```md");
    reveal_strlit("```");
    reveal_strlit("\n");
    reveal_strlit("\n```");
    let ws = CharClass::Whitespace;
    let s = fence + "\n"@ + x + "\n```"@;
    lemma_trim_shape(x);
    assert(!is_whitespace(x[0]) && !is_whitespace(x.last()));
    // the whole reply starts and ends with a backquote, so trimming keeps it
    assert(s[0] == '`');
    assert(s.last() == '`');
    assert(trim_start_by(s, ws) == s);
    assert(trim_end_by(s, ws) == s);
    assert(trim(s) == s);
    // the opening fence and nothing else is removed
    let u = "\n"@ + x + "\n```"@;
    if fence == "```markdown"@ {
        assert("```markdown"@.is_prefix_of(s)) by {
            assert forall|i: int| 0 <= i < 11 implies "```markdown"@[i] == s[i] by {
                assert(s[i] == fence[i]);
            }
        }
        assert(s.skip(11) =~= u);
    } else if fence == "```md"@ {
        assert(s[5] == '\n');
        assert(!"```markdown"@.is_prefix_of(s)) by {
            assert("```markdown"@[5] == 'r');
        }
        assert("```md"@.is_prefix_of(s)) by {
            assert forall|i: int| 0 <= i < 5 implies "```md"@[i] == s[i] by {
                assert(s[i] == fence[i]);
            }
        }
        assert(s.skip(5) =~= u);
    } else {
        assert(s[3] == '\n');
        assert(!"```markdown"@.is_prefix_of(s)) by {
            assert("```markdown"@[3] == 'm');
        }
        assert(!"```md"@.is_prefix_of(s)) by {
            assert("```md"@[3] == 'm');
        }
        assert("```"@.is_prefix_of(s)) by {
            assert forall|i: int| 0 <= i < 3 implies "```"@[i] == s[i] by {
                assert(s[i] == fence[i]);
            }
        }
        assert(s.skip(3) =~= u);
    }
    assert(without_opening_fence(trim(s)) == u);
    // the newline after the fence goes, the text then starts with `x`
    let w = x + "\n```"@;
    assert(u.drop_first() =~= w);
    assert(w[0] == x[0]);
    assert(trim_start_by(w, CharClass::Exactly('\n')) == w);
    assert(trim_start_by(u, CharClass::Exactly('\n')) == w);
    // the closing fence goes, and the last newline with the final trim
    let y = x + "\n"@;
    assert("```"@.is_suffix_of(w)) by {
        assert forall|i: int| 0 <= i < 3 implies "```"@[i] == w[w.len() - 3 + i] by {}
    }
    assert(w.take(w.len() - 3) =~= y);
    assert(strip_suffix(w, "```"@) == Some(y));
    assert(y[0] == x[0]);
    assert(trim_start_by(y, ws) == y);
    assert(y.drop_last() =~= x);
    assert(trim_end_by(x, ws) == x);
    assert(trim_end_by(y, ws) == x);
}

/// Strip leading/trailing markdown code fences if the model wrapped its answer.
pub fn strip_fences(s: &str) -> (r: String)
    ensures
        r@ == fences_stripped(s@),
{
    let v = chars_of(s);
    let (lo, hi) = strip_fences_window(&v);
    substring(s, lo, hi)
}

/// The title that `split_title_body` finds: the first line of the cleaned
/// reply, trimmed, with leading `#` markers removed, trimmed again.
pub open spec fn title_of(raw: Seq<char>) -> Seq<char> {
    let first = split_once(fences_stripped(raw), '\n').0;
    trim(trim_start_by(trim(first), CharClass::Exactly('#')))
}

/// The body that `split_title_body` finds: everything after the first line
/// of the cleaned reply, trimmed; empty when the reply has a single line.
pub open spec fn body_of(raw: Seq<char>) -> Seq<char> {
    match split_once(fences_stripped(raw), '\n').1 {
        Some(rest) => trim(rest),
        None => Seq::empty(),
    }
}

/// The title is taken from the first line of the cleaned reply, which is not
/// empty unless the whole reply is blank; title and body are trimmed and the
/// title holds no line break.
pub proof fn lemma_title_is_one_trimmed_line(raw: Seq<char>)
    ensures
        fences_stripped(raw).len() > 0 ==> split_once(fences_stripped(raw), '\n').0.len() > 0,
        !title_of(raw).contains('\n'),
        trim(title_of(raw)) == title_of(raw),
        trim(body_of(raw)) == body_of(raw),
{
    let cleaned = fences_stripped(raw);
    let first = split_once(cleaned, '\n').0;
    lemma_split_once_parts(cleaned, '\n');
    let t1 = trim_start_by(without_opening_fence(trim(raw)), CharClass::Exactly('\n'));
    let t2 = match strip_suffix(t1, "```"@) {
        Some(r) => r,
        None => t1,
    };
    lemma_trim_shape(t2);
    if cleaned.len() > 0 {
        assert(cleaned[0] != '\n');
        if first.len() == 0 {
            match split_once(cleaned, '\n').1 {
                Some(r) => assert(cleaned[0] == (first + seq!['\n'] + r)[0]),
                None => {},
            }
        }
    }
    // every step from `first` to the title keeps a part of `first`
    let a = trim_start_by(first, CharClass::Whitespace);
    lemma_trim_start_shape(first, CharClass::Whitespace);
    let b = trim_end_by(a, CharClass::Whitespace);
    lemma_trim_end_shape(a, CharClass::Whitespace);
    let c = trim_start_by(b, CharClass::Exactly('#'));
    lemma_trim_start_shape(b, CharClass::Exactly('#'));
    let d = trim_start_by(c, CharClass::Whitespace);
    lemma_trim_start_shape(c, CharClass::Whitespace);
    let e = trim_end_by(d, CharClass::Whitespace);
    lemma_trim_end_shape(d, CharClass::Whitespace);
    assert(!a.contains('\n')) by {
        assert forall|i: int| 0 <= i < a.len() implies a[i] != '\n' by {
            assert(a[i] == first[i + first.len() - a.len()]);
        }
    }
    assert(!b.contains('\n')) by {
        assert forall|i: int| 0 <= i < b.len() implies b[i] != '\n' by {
            assert(b[i] == a[i]);
        }
    }
    assert(!c.contains('\n')) by {
        assert forall|i: int| 0 <= i < c.len() implies c[i] != '\n' by {
            assert(c[i] == b[i + b.len() - c.len()]);
        }
    }
    assert(!d.contains('\n')) by {
        assert forall|i: int| 0 <= i < d.len() implies d[i] != '\n' by {
            assert(d[i] == c[i + c.len() - d.len()]);
        }
    }
    assert(!e.contains('\n')) by {
        assert forall|i: int| 0 <= i < e.len() implies e[i] != '\n' by {
            assert(e[i] == d[i]);
        }
    }
    lemma_trim_idempotent(c);
    match split_once(cleaned, '\n').1 {
        Some(r) => lemma_trim_idempotent(r),
        None => {
            lemma_trim_idempotent(Seq::<char>::empty());
            assert(trim(Seq::<char>::empty()) =~= Seq::<char>::empty());
        },
    }
}

/// The title is the first line `c[0..k]` of the cleaned reply `c` with its
/// surrounding whitespace and its leading run of `#` markers removed, and
/// nothing else: the line is leading whitespace `c[0..m]`, the run of `#`
/// `c[m..n]`, whitespace `c[n..i]`, the title `c[i..j]`, trailing whitespace
/// `c[j..k]`; each run is as long as it can be, and the title neither starts
/// nor ends with whitespace. The body is the rest after the line
/// break, trimmed; empty when there is no line break.
pub open spec fn title_span(raw: Seq<char>, m: int, n: int, i: int, j: int, k: int) -> bool {
    let c = fences_stripped(raw);
    &&& 0 <= m <= n <= i <= j <= k <= c.len()
    &&& (forall|t: int| 0 <= t < m ==> is_whitespace(#[trigger] c[t]))
    &&& (m < k ==> !is_whitespace(c[m]))
    &&& (forall|t: int| m <= t < n ==> #[trigger] c[t] == '#')
    &&& (n < k ==> c[n] != '#')
    &&& (forall|t: int| n <= t < i ==> is_whitespace(#[trigger] c[t]))
    &&& (k == c.len() || c[k] == '\n')
    &&& (forall|t: int| 0 <= t < k ==> #[trigger] c[t] != '\n')
    &&& title_of(raw) == c.subrange(i, j)
    &&& (forall|t: int| j <= t < k ==> is_whitespace(#[trigger] c[t]))
    &&& (i < j ==> !is_whitespace(c[i]) && !is_whitespace(c[j - 1]))
    &&& body_of(raw) == (if k < c.len() {
        trim(c.subrange(k + 1, c.len() as int))
    } else {
        Seq::<char>::empty()
    })
}

/// The title and body are as `title_span` describes, for some line end `k`.
#[verifier::spinoff_prover]
#[verifier::rlimit(40)]
pub proof fn lemma_title_is_a_piece_of_the_first_line(raw: Seq<char>)
    ensures
        exists|m: int, n: int, i: int, j: int, k: int| #[trigger] title_span(raw, m, n, i, j, k),
{
    let c = fences_stripped(raw);
    lemma_split_once_parts(c, '\n');
    let first = split_once(c, '\n').0;
    let k = first.len() as int;
    let ws = CharClass::Whitespace;
    let a = trim_start_by(first, ws);
    lemma_trim_start_shape(first, ws);
    let b = trim_end_by(a, ws);
    lemma_trim_end_shape(a, ws);
    let h = trim_start_by(b, CharClass::Exactly('#'));
    lemma_trim_start_shape(b, CharClass::Exactly('#'));
    let d = trim_start_by(h, ws);
    lemma_trim_start_shape(h, ws);
    let e = trim_end_by(d, ws);
    lemma_trim_end_shape(d, ws);
    let o1 = first.len() - a.len();
    let o2 = b.len() - h.len();
    let o3 = h.len() - d.len();
    let i = o1 + o2 + o3;
    let j = i + e.len();
    match split_once(c, '\n').1 {
        Some(r) => {
            assert(c.subrange(0, k) =~= first);
            assert(c[k] == '\n');
            assert(c.subrange(k + 1, c.len() as int) =~= r);
        },
        None => {
            assert(c.subrange(0, k) =~= first);
        },
    }
    assert forall|t: int| 0 <= t < k implies #[trigger] c[t] != '\n' by {
        assert(c[t] == first[t]);
    }
    assert(title_of(raw) == e);
    assert(e =~= c.subrange(i, j)) by {
        assert forall|t: int| 0 <= t < e.len() implies e[t] == c[i + t] by {
            assert(e[t] == d[t]);
            assert(d[t] == h[t + o3]);
            assert(h[t + o3] == b[t + o3 + o2]);
            assert(b[t + o3 + o2] == a[t + o3 + o2]);
            assert(a[t + o3 + o2] == first[t + o3 + o2 + o1]);
            assert(first[i + t] == c[i + t]);
        }
    }
    let m = o1;
    let n = o1 + o2;
    assert forall|t: int| 0 <= t < m implies is_whitespace(#[trigger] c[t]) by {
        assert(c[t] == first[t]);
        assert(in_class(ws, first[t]));
    }
    if m < k {
        assert(c[m] == first[m]);
        assert(first[m] == a[0]);
    }
    assert forall|t: int| m <= t < n implies #[trigger] c[t] == '#' by {
        assert(c[t] == first[t]);
        assert(first[t] == a[t - o1]);
        assert(a[t - o1] == b[t - o1]);
        assert(in_class(CharClass::Exactly('#'), b[t - o1]));
    }
    if n < k {
        assert(c[n] == first[n]);
        assert(first[n] == a[n - o1]);
        if n - o1 < b.len() {
            assert(a[n - o1] == b[n - o1]);
            assert(b[n - o1] == h[0]);
        } else {
            assert(in_class(ws, a[n - o1]));
        }
    }
    assert forall|t: int| n <= t < i implies is_whitespace(#[trigger] c[t]) by {
        assert(c[t] == first[t]);
        assert(first[t] == a[t - o1]);
        assert(a[t - o1] == b[t - o1]);
        assert(b[t - o1] == h[t - o1 - o2]);
        assert(in_class(ws, h[t - o1 - o2]));
    }
    assert forall|t: int| j <= t < k implies is_whitespace(#[trigger] c[t]) by {
        assert(c[t] == first[t]);
        assert(first[t] == a[t - o1]);
        if t - o1 < b.len() {
            assert(a[t - o1] == b[t - o1]);
            assert(b[t - o1] == h[t - o1 - o2]);
            assert(h[t - o1 - o2] == d[t - i]);
            assert(in_class(ws, d[t - i]));
        } else {
            assert(in_class(ws, a[t - o1]));
        }
    }
    if i < j {
        assert(e[0] == d[0]);
        assert(c[i] == e[0]);
        assert(c[j - 1] == e[e.len() - 1]);
    }
    assert(0 <= i <= j <= k <= c.len());
    assert(title_span(raw, m, n, i, j, k));
}

/// Split a model response into (title, body). Title is the first non-empty line
/// with leading `#` markers stripped. Body is everything after, trimmed.
pub fn split_title_body(raw: &str) -> (r: (String, String))
    ensures
        r.0@ == title_of(raw@),
        r.1@ == body_of(raw@),
{
    let cleaned = strip_fences(raw);
    let c = cleaned.as_str();
    let v = chars_of(c);
    let n = v.len();
    assert(v@.subrange(0, n as int) =~= v@);
    let first_end = match split_once_window(&v, 0, n, '\n') {
        Some(k) => k,
        None => n,
    };
    let (a, b) = trim_window(&v, 0, first_end);
    let a = trim_start_window(&v, a, b, CharClass::Exactly('#'));
    let (a, b) = trim_window(&v, a, b);
    let title = substring(c, a, b);
    let body = match split_once_window(&v, 0, n, '\n') {
        Some(k) => {
            let (p, q) = trim_window(&v, k + 1, n);
            substring(c, p, q)
        },
        None => String::new(),
    };
    (title, body)
}

} // verus!
