//! Character-level text operations over the `Seq<char>` view of strings:
//! whitespace trimming, prefix and suffix stripping, splitting at a character
//! and substring replacement, each with an executable counterpart that works
//! on a window `[lo, hi)` of a character vector.
use vstd::prelude::*;

verus! {

/// Unicode `White_Space` characters, the set that `char::is_whitespace` accepts.
pub open spec fn is_whitespace(c: char) -> bool {
    ||| ('\u{9}' <= c && c <= '\u{d}')
    ||| c == ' '
    ||| c == '\u{85}'
    ||| c == '\u{a0}'
    ||| c == '\u{1680}'
    ||| ('\u{2000}' <= c && c <= '\u{200a}')
    ||| c == '\u{2028}'
    ||| c == '\u{2029}'
    ||| c == '\u{202f}'
    ||| c == '\u{205f}'
    ||| c == '\u{3000}'
}

/// A class of characters that a trimming operation removes.
#[derive(Clone, Copy, Debug, PartialEq, Eq)]
pub enum CharClass {
    /// Any Unicode whitespace character.
    Whitespace,
    /// Exactly the given character.
    Exactly(char),
}

pub open spec fn in_class(cls: CharClass, c: char) -> bool {
    match cls {
        CharClass::Whitespace => is_whitespace(c),
        CharClass::Exactly(d) => c == d,
    }
}

/// `s` without its longest prefix of characters in `cls`.
pub open spec fn trim_start_by(s: Seq<char>, cls: CharClass) -> Seq<char>
    decreases s.len(),
{
    if s.len() > 0 && in_class(cls, s[0]) {
        trim_start_by(s.drop_first(), cls)
    } else {
        s
    }
}

/// `s` without its longest suffix of characters in `cls`.
pub open spec fn trim_end_by(s: Seq<char>, cls: CharClass) -> Seq<char>
    decreases s.len(),
{
    if s.len() > 0 && in_class(cls, s.last()) {
        trim_end_by(s.drop_last(), cls)
    } else {
        s
    }
}

/// `str::trim`: leading and trailing whitespace removed.
pub open spec fn trim(s: Seq<char>) -> Seq<char> {
    trim_end_by(trim_start_by(s, CharClass::Whitespace), CharClass::Whitespace)
}

/// `str::strip_prefix` with a string pattern.
pub open spec fn strip_prefix(s: Seq<char>, p: Seq<char>) -> Option<Seq<char>> {
    if p.is_prefix_of(s) {
        Some(s.skip(p.len() as int))
    } else {
        None
    }
}

/// `str::strip_suffix` with a string pattern.
pub open spec fn strip_suffix(s: Seq<char>, p: Seq<char>) -> Option<Seq<char>> {
    if p.is_suffix_of(s) {
        Some(s.take(s.len() - p.len()))
    } else {
        None
    }
}

/// `s.splitn(2, c)`: the part before the first `c`, and the part after it if
/// `c` occurs at all.
pub open spec fn split_once(s: Seq<char>, c: char) -> (Seq<char>, Option<Seq<char>>)
    decreases s.len(),
{
    if s.len() == 0 {
        (s, None)
    } else if s[0] == c {
        (Seq::empty(), Some(s.drop_first()))
    } else {
        let (a, b) = split_once(s.drop_first(), c);
        (seq![s[0]] + a, b)
    }
}

/// `str::replace`: every leftmost non-overlapping occurrence of `from` replaced by `to`.
pub open spec fn replace_all(s: Seq<char>, from: Seq<char>, to: Seq<char>) -> Seq<char>
    recommends
        from.len() > 0,
    decreases s.len(),
{
    if from.len() == 0 || s.len() == 0 {
        s
    } else if from.is_prefix_of(s) {
        to + replace_all(s.skip(from.len() as int), from, to)
    } else {
        seq![s[0]] + replace_all(s.drop_first(), from, to)
    }
}

pub fn is_whitespace_char(c: char) -> (b: bool)
    ensures
        b == is_whitespace(c),
{
    ('\u{9}' <= c && c <= '\u{d}') || c == ' ' || c == '\u{85}' || c == '\u{a0}' || c
        == '\u{1680}' || ('\u{2000}' <= c && c <= '\u{200a}') || c == '\u{2028}' || c
        == '\u{2029}' || c == '\u{202f}' || c == '\u{205f}' || c == '\u{3000}'
}

pub fn char_in_class(cls: CharClass, c: char) -> (b: bool)
    ensures
        b == in_class(cls, c),
{
    match cls {
        CharClass::Whitespace => is_whitespace_char(c),
        CharClass::Exactly(d) => c == d,
    }
}

/// The characters of `s`, in order.
pub fn chars_of(s: &str) -> (v: Vec<char>)
    ensures
        v@ == s@,
{
    broadcast use vstd::string::group_string_axioms;

    let mut v: Vec<char> = Vec::new();
    for c in it: s.chars()
        invariant
            v@ == it.seq().take(it.index() as int),
    {
        v.push(c);
    }
    v
}

/// Whether two strings hold the same characters.
pub fn same_text(a: &str, b: &str) -> (r: bool)
    ensures
        r == (a@ == b@),
{
    let x = chars_of(a);
    let y = chars_of(b);
    if x.len() != y.len() {
        return false;
    }
    let mut i: usize = 0;
    while i < x.len()
        invariant
            x@ == a@,
            y@ == b@,
            x@.len() == y@.len(),
            i <= x@.len(),
            forall|t: int| 0 <= t < i ==> x@[t] == y@[t],
        decreases x@.len() - i,
    {
        if x[i] != y[i] {
            assert(x@[i as int] != y@[i as int]);
            return false;
        }
        i = i + 1;
    }
    assert(x@ =~= y@);
    true
}

/// A fresh string holding the characters `lo..hi` of `s`.
pub fn substring(s: &str, lo: usize, hi: usize) -> (r: String)
    requires
        lo <= hi <= s@.len(),
    ensures
        r@ == s@.subrange(lo as int, hi as int),
{
    String::from_str(s.substring_char(lo, hi))
}

/// Start of the window that remains when leading characters of `cls` are removed.
pub fn trim_start_window(v: &Vec<char>, lo: usize, hi: usize, cls: CharClass) -> (a: usize)
    requires
        lo <= hi <= v@.len(),
    ensures
        lo <= a <= hi,
        v@.subrange(a as int, hi as int) == trim_start_by(v@.subrange(lo as int, hi as int), cls),
{
    let mut i = lo;
    while i < hi && char_in_class(cls, v[i])
        invariant
            lo <= i <= hi <= v@.len(),
            trim_start_by(v@.subrange(lo as int, hi as int), cls) == trim_start_by(
                v@.subrange(i as int, hi as int),
                cls,
            ),
        decreases hi - i,
    {
        assert(v@.subrange(i as int, hi as int).drop_first() =~= v@.subrange(
            i + 1,
            hi as int,
        ));
        i = i + 1;
    }
    i
}

/// End of the window that remains when trailing characters of `cls` are removed.
pub fn trim_end_window(v: &Vec<char>, lo: usize, hi: usize, cls: CharClass) -> (b: usize)
    requires
        lo <= hi <= v@.len(),
    ensures
        lo <= b <= hi,
        v@.subrange(lo as int, b as int) == trim_end_by(v@.subrange(lo as int, hi as int), cls),
{
    let mut j = hi;
    while j > lo && char_in_class(cls, v[j - 1])
        invariant
            lo <= j <= hi <= v@.len(),
            trim_end_by(v@.subrange(lo as int, hi as int), cls) == trim_end_by(
                v@.subrange(lo as int, j as int),
                cls,
            ),
        decreases j - lo,
    {
        assert(v@.subrange(lo as int, j as int).drop_last() =~= v@.subrange(
            lo as int,
            j - 1,
        ));
        j = j - 1;
    }
    j
}

/// The window that `trim` leaves of `v[lo..hi]`.
pub fn trim_window(v: &Vec<char>, lo: usize, hi: usize) -> (r: (usize, usize))
    requires
        lo <= hi <= v@.len(),
    ensures
        lo <= r.0 <= r.1 <= hi,
        v@.subrange(r.0 as int, r.1 as int) == trim(v@.subrange(lo as int, hi as int)),
{
    let a = trim_start_window(v, lo, hi, CharClass::Whitespace);
    let b = trim_end_window(v, a, hi, CharClass::Whitespace);
    (a, b)
}

/// Whether `p` is a prefix of the window `v[lo..hi]`.
pub fn window_starts_with(v: &Vec<char>, lo: usize, hi: usize, p: &Vec<char>) -> (b: bool)
    requires
        lo <= hi <= v@.len(),
    ensures
        b == p@.is_prefix_of(v@.subrange(lo as int, hi as int)),
{
    if p.len() > hi - lo {
        return false;
    }
    let mut k: usize = 0;
    while k < p.len()
        invariant
            lo <= hi <= v@.len(),
            p@.len() <= hi - lo,
            k <= p@.len(),
            forall|t: int| 0 <= t < k ==> p@[t] == v@[lo + t],
        decreases p@.len() - k,
    {
        if p[k] != v[lo + k] {
            assert(p@[k as int] != v@.subrange(lo as int, hi as int)[k as int]);
            return false;
        }
        k = k + 1;
    }
    true
}

/// Whether `p` is a suffix of the window `v[lo..hi]`.
pub fn window_ends_with(v: &Vec<char>, lo: usize, hi: usize, p: &Vec<char>) -> (b: bool)
    requires
        lo <= hi <= v@.len(),
    ensures
        b == p@.is_suffix_of(v@.subrange(lo as int, hi as int)),
{
    if p.len() > hi - lo {
        return false;
    }
    let start = hi - p.len();
    let mut k: usize = 0;
    while k < p.len()
        invariant
            lo <= start <= hi <= v@.len(),
            start + p@.len() == hi,
            k <= p@.len(),
            forall|t: int| 0 <= t < k ==> p@[t] == v@[start + t],
        decreases p@.len() - k,
    {
        if p[k] != v[start + k] {
            assert(p@[k as int] != v@.subrange(lo as int, hi as int)[(start - lo) + k]);
            return false;
        }
        k = k + 1;
    }
    true
}

/// `strip_prefix` on the window `v[lo..hi]`: the new start if `p` is a prefix.
pub fn strip_prefix_window(v: &Vec<char>, lo: usize, hi: usize, p: &Vec<char>) -> (r: Option<
    usize,
>)
    requires
        lo <= hi <= v@.len(),
    ensures
        match r {
            Some(a) => lo <= a <= hi && strip_prefix(v@.subrange(lo as int, hi as int), p@)
                == Some(v@.subrange(a as int, hi as int)),
            None => strip_prefix(v@.subrange(lo as int, hi as int), p@) is None,
        },
{
    if window_starts_with(v, lo, hi, p) {
        assert(v@.subrange(lo as int, hi as int).skip(p@.len() as int) =~= v@.subrange(
            lo + p@.len(),
            hi as int,
        ));
        Some(lo + p.len())
    } else {
        None
    }
}

/// `strip_suffix` on the window `v[lo..hi]`: the new end if `p` is a suffix.
pub fn strip_suffix_window(v: &Vec<char>, lo: usize, hi: usize, p: &Vec<char>) -> (r: Option<
    usize,
>)
    requires
        lo <= hi <= v@.len(),
    ensures
        match r {
            Some(b) => lo <= b <= hi && strip_suffix(v@.subrange(lo as int, hi as int), p@)
                == Some(v@.subrange(lo as int, b as int)),
            None => strip_suffix(v@.subrange(lo as int, hi as int), p@) is None,
        },
{
    if window_ends_with(v, lo, hi, p) {
        assert(v@.subrange(lo as int, hi as int).take(hi - lo - p@.len()) =~= v@.subrange(
            lo as int,
            hi - p@.len(),
        ));
        Some(hi - p.len())
    } else {
        None
    }
}

/// Position of the first `c` in the window `v[lo..hi]`, as `split_once` finds it.
pub fn split_once_window(v: &Vec<char>, lo: usize, hi: usize, c: char) -> (r: Option<usize>)
    requires
        lo <= hi <= v@.len(),
    ensures
        match r {
            Some(k) => lo <= k < hi && split_once(v@.subrange(lo as int, hi as int), c) == (
                v@.subrange(lo as int, k as int),
                Some(v@.subrange(k + 1, hi as int)),
            ),
            None => split_once(v@.subrange(lo as int, hi as int), c) == (
                v@.subrange(lo as int, hi as int),
                None::<Seq<char>>,
            ),
        },
{
    let mut i = lo;
    while i < hi
        invariant
            lo <= i <= hi <= v@.len(),
            forall|t: int| lo <= t < i ==> v@[t] != c,
        decreases hi - i,
    {
        if v[i] == c {
            proof {
                lemma_split_once_at(v@, lo as int, i as int, hi as int, c);
            }
            return Some(i);
        }
        i = i + 1;
    }
    proof {
        lemma_split_once_absent(v@, lo as int, hi as int, c);
    }
    None
}

/// `s.replace(from, to)` for a non-empty pattern.
pub fn replace_all_exec(s: &str, from: &str, to: &str) -> (r: String)
    requires
        from@.len() > 0,
    ensures
        r@ == replace_all(s@, from@, to@),
{
    let v = chars_of(s);
    let pat = chars_of(from);
    let n = v.len();
    let mut out = String::new();
    let mut seg: usize = 0;
    let mut i: usize = 0;
    assert(v@.subrange(0, n as int) =~= v@);
    assert(out@ + v@.subrange(0, 0) =~= Seq::<char>::empty());
    while i < n
        invariant
            v@ == s@,
            pat@ == from@,
            pat@.len() > 0,
            n == v@.len(),
            seg <= i <= n,
            replace_all(v@, pat@, to@) == out@ + v@.subrange(seg as int, i as int) + replace_all(
                v@.subrange(i as int, n as int),
                pat@,
                to@,
            ),
        decreases n - i,
    {
        let ghost rest = v@.subrange(i as int, n as int);
        if window_starts_with(&v, i, n, &pat) {
            let piece = substring(s, seg, i);
            out.append(piece.as_str());
            out.append(to);
            assert(rest.skip(pat@.len() as int) =~= v@.subrange(i + pat@.len(), n as int));
            assert(v@.subrange(i + pat@.len(), i + pat@.len()) =~= Seq::<char>::empty());
            i = i + pat.len();
            seg = i;
        } else {
            assert(rest.drop_first() =~= v@.subrange(i + 1, n as int));
            assert(v@.subrange(seg as int, i as int) + seq![v@[i as int]] =~= v@.subrange(
                seg as int,
                i + 1,
            ));
            i = i + 1;
        }
    }
    assert(v@.subrange(n as int, n as int) =~= Seq::<char>::empty());
    assert(v@.subrange(0, n as int) =~= v@);
    let piece = substring(s, seg, n);
    out.append(piece.as_str());
    out
}

/// `trim_start_by` removes a prefix, and what is left does not start with a
/// character of the class.
pub proof fn lemma_trim_start_shape(s: Seq<char>, cls: CharClass)
    ensures
        ({
            let t = trim_start_by(s, cls);
            &&& t.len() <= s.len()
            &&& t == s.skip(s.len() - t.len())
            &&& (t.len() == 0 || !in_class(cls, t[0]))
            &&& forall|i: int| 0 <= i < s.len() - t.len() ==> in_class(cls, #[trigger] s[i])
        }),
    decreases s.len(),
{
    if s.len() > 0 && in_class(cls, s[0]) {
        lemma_trim_start_shape(s.drop_first(), cls);
        let t = trim_start_by(s, cls);
        assert(s.drop_first().skip(s.drop_first().len() - t.len()) =~= s.skip(s.len() - t.len()));
        assert forall|i: int| 0 <= i < s.len() - t.len() implies in_class(cls, #[trigger] s[i]) by {
            if i > 0 {
                assert(s[i] == s.drop_first()[i - 1]);
            }
        }
    } else {
        assert(s.skip(0) =~= s);
    }
}

/// `trim_end_by` removes a suffix, and what is left does not end with a
/// character of the class.
pub proof fn lemma_trim_end_shape(s: Seq<char>, cls: CharClass)
    ensures
        ({
            let t = trim_end_by(s, cls);
            &&& t.len() <= s.len()
            &&& t == s.take(t.len() as int)
            &&& (t.len() == 0 || !in_class(cls, t.last()))
            &&& forall|i: int| t.len() <= i < s.len() ==> in_class(cls, #[trigger] s[i])
        }),
    decreases s.len(),
{
    if s.len() > 0 && in_class(cls, s.last()) {
        lemma_trim_end_shape(s.drop_last(), cls);
        let t = trim_end_by(s, cls);
        assert(s.drop_last().take(t.len() as int) =~= s.take(t.len() as int));
        assert forall|i: int| t.len() <= i < s.len() implies in_class(cls, #[trigger] s[i]) by {
            if i < s.len() - 1 {
                assert(s[i] == s.drop_last()[i]);
            }
        }
    } else {
        assert(s.take(s.len() as int) =~= s);
    }
}

/// What `trim` leaves neither starts nor ends with whitespace.
pub proof fn lemma_trim_shape(s: Seq<char>)
    ensures
        trim(s).len() == 0 || (!is_whitespace(trim(s)[0]) && !is_whitespace(trim(s).last())),
{
    let a = trim_start_by(s, CharClass::Whitespace);
    lemma_trim_start_shape(s, CharClass::Whitespace);
    lemma_trim_end_shape(a, CharClass::Whitespace);
    let t = trim_end_by(a, CharClass::Whitespace);
    if t.len() > 0 {
        assert(t[0] == a[0]);
    }
}

/// Trimming twice is trimming once.
pub proof fn lemma_trim_idempotent(s: Seq<char>)
    ensures
        trim(trim(s)) == trim(s),
{
    lemma_trim_shape(s);
}

/// The part before the first `c` holds no `c`, and the whole is that part,
/// then `c` and the rest when there is a rest.
pub proof fn lemma_split_once_parts(s: Seq<char>, c: char)
    ensures
        !split_once(s, c).0.contains(c),
        match split_once(s, c).1 {
            Some(r) => s == split_once(s, c).0 + seq![c] + r,
            None => s == split_once(s, c).0,
        },
    decreases s.len(),
{
    if s.len() > 0 && s[0] != c {
        lemma_split_once_parts(s.drop_first(), c);
        let (a, r) = split_once(s.drop_first(), c);
        assert forall|i: int| 0 <= i < (seq![s[0]] + a).len() implies (seq![s[0]] + a)[i] != c by {
            if i > 0 {
                assert((seq![s[0]] + a)[i] == a[i - 1]);
            }
        }
        assert(s =~= seq![s[0]] + s.drop_first());
        match r {
            Some(r) => assert(seq![s[0]] + (a + seq![c] + r) =~= seq![s[0]] + a + seq![c] + r),
            None => {},
        }
    } else if s.len() > 0 {
        assert(s =~= Seq::<char>::empty() + seq![c] + s.drop_first());
    }
}

proof fn lemma_split_once_at(v: Seq<char>, lo: int, k: int, hi: int, c: char)
    requires
        0 <= lo <= k < hi <= v.len(),
        v[k] == c,
        forall|t: int| lo <= t < k ==> v[t] != c,
    ensures
        split_once(v.subrange(lo, hi), c) == (v.subrange(lo, k), Some(v.subrange(k + 1, hi))),
    decreases k - lo,
{
    let s = v.subrange(lo, hi);
    if lo == k {
        assert(s.drop_first() =~= v.subrange(k + 1, hi));
        assert(v.subrange(lo, k) =~= Seq::<char>::empty());
    } else {
        lemma_split_once_at(v, lo + 1, k, hi, c);
        assert(s.drop_first() =~= v.subrange(lo + 1, hi));
        assert(seq![v[lo]] + v.subrange(lo + 1, k) =~= v.subrange(lo, k));
    }
}

proof fn lemma_split_once_absent(v: Seq<char>, lo: int, hi: int, c: char)
    requires
        0 <= lo <= hi <= v.len(),
        forall|t: int| lo <= t < hi ==> v[t] != c,
    ensures
        split_once(v.subrange(lo, hi), c) == (v.subrange(lo, hi), None::<Seq<char>>),
    decreases hi - lo,
{
    let s = v.subrange(lo, hi);
    if lo < hi {
        lemma_split_once_absent(v, lo + 1, hi, c);
        assert(s.drop_first() =~= v.subrange(lo + 1, hi));
        assert(seq![v[lo]] + v.subrange(lo + 1, hi) =~= s);
    }
}

} // verus!
