//! The Ollama chat endpoint: its URL, and the decoder for its streamed reply,
//! which arrives as newline-delimited JSON objects split across network chunks.
use vstd::prelude::*;

use crate::text::{chars_of, substring, trim_end_by, trim_end_window, CharClass};

verus! {

/// One chat message in an Ollama request.
pub struct ChatMessage<'a> {
    pub role: &'a str,
    pub content: &'a str,
}

/// `host` without trailing slashes.
pub open spec fn host_base(host: Seq<char>) -> Seq<char> {
    trim_end_by(host, CharClass::Exactly('/'))
}

/// `host.trim_end_matches('/')` as a fresh string.
pub fn base_of(host: &str) -> (r: String)
    ensures
        r@ == host_base(host@),
{
    let v = chars_of(host);
    let n = v.len();
    assert(v@.subrange(0, n as int) =~= v@);
    let b = trim_end_window(&v, 0, n, CharClass::Exactly('/'));
    substring(host, 0, b)
}

/// The chat endpoint of an Ollama server at `host`.
pub fn chat_url(host: &str) -> (r: String)
    ensures
        r@ == host_base(host@) + "/api/chat"@,
{
    let mut url = base_of(host);
    url.append("/api/chat");
    url
}

/// The newline byte that ends each JSON object of the stream.
pub open spec fn newline() -> u8 {
    10u8
}

/// The bytes before the first newline, and those after it if there is one.
pub open spec fn split_at_newline(b: Seq<u8>) -> (Seq<u8>, Option<Seq<u8>>)
    decreases b.len(),
{
    if b.len() == 0 {
        (b, None)
    } else if b[0] == newline() {
        (Seq::empty(), Some(b.drop_first()))
    } else {
        let (l, r) = split_at_newline(b.drop_first());
        (seq![b[0]] + l, r)
    }
}

/// The next non-empty complete line of the buffer `b`, and what stays buffered:
/// empty lines are dropped, a line without its newline waits for more bytes.
pub open spec fn next_nonempty_line(b: Seq<u8>) -> (Option<Seq<u8>>, Seq<u8>)
    decreases b.len(),
{
    match split_at_newline(b).1 {
        None => (None, b),
        Some(rest) => {
            let line = split_at_newline(b).0;
            if line.len() == 0 {
                next_nonempty_line(rest)
            } else {
                (Some(line), rest)
            }
        },
    }
}

/// One decoded object of the stream: the piece of the reply it carries, and
/// whether it is the last one.
pub struct ChunkEvent {
    pub content: Option<String>,
    pub done: bool,
}

/// What the caller does with one decoded object: fire the first-token hook,
/// write and keep a piece of text, stop reading.
pub struct Emit {
    pub first_token: bool,
    pub text: Option<String>,
    pub done: bool,
}

/// The state of a streamed reply: the bytes not yet framed into a line, the
/// reply text so far, and whether the first piece of text has been seen.
pub struct StreamDecoder {
    buf: Vec<u8>,
    out: String,
    started: bool,
}

/// The abstract state of a `StreamDecoder`.
pub struct DecoderState {
    pub buffered: Seq<u8>,
    pub output: Seq<char>,
    pub started: bool,
}

impl View for StreamDecoder {
    type V = DecoderState;

    closed spec fn view(&self) -> DecoderState {
        DecoderState { buffered: self.buf@, output: self.out@, started: self.started }
    }
}

/// Whether a decoded object carries text to emit: a piece that is not empty.
pub open spec fn emits_text(ev_content: Option<String>) -> bool {
    match ev_content {
        Some(c) => c@.len() > 0,
        None => false,
    }
}

impl StreamDecoder {
    /// The decoder's own consistency: text has been seen exactly when the
    /// reply so far is not empty.
    pub open spec fn wf(&self) -> bool {
        self@.started == (self@.output.len() > 0)
    }

    pub fn new() -> (d: Self)
        ensures
            d.wf(),
            d@.buffered == Seq::<u8>::empty(),
            d@.output == Seq::<char>::empty(),
            !d@.started,
    {
        StreamDecoder { buf: Vec::new(), out: String::new(), started: false }
    }

    /// Append a network chunk to the buffer.
    pub fn feed(&mut self, bytes: &[u8])
        requires
            old(self).wf(),
        ensures
            final(self).wf(),
            final(self)@.buffered == old(self)@.buffered + bytes@,
            final(self)@.output == old(self)@.output,
            final(self)@.started == old(self)@.started,
    {
        let mut i: usize = 0;
        let ghost start = self.buf@;
        let ghost before = self@;
        while i < bytes.len()
            invariant
                i <= bytes@.len(),
                self@.output == before.output,
                self@.started == before.started,
                self.buf@ == start + bytes@.subrange(0, i as int),
            decreases bytes@.len() - i,
        {
            self.buf.push(bytes[i]);
            i = i + 1;
        }
        assert(bytes@.subrange(0, bytes@.len() as int) =~= bytes@);
    }

    /// Take the next non-empty complete line out of the buffer, without its newline.
    pub fn next_line(&mut self) -> (line: Option<Vec<u8>>)
        requires
            old(self).wf(),
        ensures
            final(self).wf(),
            (match line {
                Some(l) => Some(l@),
                None => None,
            }, final(self)@.buffered) == next_nonempty_line(old(self)@.buffered),
            final(self)@.output == old(self)@.output,
            final(self)@.started == old(self)@.started,
        decreases old(self)@.buffered.len(),
    {
        let n = self.buf.len();
        let mut k: usize = 0;
        while k < n && self.buf[k] != 10u8
            invariant
                n == self.buf@.len(),
                k <= n,
                forall|t: int| 0 <= t < k ==> self.buf@[t] != newline(),
            decreases n - k,
        {
            k = k + 1;
        }
        proof {
            lemma_split_at_newline(self.buf@, k as int);
        }
        if k == n {
            return None;
        }
        let mut rest = self.buf.split_off(k + 1);
        std::mem::swap(&mut self.buf, &mut rest);
        let mut line = rest;
        line.pop();
        if k == 0 {
            self.next_line()
        } else {
            Some(line)
        }
    }

    /// Act on one decoded object; `None` stands for a line that did not decode.
    /// Every piece of text that is not empty, whitespace included, is written
    /// and kept unchanged; the first-token hook fires before the first one only.
    pub fn apply(&mut self, ev: Option<ChunkEvent>) -> (e: Emit)
        requires
            old(self).wf(),
        ensures
            final(self).wf(),
            match ev {
                Some(x) => match x.content {
                    Some(c) => if c@.len() > 0 {
                        &&& e.text matches Some(t) && t@ == c@
                        &&& final(self)@.output == old(self)@.output + c@
                        &&& final(self)@.started
                        &&& e.first_token == (old(self)@.output.len() == 0)
                    } else {
                        &&& e.text is None
                        &&& !e.first_token
                        &&& final(self)@.output == old(self)@.output
                    },
                    None => e.text is None && !e.first_token && final(self)@.output == old(
                        self,
                    )@.output,
                },
                None => e.text is None && !e.first_token && final(self)@.output == old(
                    self,
                )@.output,
            },
            final(self)@.buffered == old(self)@.buffered,
            match ev {
                None => !e.first_token && e.text is None && !e.done && final(self)@
                    == old(self)@,
                Some(ev) => {
                    &&& e.done == ev.done
                    &&& if emits_text(ev.content) {
                        &&& e.first_token == !old(self)@.started
                        &&& e.text is Some && e.text->0@ == ev.content->0@
                        &&& final(self)@.output == old(self)@.output + ev.content->0@
                        &&& final(self)@.started
                    } else {
                        &&& !e.first_token
                        &&& e.text is None
                        &&& final(self)@ == old(self)@
                    }
                },
            },
    {
        match ev {
            None => Emit { first_token: false, text: None, done: false },
            Some(ev) => {
                let done = ev.done;
                match ev.content {
                    Some(c) => {
                        if c.as_str().unicode_len() > 0 {
                            let first = !self.started;
                            self.out.append(c.as_str());
                            self.started = true;
                            Emit { first_token: first, text: Some(c), done }
                        } else {
                            Emit { first_token: false, text: None, done }
                        }
                    },
                    None => Emit { first_token: false, text: None, done },
                }
            },
        }
    }

    /// The reply text accumulated so far.
    pub fn output(&self) -> (s: String)
        ensures
            s@ == self@.output,
    {
        self.out.clone()
    }
}

/// `k` newline bytes.
pub open spec fn newlines(k: nat) -> Seq<u8> {
    Seq::new(k, |i: int| newline())
}

proof fn lemma_split_at_newline_parts(b: Seq<u8>)
    ensures
        !split_at_newline(b).0.contains(newline()),
        match split_at_newline(b).1 {
            Some(r) => b == split_at_newline(b).0 + seq![newline()] + r,
            None => b == split_at_newline(b).0,
        },
    decreases b.len(),
{
    if b.len() > 0 && b[0] != newline() {
        lemma_split_at_newline_parts(b.drop_first());
        let (l, r) = split_at_newline(b.drop_first());
        assert(!(seq![b[0]] + l).contains(newline())) by {
            assert forall|i: int| 0 <= i < (seq![b[0]] + l).len() implies (seq![b[0]] + l)[i]
                != newline() by {
                if i > 0 {
                    assert((seq![b[0]] + l)[i] == l[i - 1]);
                }
            }
        }
        match r {
            Some(r) => {
                assert(b =~= seq![b[0]] + b.drop_first());
                assert(seq![b[0]] + (l + seq![newline()] + r) =~= seq![b[0]] + l + seq![newline()]
                    + r);
            },
            None => assert(b =~= seq![b[0]] + l),
        }
    } else if b.len() > 0 {
        assert(b =~= Seq::<u8>::empty() + seq![newline()] + b.drop_first());
    }
}

/// Framing loses no byte and invents none: the buffer is a run of empty
/// lines, then the line returned (not empty, without newline) and its
/// newline, then what stays buffered; when no line is returned, what stays
/// buffered follows a run of empty lines and holds no newline.
pub proof fn lemma_framing_keeps_every_byte(b: Seq<u8>)
    ensures
        match next_nonempty_line(b) {
            (Some(l), r) => l.len() > 0 && !l.contains(newline()) && exists|k: nat|
                b == newlines(k) + l + seq![newline()] + r,
            (None, r) => !r.contains(newline()) && exists|k: nat| b == newlines(k) + r,
        },
    decreases b.len(),
{
    lemma_split_at_newline_parts(b);
    let (l, rest) = split_at_newline(b);
    match rest {
        None => {
            assert(b =~= newlines(0) + b);
        },
        Some(r) => {
            if l.len() == 0 {
                lemma_framing_keeps_every_byte(r);
                match next_nonempty_line(r) {
                    (Some(l2), r2) => {
                        let k = choose|k: nat| r == newlines(k) + l2 + seq![newline()] + r2;
                        assert(b =~= newlines(k + 1) + l2 + seq![newline()] + r2);
                    },
                    (None, r2) => {
                        let k = choose|k: nat| r == newlines(k) + r2;
                        assert(b =~= newlines(k + 1) + r2);
                    },
                }
            } else {
                assert(b =~= newlines(0) + l + seq![newline()] + r);
            }
        },
    }
}

proof fn lemma_split_at_newline(b: Seq<u8>, k: int)
    requires
        0 <= k <= b.len(),
        forall|t: int| 0 <= t < k ==> b[t] != newline(),
        k < b.len() ==> b[k] == newline(),
    ensures
        k == b.len() ==> split_at_newline(b) == (b, None::<Seq<u8>>),
        k < b.len() ==> split_at_newline(b) == (b.subrange(0, k), Some(b.subrange(k + 1, b.len() as int))),
    decreases k,
{
    if k == 0 {
        if b.len() > 0 {
            assert(b.subrange(0, 0) =~= Seq::<u8>::empty());
            assert(b.drop_first() =~= b.subrange(1, b.len() as int));
        }
    } else {
        lemma_split_at_newline(b.drop_first(), k - 1);
        if k == b.len() {
            assert(seq![b[0]] + b.drop_first() =~= b);
        } else {
            assert(seq![b[0]] + b.drop_first().subrange(0, k - 1) =~= b.subrange(0, k));
            assert(b.drop_first().subrange(k, b.len() - 1) =~= b.subrange(k + 1, b.len() as int));
        }
    }
}

} // verus!
