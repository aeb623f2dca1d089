//! Choosing and addressing the language-model backend: the selection mode,
//! the Ollama and OpenCode backends, the merging of chat messages for
//! OpenCode, and the extraction of the text of its reply.
use vstd::prelude::*;

use crate::ollama::{base_of, host_base};
use crate::text::same_text;

verus! {

/// How the backend is chosen.
#[derive(Debug, Clone, Copy, PartialEq, Eq, Structural)]
pub enum Mode {
    /// Online when the OpenCode server answers, offline otherwise.
    Auto,
    /// Always the local Ollama backend.
    ForceOffline,
    /// Always the OpenCode backend.
    ForceOnline,
}

/// The backend that a mode and a connectivity probe choose: online or not.
pub open spec fn uses_online(mode: Mode, probe_online: bool) -> bool {
    match mode {
        Mode::ForceOnline => true,
        Mode::ForceOffline => false,
        Mode::Auto => probe_online,
    }
}

/// A forced mode ignores the probe: offline never uses the online backend,
/// online always does; only the automatic mode follows the probe.
pub proof fn lemma_forced_modes_ignore_probe(probe: bool)
    ensures
        !uses_online(Mode::ForceOffline, probe),
        uses_online(Mode::ForceOnline, probe),
        uses_online(Mode::ForceOffline, probe) == uses_online(Mode::ForceOffline, !probe),
        uses_online(Mode::ForceOnline, probe) == uses_online(Mode::ForceOnline, !probe),
        uses_online(Mode::Auto, probe) == probe,
{
}

/// Pure decision: given the mode + connectivity probe, should we use the online backend?
pub fn resolve_use_online(mode: Mode, probe_online: bool) -> (online: bool)
    ensures
        online == uses_online(mode, probe_online),
        mode == Mode::ForceOffline ==> !online,
        mode == Mode::ForceOnline ==> online,
        mode == Mode::Auto ==> online == probe_online,
{
    match mode {
        Mode::ForceOnline => true,
        Mode::ForceOffline => false,
        Mode::Auto => probe_online,
    }
}

/// The mode that the `--offline` and `--online` flags ask for.
pub fn mode_from_flags(offline: bool, online: bool) -> (m: Mode)
    ensures
        m == (if offline {
            Mode::ForceOffline
        } else if online {
            Mode::ForceOnline
        } else {
            Mode::Auto
        }),
{
    if offline {
        Mode::ForceOffline
    } else if online {
        Mode::ForceOnline
    } else {
        Mode::Auto
    }
}

/// Whether an environment variable's value is exactly "1".
pub open spec fn is_set(var: Option<Seq<char>>) -> bool {
    match var {
        Some(v) => v == "1"@,
        None => false,
    }
}

pub open spec fn opt_view(o: Option<&str>) -> Option<Seq<char>> {
    match o {
        Some(s) => Some(s@),
        None => None,
    }
}

/// The answer that the `CIRI_OFFLINE` and `CIRI_ONLINE` variables give to
/// "is the online backend reachable?", before any probe: offline wins, then
/// online; `None` when neither is set to "1" and the probe decides.
pub open spec fn env_answer(offline_var: Option<Seq<char>>, online_var: Option<Seq<char>>) -> Option<
    bool,
> {
    if is_set(offline_var) {
        Some(false)
    } else if is_set(online_var) {
        Some(true)
    } else {
        None
    }
}

/// In automatic mode, `CIRI_OFFLINE=1` selects Ollama and otherwise
/// `CIRI_ONLINE=1` selects OpenCode, whatever the probe would say; with
/// neither set, the probe decides.
pub proof fn lemma_environment_overrides_probe(
    offline_var: Option<Seq<char>>,
    online_var: Option<Seq<char>>,
    probe: bool,
)
    ensures
        ({
            let reachable = match env_answer(offline_var, online_var) {
                Some(a) => a,
                None => probe,
            };
            &&& is_set(offline_var) ==> !uses_online(Mode::Auto, reachable)
            &&& !is_set(offline_var) && is_set(online_var) ==> uses_online(Mode::Auto, reachable)
            &&& !is_set(offline_var) && !is_set(online_var) ==> uses_online(Mode::Auto, reachable)
                == probe
        }),
{
}

/// `env_answer` for the variables' values as the process sees them.
pub fn online_from_env(offline_var: Option<&str>, online_var: Option<&str>) -> (r: Option<bool>)
    ensures
        r == env_answer(opt_view(offline_var), opt_view(online_var)),
        (offline_var matches Some(v) && v@ == "1"@) ==> r == Some(false),
        !(offline_var matches Some(v) && v@ == "1"@) && (online_var matches Some(w) && w@
            == "1"@) ==> r == Some(true),
        !(offline_var matches Some(v) && v@ == "1"@) && !(online_var matches Some(w) && w@
            == "1"@) ==> r is None,
{
    let offline = match offline_var {
        Some(v) => same_text(v, "1"),
        None => false,
    };
    if offline {
        return Some(false);
    }
    let online = match online_var {
        Some(v) => same_text(v, "1"),
        None => false,
    };
    if online {
        Some(true)
    } else {
        None
    }
}

/// One chat message: a role ("system" or "user") and its text.
pub struct Message<'a> {
    pub role: &'a str,
    pub content: &'a str,
}

/// The local Ollama backend.
pub struct Ollama {
    pub host: String,
    pub model: String,
}

impl Ollama {
    pub fn name(&self) -> (r: String)
        ensures
            r@ == "ollama:"@ + self.model@,
    {
        let mut r = String::from_str("ollama:");
        r.append(self.model.as_str());
        r
    }
}

/// The OpenCode server backend.
pub struct OpenCode {
    pub host: String,
}

/// Where the OpenCode server listens unless told otherwise.
pub open spec fn default_opencode_host() -> Seq<char> {
    "http://localhost:3456"@
}

impl Default for OpenCode {
    fn default() -> (r: Self)
        ensures
            r.host@ == default_opencode_host(),
    {
        OpenCode { host: String::from_str("http://localhost:3456") }
    }
}

impl OpenCode {
    pub fn name(&self) -> (r: String)
        ensures
            r@ == "opencode"@,
    {
        String::from_str("opencode")
    }

    /// The endpoint that creates a session.
    pub fn session_url(&self) -> (r: String)
        ensures
            r@ == host_base(self.host@) + "/session"@,
    {
        let mut url = base_of(self.host.as_str());
        url.append("/session");
        url
    }

    /// The endpoint that posts a message to session `id`.
    pub fn message_url(&self, id: &str) -> (r: String)
        ensures
            r@ == host_base(self.host@) + "/session/"@ + id@ + "/message"@,
    {
        let mut url = base_of(self.host.as_str());
        url.append("/session/");
        url.append(id);
        url.append("/message");
        url
    }

    /// The endpoint that deletes session `id`.
    pub fn session_delete_url(&self, id: &str) -> (r: String)
        ensures
            r@ == host_base(self.host@) + "/session/"@ + id@,
    {
        let mut url = base_of(self.host.as_str());
        url.append("/session/");
        url.append(id);
        url
    }
}

/// The backend chosen for a request.
pub enum Backend {
    Ollama(Ollama),
    OpenCode(OpenCode),
}

impl Backend {
    /// User-facing label, e.g. "ollama:gemma4:e2b" or "opencode".
    pub fn label(&self) -> (r: String)
        ensures
            r@ == match self {
                Backend::Ollama(o) => "ollama:"@ + o.model@,
                Backend::OpenCode(_) => "opencode"@,
            },
    {
        match self {
            Backend::Ollama(o) => o.name(),
            Backend::OpenCode(o) => o.name(),
        }
    }
}

/// Build the active backend from the mode and the probe's answer.
/// `offline_model` is the Ollama model to use unless `model_override` names one.
pub fn select_backend(
    mode: Mode,
    probe_online: bool,
    ollama_host: &str,
    offline_model: &str,
    model_override: Option<&str>,
) -> (b: Backend)
    ensures
        uses_online(mode, probe_online) ==> (b matches Backend::OpenCode(o)
            && o.host@ == default_opencode_host()),
        !uses_online(mode, probe_online) ==> (b matches Backend::Ollama(o) && o.host@
            == ollama_host@ && o.model@ == match model_override {
            Some(m) => m@,
            None => offline_model@,
        }),
{
    if resolve_use_online(mode, probe_online) {
        Backend::OpenCode(OpenCode::default())
    } else {
        let model = match model_override {
            Some(m) => String::from_str(m),
            None => String::from_str(offline_model),
        };
        Backend::Ollama(Ollama { host: String::from_str(ollama_host), model })
    }
}

/// The contents of the messages whose role is "system" (or, with
/// `system == false`, of all the others), in order, separated by blank lines;
/// a separator is added only after text already gathered.
pub open spec fn joined<'a>(ms: Seq<Message<'a>>, system: bool) -> Seq<char>
    decreases ms.len(),
{
    if ms.len() == 0 {
        Seq::empty()
    } else {
        let prev = joined(ms.drop_last(), system);
        let m = ms.last();
        if (m.role@ == "system"@) == system {
            if prev.len() == 0 {
                m.content@
            } else {
                prev + "\n\n"@ + m.content@
            }
        } else {
            prev
        }
    }
}

/// Merging one more message adds its content to the text of its own role
/// ("system", or any other for the user text), after a blank line when that
/// text is not empty yet; the text of the other role is unchanged.
pub proof fn lemma_merging_appends_by_role<'a>(ms: Seq<Message<'a>>, m: Message<'a>)
    ensures
        ({
            let own = m.role@ == "system"@;
            let before = joined(ms, own);
            &&& joined(ms.push(m), own) == if before.len() == 0 {
                m.content@
            } else {
                before + "\n\n"@ + m.content@
            }
            &&& joined(ms.push(m), !own) == joined(ms, !own)
        }),
{
    assert(ms.push(m).drop_last() =~= ms);
    assert(ms.push(m).last() == m);
}

/// OpenCode takes one system text and one user text: the messages are merged by role.
pub fn merge_messages(messages: &[Message<'_>]) -> (r: (String, String))
    ensures
        r.0@ == joined(messages@, true),
        r.1@ == joined(messages@, false),
{
    let mut system = String::new();
    let mut user = String::new();
    let mut i: usize = 0;
    while i < messages.len()
        invariant
            i <= messages@.len(),
            system@ == joined(messages@.subrange(0, i as int), true),
            user@ == joined(messages@.subrange(0, i as int), false),
        decreases messages@.len() - i,
    {
        let m = &messages[i];
        assert(messages@.subrange(0, i + 1).drop_last() =~= messages@.subrange(0, i as int));
        if same_text(m.role, "system") {
            if system.as_str().unicode_len() > 0 {
                system.append("\n\n");
            }
            system.append(m.content);
        } else {
            if user.as_str().unicode_len() > 0 {
                user.append("\n\n");
            }
            user.append(m.content);
        }
        i = i + 1;
    }
    assert(messages@.subrange(0, messages@.len() as int) =~= messages@);
    (system, user)
}

/// One part of an OpenCode reply, as far as the reply is read: its "type"
/// and its "text", each when it is a string.
pub struct Part {
    pub kind: Option<String>,
    pub text: Option<String>,
}

/// Whether a part is a text part that carries its text.
pub open spec fn is_text_part(p: Part) -> bool {
    &&& p.kind matches Some(k) && k@ == "text"@
    &&& p.text is Some
}

/// The texts of the text parts, concatenated in order.
pub open spec fn reply_text(parts: Seq<Part>) -> Seq<char>
    decreases parts.len(),
{
    if parts.len() == 0 {
        Seq::empty()
    } else {
        let p = parts.last();
        reply_text(parts.drop_last()) + if is_text_part(p) {
            p.text->0@
        } else {
            Seq::empty()
        }
    }
}

/// Adding a part to a reply adds its text when its type is "text" and it
/// carries one, and nothing otherwise.
pub proof fn lemma_only_text_parts_count(parts: Seq<Part>, p: Part)
    ensures
        reply_text(parts.push(p)) == reply_text(parts) + match (p.kind, p.text) {
            (Some(k), Some(t)) => if k@ == "text"@ {
                t@
            } else {
                Seq::<char>::empty()
            },
            _ => Seq::<char>::empty(),
        },
{
    assert(parts.push(p).drop_last() =~= parts);
    assert(parts.push(p).last() == p);
}

/// The message for a reply with no text.
pub open spec fn no_text_message() -> Seq<char> {
    "OpenCode returned no text parts in response"@
}

/// The text of an OpenCode reply; an error when it has none.
pub fn collect_text(parts: &[Part]) -> (r: Result<String, String>)
    ensures
        reply_text(parts@).len() > 0 ==> (r matches Ok(t) && t@ == reply_text(parts@)),
        reply_text(parts@).len() == 0 ==> (r matches Err(e) && e@ == no_text_message()),
{
    let mut out = String::new();
    let mut i: usize = 0;
    while i < parts.len()
        invariant
            i <= parts@.len(),
            out@ == reply_text(parts@.subrange(0, i as int)),
        decreases parts@.len() - i,
    {
        let p = &parts[i];
        assert(parts@.subrange(0, i + 1).drop_last() =~= parts@.subrange(0, i as int));
        let is_text = match &p.kind {
            Some(k) => same_text(k.as_str(), "text"),
            None => false,
        };
        if is_text {
            match &p.text {
                Some(t) => out.append(t.as_str()),
                None => {},
            }
        }
        proof {
            let ghost q = parts@.subrange(0, i + 1);
            assert(q.last() == parts@[i as int]);
        }
        i = i + 1;
    }
    assert(parts@.subrange(0, parts@.len() as int) =~= parts@);
    if out.as_str().unicode_len() == 0 {
        Err(String::from_str("OpenCode returned no text parts in response"))
    } else {
        Ok(out)
    }
}

} // verus!
