use ciri::llm::{
    collect_text, merge_messages, mode_from_flags, online_from_env, resolve_use_online,
    select_backend, Backend, Message, Mode, Ollama, OpenCode, Part,
};

#[test]
fn force_online_wins() {
    assert!(resolve_use_online(Mode::ForceOnline, false));
}

#[test]
fn force_offline_wins() {
    assert!(!resolve_use_online(Mode::ForceOffline, true));
}

#[test]
fn auto_follows_probe() {
    assert!(resolve_use_online(Mode::Auto, true));
    assert!(!resolve_use_online(Mode::Auto, false));
}

#[test]
fn offline_selection_uses_ollama_with_override() {
    let ollama = Ollama {
        host: "http://x".into(),
        model: "gemma4:e2b".into(),
    };
    assert_eq!(ollama.name(), "ollama:gemma4:e2b");
}

#[test]
fn online_selection_uses_opencode_defaults() {
    let opencode = OpenCode::default();
    assert_eq!(opencode.host, "http://localhost:3456");
    assert_eq!(opencode.name(), "opencode");
}

// Further cases.

#[test]
fn flags_choose_the_mode() {
    assert_eq!(mode_from_flags(true, false), Mode::ForceOffline);
    assert_eq!(mode_from_flags(false, true), Mode::ForceOnline);
    assert_eq!(mode_from_flags(false, false), Mode::Auto);
}

#[test]
fn offline_variable_wins_over_online_variable() {
    assert_eq!(online_from_env(Some("1"), Some("1")), Some(false));
    assert_eq!(online_from_env(None, Some("1")), Some(true));
    assert_eq!(online_from_env(Some("0"), Some("yes")), None);
    assert_eq!(online_from_env(None, None), None);
}

#[test]
fn select_offline_uses_override_model() {
    match select_backend(Mode::ForceOffline, true, "http://h:1", "gemma4:e2b", Some("llama3")) {
        Backend::Ollama(o) => {
            assert_eq!(o.host, "http://h:1");
            assert_eq!(o.model, "llama3");
        }
        Backend::OpenCode(_) => panic!("expected the offline backend"),
    }
}

#[test]
fn select_auto_without_server_uses_default_model() {
    let b = select_backend(Mode::Auto, false, "http://h:1", "gemma4:e2b", None);
    assert_eq!(b.label(), "ollama:gemma4:e2b");
}

#[test]
fn select_online_uses_opencode() {
    let b = select_backend(Mode::Auto, true, "http://h:1", "gemma4:e2b", None);
    assert_eq!(b.label(), "opencode");
    match b {
        Backend::OpenCode(o) => assert_eq!(o.host, "http://localhost:3456"),
        Backend::Ollama(_) => panic!("expected the online backend"),
    }
}

#[test]
fn messages_are_merged_by_role() {
    let ms = [
        Message { role: "system", content: "s1" },
        Message { role: "user", content: "u1" },
        Message { role: "system", content: "s2" },
        Message { role: "assistant", content: "a1" },
    ];
    let (system, user) = merge_messages(&ms);
    assert_eq!(system, "s1\n\ns2");
    assert_eq!(user, "u1\n\na1");
}

#[test]
fn reply_text_joins_text_parts_only() {
    let parts = vec![
        Part { kind: Some("step-start".into()), text: None },
        Part { kind: Some("text".into()), text: Some("Hello ".into()) },
        Part { kind: Some("reasoning".into()), text: Some("hmm".into()) },
        Part { kind: Some("text".into()), text: Some("world".into()) },
    ];
    assert_eq!(collect_text(&parts), Ok("Hello world".to_string()));
}

#[test]
fn reply_without_text_is_an_error() {
    let parts = vec![Part { kind: Some("tool".into()), text: Some("x".into()) }];
    assert_eq!(
        collect_text(&parts),
        Err("OpenCode returned no text parts in response".to_string())
    );
}

#[test]
fn opencode_urls_drop_trailing_slashes() {
    let oc = OpenCode { host: "http://localhost:3456//".into() };
    assert_eq!(oc.session_url(), "http://localhost:3456/session");
    assert_eq!(oc.message_url("abc"), "http://localhost:3456/session/abc/message");
    assert_eq!(oc.session_delete_url("abc"), "http://localhost:3456/session/abc");
}
