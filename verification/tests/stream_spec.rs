use ciri::ollama::{base_of, chat_url, ChunkEvent, StreamDecoder};

fn chunk(content: Option<&str>, done: bool) -> Option<ChunkEvent> {
    Some(ChunkEvent { content: content.map(|c| c.to_string()), done })
}

#[test]
fn chat_url_joins_host_and_path() {
    assert_eq!(chat_url("http://localhost:11434/"), "http://localhost:11434/api/chat");
    assert_eq!(chat_url("http://h"), "http://h/api/chat");
    assert_eq!(base_of("a//"), "a");
}

#[test]
fn lines_are_framed_across_chunks() {
    let mut d = StreamDecoder::new();
    d.feed(b"{\"a\":1}\n\n{\"b\"");
    assert_eq!(d.next_line(), Some(b"{\"a\":1}".to_vec()));
    assert_eq!(d.next_line(), None);
    d.feed(b":2}\n");
    assert_eq!(d.next_line(), Some(b"{\"b\":2}".to_vec()));
    assert_eq!(d.next_line(), None);
}

#[test]
fn first_token_fires_once_and_output_accumulates() {
    let mut d = StreamDecoder::new();
    let e = d.apply(chunk(Some(""), false));
    assert!(!e.first_token && e.text.is_none() && !e.done);
    let e = d.apply(None);
    assert!(!e.first_token && e.text.is_none() && !e.done);
    let e = d.apply(chunk(Some("feat"), false));
    assert!(e.first_token);
    assert_eq!(e.text.as_deref(), Some("feat"));
    let e = d.apply(chunk(Some(": x"), false));
    assert!(!e.first_token);
    assert_eq!(e.text.as_deref(), Some(": x"));
    let e = d.apply(chunk(None, true));
    assert!(e.done && e.text.is_none());
    assert_eq!(d.output(), "feat: x");
}
