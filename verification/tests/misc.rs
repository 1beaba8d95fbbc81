use beardpilot::api::chat::{Chat, Message, MessageRole};
use beardpilot::api::client::{endpoint_url, parse_base_url, server_url, server_url_text};
use beardpilot::api::error::EndpointError;
use beardpilot::text::{decimal_string, signed_decimal_string, str_eq, trim_str};

#[test]
fn decimal_notation() {
    assert_eq!(decimal_string(0), "0");
    assert_eq!(decimal_string(1907), "1907");
    assert_eq!(decimal_string(u64::MAX), "18446744073709551615");
    assert_eq!(signed_decimal_string(-42), "-42");
    assert_eq!(signed_decimal_string(i64::MIN), "-9223372036854775808");
    assert_eq!(signed_decimal_string(7), "7");
}

#[test]
fn trimming_uses_unicode_whitespace() {
    assert_eq!(trim_str("\u{a0}\t x y \u{2029}"), "x y");
    assert_eq!(trim_str("   "), "");
    assert_eq!(trim_str("a"), "a");
}

#[test]
fn string_equality() {
    assert!(str_eq("héllo", "héllo"));
    assert!(!str_eq("help", "hel"));
    assert!(!str_eq("help", "hElp"));
}

#[test]
fn server_address_and_parse() {
    assert_eq!(server_url_text("localhost", 11434), "http://localhost:11434");
    let url = server_url("localhost", 11434).ok().unwrap();
    assert_eq!(url.as_str(), "http://localhost:11434/");
    assert!(matches!(parse_base_url("not a url"), Err(EndpointError::ParserError(_))));
    assert!(matches!(server_url("", 80), Err(EndpointError::ParserError(_))));
}

#[test]
fn chat_builder_sets_fields() {
    let chat = Chat::new("mistral", vec![Message::user("hi")])
        .with_format("json")
        .with_stream(true)
        .with_think(true)
        .with_keep_alive("5m")
        .with_logprobs(false)
        .with_top_logprobs(3)
        .build();
    assert_eq!(chat.model, "mistral");
    assert_eq!(chat.messages.len(), 1);
    assert_eq!(chat.messages[0].role, Some(MessageRole::User));
    assert_eq!(chat.format, "json");
    assert!(chat.stream);
    assert_eq!(chat.think, Some(true));
    assert_eq!(chat.keep_alive.as_deref(), Some("5m"));
    assert_eq!(chat.logprobs, Some(false));
    assert_eq!(chat.top_logprobs, Some(3));
    assert!(chat.tools.is_empty());
    let plain = Chat::new("m", vec![]).build();
    assert!(!plain.stream);
    assert_eq!(plain.format, "");
    assert!(plain.think.is_none());
}

#[test]
fn message_shapes() {
    let s = Message::system("rules");
    assert_eq!(s.role, Some(MessageRole::System));
    assert_eq!(s.content, "rules");
    assert!(s.images.is_empty() && s.tool_calls.is_empty() && s.tool_call_id.is_none());
    let a = Message::assistant("x");
    assert_eq!(a.role, Some(MessageRole::Assistant));
    let t = Message::tool_response("id7".to_owned(), "out".to_owned());
    assert_eq!(t.role, Some(MessageRole::Tool));
    assert_eq!(t.tool_call_id.as_deref(), Some("id7"));
    let c = Message::tool_calls(vec![]);
    assert_eq!(c.role, Some(MessageRole::Assistant));
    assert_eq!(c.content, "");
}

#[test]
fn parsed_base_url_is_the_given_address() {
    let url = parse_base_url("https://api.mistral.ai").ok().unwrap();
    assert_eq!(url.as_str(), "https://api.mistral.ai/");
    let other = server_url("127.0.0.1", 8080).ok().unwrap();
    assert_eq!(other.as_str(), "http://127.0.0.1:8080/");
}

#[test]
fn endpoint_url_resolves_under_the_base() {
    let base = server_url("localhost", 11434).ok().unwrap();
    let chat = endpoint_url(&base, "/api/chat").ok().unwrap();
    assert_eq!(chat.as_str(), "http://localhost:11434/api/chat");
    let mistral = parse_base_url("https://api.mistral.ai").ok().unwrap();
    assert_eq!(endpoint_url(&mistral, "/v1/chat/completions").ok().unwrap().as_str(), "https://api.mistral.ai/v1/chat/completions");
}
