use beardpilot::api::chat::MessageRole;
use beardpilot::ollama_chat::config::AppConfig;
use beardpilot::ollama_chat::conversation::{
    Conversation, Message, ModelInfo, ResponseStatus, Role, StreamChunk,
};
use beardpilot::ollama_chat::tools::list_files::{ListFiles, Params};
use beardpilot::ollama_chat::view::build_message_lines;
use beardpilot::ui::message_area::DisplayLine;

fn content(text: &str) -> StreamChunk {
    StreamChunk { content: text.to_owned(), thinking: None, final_counts: None, done: false }
}

fn thinking(text: &str) -> StreamChunk {
    StreamChunk { content: String::new(), thinking: Some(text.to_owned()), final_counts: None, done: false }
}

fn entries(c: &Conversation) -> Vec<(Role, String)> {
    c.messages().iter().map(|m| (m.role, m.text.clone())).collect()
}

#[test]
fn chunks_stream_into_thinking_and_assistant_entries() {
    let mut c = Conversation::new(None, ModelInfo::new("llama", None));
    c.push_user("why?".to_owned());
    c.push_chunk(thinking("let me "));
    c.push_chunk(thinking("see"));
    c.push_chunk(content("Be"));
    c.push_chunk(content("cause"));
    assert_eq!(
        entries(&c),
        vec![
            (Role::User, "why?".to_owned()),
            (Role::Thinking, "let me see".to_owned()),
            (Role::Assistant, "Because".to_owned())
        ]
    );
    assert_eq!(c.response_status(), ResponseStatus::ReceiveResponse);
}

#[test]
fn last_chunk_reports_tokens_and_waits() {
    let mut c = Conversation::new(None, ModelInfo::new("llama", None));
    c.push_chunk(StreamChunk {
        content: "ok".to_owned(),
        thinking: None,
        final_counts: Some((7, 1234567890123)),
        done: true,
    });
    assert_eq!(
        entries(&c),
        vec![
            (Role::Assistant, "ok".to_owned()),
            (Role::Info, "Tokens sent: 7 | received: 1234567890123".to_owned())
        ]
    );
    assert_eq!(c.response_status(), ResponseStatus::Waiting);
    c.push_chunk(content("next"));
    assert_eq!(entries(&c)[2], (Role::Assistant, "next".to_owned()));
}

#[test]
fn client_messages_keep_user_and_assistant_only() {
    let mut c = Conversation::new(Some("sys".to_owned()), ModelInfo::new("llama", Some(9)));
    c.push_user("a".to_owned());
    c.push_chunk(thinking("t"));
    c.push_chunk(content("b"));
    let sent = c.client_messages();
    let pairs: Vec<(Option<MessageRole>, String)> = sent.iter().map(|m| (m.role, m.content.clone())).collect();
    assert_eq!(
        pairs,
        vec![
            (Some(MessageRole::System), "sys".to_owned()),
            (Some(MessageRole::User), "a".to_owned()),
            (Some(MessageRole::Assistant), "b".to_owned())
        ]
    );
    assert_eq!(c.model_info().max_tokens, Some(9));
}

#[test]
fn pop_last_user_removes_only_the_last_user_entry_and_content_joins_last_entry() {
    let mut c = Conversation::new(None, ModelInfo::new("llama", None));
    c.push_user("one".to_owned());
    c.push_chunk(content("reply"));
    c.push_user("two".to_owned());
    c.push_chunk(content("x"));
    assert_eq!(entries(&c)[2], (Role::User, "twox".to_owned()));
    c.pop_last_user();
    assert_eq!(
        entries(&c),
        vec![(Role::User, "one".to_owned()), (Role::Assistant, "reply".to_owned())]
    );
    c.clear();
    assert!(c.messages().is_empty());
    c.pop_last_user();
    assert!(c.messages().is_empty());
}

#[test]
fn message_constructors_set_roles() {
    assert_eq!(Message::user("u").role, Role::User);
    assert_eq!(Message::assistant("a").role, Role::Assistant);
    assert_eq!(Message::thinking("t").role, Role::Thinking);
    assert_eq!(Message::info("i").role, Role::Info);
    let e = Message::error("e");
    assert_eq!(e.role, Role::Error);
    assert_eq!(e.text, "e");
}

#[test]
fn pane_lines_follow_roles() {
    let mut c = Conversation::new(None, ModelInfo::new("llama", None));
    c.push_user("hi".to_owned());
    c.push_chunk(content("hey you"));
    let lines = build_message_lines(&c, 12);
    let shown: Vec<String> = lines
        .iter()
        .map(|l| match l {
            DisplayLine::First { prefix, text, .. } => format!("{}{}", prefix, text),
            DisplayLine::Continuation { indent, text, .. } => format!("{}{}", indent, text),
            DisplayLine::Blank => String::new(),
        })
        .collect();
    assert_eq!(shown, vec!["You  \u{2502} hi", "", "AI   \u{2502} hey y", "       ou", ""]);
}

#[test]
fn default_config_and_system_file() {
    let config = AppConfig::default();
    assert_eq!(config.model, "qwen3.5-4b-8k:latest");
    assert_eq!(config.host, "http://localhost");
    assert_eq!(config.port, 11434);
    assert!(config.system_prompt.is_none());
    let config = config.with_system_file(Some("be nice".to_owned()));
    assert_eq!(config.system_prompt.as_deref(), Some("be nice"));
    let config = config.with_system_file(None);
    assert_eq!(config.system_prompt.as_deref(), Some("be nice"));
}

#[test]
fn optional_hidden_flag_defaults_to_off() {
    let tool = ListFiles {};
    let line = tool.command_line(&Params { path: None, show_hidden: None });
    assert_eq!(line.args, vec!["-1", "."]);
    let line = tool.command_line(&Params { path: None, show_hidden: Some(true) });
    assert_eq!(line.args, vec!["-1", "-A", "."]);
}

#[test]
fn submitted_text_is_the_last_client_message() {
    let mut c = Conversation::new(None, ModelInfo::new("llama", None));
    c.push_user("one".to_owned());
    c.push_chunk(content("reply"));
    c.push_user("two".to_owned());
    let sent = c.client_messages();
    assert_eq!(sent.len(), 3);
    assert_eq!(sent[2].role, Some(MessageRole::User));
    assert_eq!(sent[2].content, "two");
}

#[test]
fn content_after_clear_while_thinking_starts_an_answer() {
    let mut c = Conversation::new(None, ModelInfo::new("llama", None));
    c.push_user("q".to_owned());
    c.push_chunk(thinking("hmm"));
    c.clear();
    c.push_chunk(content("answer"));
    assert_eq!(entries(&c), vec![(Role::Assistant, "answer".to_owned())]);
    assert_eq!(c.response_status(), ResponseStatus::ReceiveResponse);
}
