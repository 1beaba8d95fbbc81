use beardpilot::api::chat::{
    ChatMessageFinalResponseData, ChatResponse, FinishReason, Message, MessageChunk, MessageRole,
    ResponseMessage, ToolCallFunction, ToolCallMessage,
};
use beardpilot::chat::conversation::{
    Conversation, LocalMessage, ModelInfo, ResponseAction, ResponseStatus, ToolCallBuffer,
};
use beardpilot::chat::tool_registry::ToolCall;
use beardpilot::error::AppError;

fn chunk(thinking: &str, content: &str) -> ChatResponse {
    ChatResponse {
        id: String::new(),
        object: "chat.completion.chunk".to_owned(),
        model: "m".to_owned(),
        created: 0,
        choices: vec![MessageChunk {
            index: 0,
            delta: ResponseMessage {
                thinking: thinking.to_owned(),
                message: Message {
                    role: Some(MessageRole::Assistant),
                    content: content.to_owned(),
                    images: vec![],
                    tool_calls: vec![],
                    tool_call_id: None,
                },
            },
            finish_reason: None,
        }],
        done: false,
        done_reason: None,
        final_data: None,
    }
}

fn fragment(index: u32, id: &str, name: &str, arguments: &str) -> ToolCallMessage {
    ToolCallMessage {
        id: id.to_owned(),
        index: 0,
        function: ToolCallFunction {
            index: Some(index),
            name: name.to_owned(),
            arguments: arguments.to_owned(),
        },
    }
}

fn texts(conversation: &Conversation) -> Vec<String> {
    conversation
        .messages()
        .iter()
        .map(|m| match m {
            LocalMessage::User(t) => format!("user:{}", t),
            LocalMessage::Assistant(t) => format!("assistant:{}", t),
            LocalMessage::Thinking(t) => format!("thinking:{}", t),
            LocalMessage::Info(t) => format!("info:{}", t),
            LocalMessage::ToolCall(c) => format!("call:{}", c.function),
            LocalMessage::ToolResponse { id, response } => format!("response:{}:{}", id, response),
        })
        .collect()
}

fn new_conversation(prompt: Option<&str>) -> Conversation {
    Conversation::new(prompt.map(|p| p.to_owned()), ModelInfo::new("mistral-small", Some(512)))
}

fn json(text: &str) -> serde_json::Value {
    serde_json::from_str(text).unwrap()
}

#[test]
fn content_chunks_join_into_one_reply() {
    let mut c = new_conversation(None);
    c.push_user("hi".to_owned());
    assert!(matches!(c.push_chunk(chunk("", "Hel")), Ok(ResponseAction::Continue)));
    assert_eq!(c.conversation_status(), ResponseStatus::ReceiveResponse);
    assert!(matches!(c.push_chunk(chunk("", "lo")), Ok(ResponseAction::Continue)));
    assert_eq!(texts(&c), vec!["user:hi", "assistant:Hello"]);
}

#[test]
fn thinking_then_content_makes_two_entries() {
    let mut c = new_conversation(None);
    c.push_chunk(chunk("hm", "")).ok().unwrap();
    assert_eq!(c.conversation_status(), ResponseStatus::Thinking);
    c.push_chunk(chunk("m", "")).ok().unwrap();
    c.push_chunk(chunk("", "Yes")).ok().unwrap();
    assert_eq!(texts(&c), vec!["thinking:hmm", "assistant:Yes"]);
    assert_eq!(c.conversation_status(), ResponseStatus::ReceiveResponse);
}

#[test]
fn final_counts_add_info_line() {
    let mut c = new_conversation(None);
    let mut last = chunk("", "done");
    last.final_data = Some(ChatMessageFinalResponseData {
        total_duration: 1,
        load_duration: 2,
        prompt_eval_count: 12,
        prompt_eval_duration: 3,
        eval_count: 34,
        eval_duration: 4,
    });
    c.push_chunk(last).ok().unwrap();
    assert_eq!(texts(&c), vec!["assistant:done", "info:Tokens sent: 12 | received: 34"]);
}

#[test]
fn tool_call_fragments_are_gathered_and_returned() {
    let mut c = new_conversation(None);
    let mut first = chunk("", "");
    first.choices[0].delta.message.tool_calls =
        vec![fragment(0, "call_", "Re", "{\"path\":"), fragment(1, "x", "Bash", "{}")];
    c.push_chunk(first).ok().unwrap();
    let mut second = chunk("", "");
    second.choices[0].delta.message.tool_calls = vec![fragment(0, "1", "ad", "\"a.txt\"}")];
    second.choices[0].finish_reason = Some(FinishReason::ToolCalls);
    match c.push_chunk(second) {
        Ok(ResponseAction::ToolCalls(mut calls)) => {
            calls.sort_by(|a, b| a.id.cmp(&b.id));
            assert_eq!(calls.len(), 2);
            assert_eq!(calls[0].id, "call_1");
            assert_eq!(calls[0].function, "Read");
            assert_eq!(calls[0].arguments, json(r#"{"path": "a.txt"}"#));
            assert_eq!(calls[1].id, "x");
            assert_eq!(calls[1].function, "Bash");
        }
        _ => panic!("tool calls expected"),
    }
    assert_eq!(c.conversation_status(), ResponseStatus::Waiting);
}

#[test]
fn tool_call_with_bad_arguments_is_a_tool_error() {
    let mut c = new_conversation(None);
    let mut only = chunk("", "");
    only.choices[0].delta.message.tool_calls = vec![fragment(0, "1", "Read", "{\"path\"")];
    only.choices[0].finish_reason = Some(FinishReason::ToolCalls);
    assert!(matches!(c.push_chunk(only), Err(AppError::ToolError(_))));
}

#[test]
fn done_reply_with_tool_calls_reason_only_when_not_done() {
    let mut c = new_conversation(None);
    let mut last = chunk("", "bye");
    last.done = true;
    last.choices[0].finish_reason = Some(FinishReason::ToolCalls);
    assert!(matches!(c.push_chunk(last), Ok(ResponseAction::Continue)));
}

#[test]
fn buffer_concatenates_fragments_per_index() {
    let mut buffer = ToolCallBuffer::new();
    buffer.push(Some(vec![fragment(2, "a", "F", "[1,"), fragment(2, "b", "ind", "2]")]));
    buffer.push(None);
    assert!(buffer.arguments_are_json());
    let calls = buffer.take();
    assert_eq!(calls.len(), 1);
    assert_eq!(calls[0].id, "ab");
    assert_eq!(calls[0].function, "Find");
    assert_eq!(calls[0].arguments, json("[1, 2]"));
    assert!(buffer.take().is_empty());
}

#[test]
fn session_history_starts_with_system_prompt_and_skips_thinking() {
    let mut c = new_conversation(Some("Be brief"));
    c.push_user("hi".to_owned());
    c.push_chunk(chunk("think", "")).ok().unwrap();
    c.push_chunk(chunk("", "hello")).ok().unwrap();
    c.push_tool_call(ToolCall {
        id: "c1".to_owned(),
        function: "Read".to_owned(),
        arguments: json(r#"{"path": "x"}"#),
    });
    c.push_tool_response("c1".to_owned(), "data".to_owned());
    let chat = c.session_chat(vec![json(r#"{"type": "function"}"#)]);
    assert_eq!(chat.model, "mistral-small");
    assert!(!chat.stream);
    assert_eq!(chat.tools.len(), 1);
    let roles: Vec<Option<MessageRole>> = chat.messages.iter().map(|m| m.role).collect();
    assert_eq!(
        roles,
        vec![
            Some(MessageRole::System),
            Some(MessageRole::User),
            Some(MessageRole::Assistant),
            Some(MessageRole::Assistant),
            Some(MessageRole::Tool)
        ]
    );
    assert_eq!(chat.messages[0].content, "Be brief");
    assert_eq!(chat.messages[2].content, "hello");
    assert_eq!(chat.messages[3].tool_calls.len(), 1);
    assert_eq!(chat.messages[3].tool_calls[0].id, "c1");
    assert_eq!(chat.messages[3].tool_calls[0].function.arguments, "{\"path\":\"x\"}");
    assert_eq!(chat.messages[4].content, "data");
    assert_eq!(chat.messages[4].tool_call_id.as_deref(), Some("c1"));
}

#[test]
fn model_info_is_kept() {
    let c = new_conversation(None);
    assert_eq!(c.model_info().model_name, "mistral-small");
    assert_eq!(c.model_info.max_tokens, Some(512));
}

#[test]
fn submitted_text_is_the_last_message_sent() {
    let mut c = new_conversation(None);
    c.push_user("first".to_owned());
    c.push_chunk(chunk("", "answer")).ok().unwrap();
    c.push_chunk(chunk("why", "")).ok().unwrap();
    c.push_user("second".to_owned());
    let chat = c.session_chat(vec![]);
    let last = chat.messages.last().unwrap();
    assert_eq!(last.role, Some(MessageRole::User));
    assert_eq!(last.content, "second");
    assert_eq!(chat.messages.len(), 3);
}

#[test]
fn tool_answer_follows_its_call_at_the_end() {
    let mut c = new_conversation(Some("sys"));
    c.push_user("list".to_owned());
    c.push_tool_call(ToolCall { id: "t7".to_owned(), function: "ListFiles".to_owned(), arguments: json("{}") });
    c.push_tool_response("t7".to_owned(), "a.txt".to_owned());
    let chat = c.session_chat(vec![]);
    let n = chat.messages.len();
    assert_eq!(chat.messages[n - 2].role, Some(MessageRole::Assistant));
    assert_eq!(chat.messages[n - 2].tool_calls[0].id, "t7");
    assert_eq!(chat.messages[n - 2].tool_calls[0].function.name, "ListFiles");
    assert_eq!(chat.messages[n - 2].tool_calls[0].function.arguments, "{}");
    assert_eq!(chat.messages[n - 1].role, Some(MessageRole::Tool));
    assert_eq!(chat.messages[n - 1].content, "a.txt");
    assert_eq!(chat.messages[n - 1].tool_call_id.as_deref(), Some("t7"));
}

#[test]
fn identical_calls_come_back_once_each() {
    let mut buffer = ToolCallBuffer::new();
    buffer.push(Some(vec![
        fragment(0, "x", "Read", "{}"),
        fragment(1, "x", "Read", "{}"),
        fragment(2, "y", "Bash", "{\"command\":\"ls\"}"),
    ]));
    let calls = buffer.take();
    assert_eq!(calls.len(), 3);
    assert_eq!(calls.iter().filter(|c| c.id == "x" && c.function == "Read").count(), 2);
    assert_eq!(calls.iter().filter(|c| c.id == "y" && c.function == "Bash").count(), 1);
    assert!(buffer.take().is_empty());
}
