use beardpilot::chat::command::{CommandOutput, SlashCommand};
use beardpilot::chat::command_registry::CommandRegistry;
use beardpilot::chat::tool_registry::{find_tool, SubmitAction, ToolCall, ToolCallQueue};
use beardpilot::error::AppError;
use beardpilot::commands::help::HelpCommand;

fn call(id: &str, name: &str, arguments: serde_json::Value) -> ToolCall {
    ToolCall { id: id.to_owned(), function: name.to_owned(), arguments }
}

fn json(text: &str) -> serde_json::Value {
    serde_json::from_str(text).unwrap()
}

#[test]
fn help_command_starts_and_finishes() {
    let mut registry = CommandRegistry::new();
    assert!(registry.handle_input("x".to_owned()).is_none());
    match registry.activate("help", "") {
        CommandOutput::Info(text) => assert_eq!(text, "This is Beardpilot help :)"),
        CommandOutput::Finished => panic!("info expected"),
    }
    assert!(matches!(registry.handle_input("anything".to_owned()), Some(CommandOutput::Finished)));
    assert!(registry.handle_input("again".to_owned()).is_none());
}

#[test]
fn unknown_command_is_reported() {
    let mut registry = CommandRegistry::new();
    match registry.activate("foo", "bar") {
        CommandOutput::Info(text) => assert_eq!(text, "Unknown command: foo"),
        CommandOutput::Finished => panic!("info expected"),
    }
    assert!(registry.handle_input("x".to_owned()).is_none());
}

#[test]
fn help_command_texts() {
    let mut help = HelpCommand;
    assert_eq!(help.get_name(), "help");
    assert_eq!(help.get_text(), "This is Beardpilot help :)");
    assert!(matches!(help.handle_input(String::new()), CommandOutput::Finished));
}

#[test]
fn queue_is_first_in_first_out() {
    let mut queue = ToolCallQueue::new();
    assert!(queue.peek_pending_calls().is_none());
    queue.queue_tool_calls(vec![call("1", "Read", json("{}")), call("2", "Bash", json("{}"))]);
    assert_eq!(queue.peek_pending_calls().map(|c| c.id.clone()), Some("1".to_owned()));
    assert_eq!(queue.pop_pending_call().map(|c| c.id), Some("1".to_owned()));
    assert_eq!(queue.pop_pending_call().map(|c| c.id), Some("2".to_owned()));
    assert!(queue.pop_pending_call().is_none());
}

#[test]
fn answer_runs_declines_or_sends() {
    let mut queue = ToolCallQueue::new();
    queue.queue_tool_calls(vec![call("1", "Read", json("{}")), call("2", "Bash", json("{}"))]);
    assert!(matches!(queue.answer_pending("y".to_owned()), SubmitAction::RunTool(c) if c.id == "1"));
    assert!(matches!(queue.answer_pending("no".to_owned()), SubmitAction::Declined));
    assert!(matches!(queue.answer_pending("hello".to_owned()), SubmitAction::UserMessage(t) if t == "hello"));
}

#[test]
fn tool_call_display_and_message() {
    let c = call("c9", "Read", json(r#"{"path": "a \"b\".txt", "lines": 3}"#));
    assert_eq!(c.to_display_string(), "Read(path=\"a \\\"b\\\".txt\", lines=3)");
    let m = c.to_tool_call_message();
    assert_eq!(m.id, "c9");
    assert_eq!(m.index, 0);
    assert_eq!(m.function.index, None);
    assert_eq!(m.function.name, "Read");
    assert_eq!(m.function.arguments, "{\"path\":\"a \\\"b\\\".txt\",\"lines\":3}");
    let plain = call("c1", "Bash", json(r#""ls""#));
    assert_eq!(plain.to_display_string(), "Bash()");
}

#[test]
fn tool_call_display_shows_other_values_as_json() {
    let c = call("c2", "Find", json(r#"{"n": null, "list": [1, "a"], "flag": true}"#));
    assert_eq!(c.to_display_string(), "Find(n=null, list=[1,\"a\"], flag=true)");
    assert_eq!(c.to_tool_call_message().function.arguments, "{\"n\":null,\"list\":[1,\"a\"],\"flag\":true}");
}

#[test]
fn help_finishes_on_next_input_and_is_dropped() {
    let mut registry = CommandRegistry::new();
    registry.activate("help", "ignored");
    assert!(matches!(registry.handle_input("a".to_owned()), Some(CommandOutput::Finished)));
    assert!(registry.handle_input("b".to_owned()).is_none());
}

#[test]
fn tools_are_found_by_name() {
    let names = vec!["Read".to_owned(), "Find".to_owned(), "Read".to_owned()];
    assert_eq!(find_tool(&names, "Read").ok(), Some(0));
    assert_eq!(find_tool(&names, "Find").ok(), Some(1));
    match find_tool(&names, "Write") {
        Err(AppError::ToolError(m)) => assert_eq!(m, "Invalid tool: Write"),
        _ => panic!("tool error expected"),
    }
}
