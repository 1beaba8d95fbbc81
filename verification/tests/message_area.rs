use beardpilot::chat::conversation::{Conversation, LocalMessage, ModelInfo};
use beardpilot::ui::message_area::{DisplayLine, LineKind, TuiMainArea};

fn lines_text(lines: &[DisplayLine]) -> Vec<String> {
    lines
        .iter()
        .map(|l| match l {
            DisplayLine::First { prefix, text, .. } => format!("{}{}", prefix, text),
            DisplayLine::Continuation { indent, text, .. } => format!("{}{}", indent, text),
            DisplayLine::Blank => String::new(),
        })
        .collect()
}

#[test]
fn soft_wrap_cuts_long_lines() {
    assert_eq!(TuiMainArea::soft_wrap("abcdef", 4), vec!["abcd", "ef"]);
    assert_eq!(TuiMainArea::soft_wrap("abcd", 4), vec!["abcd"]);
    assert_eq!(TuiMainArea::soft_wrap("abcdefgh", 4), vec!["abcd", "efgh"]);
}

#[test]
fn soft_wrap_keeps_newlines_and_empty_lines() {
    assert_eq!(TuiMainArea::soft_wrap("a\n\nbc", 1), vec!["a", "", "b", "c"]);
    assert_eq!(TuiMainArea::soft_wrap("line\n", 10), vec!["line", ""]);
    assert_eq!(TuiMainArea::soft_wrap("", 3), vec![""]);
}

#[test]
fn soft_wrap_counts_characters_not_bytes() {
    assert_eq!(TuiMainArea::soft_wrap("ñañaña", 2), vec!["ña", "ña", "ña"]);
}

#[test]
fn soft_wrap_pieces_rejoin_to_text() {
    let text = "one two three\nfour\n\nfive six";
    let pieces = TuiMainArea::soft_wrap(text, 3);
    assert!(pieces.iter().all(|p| p.chars().count() <= 3));
    let joined: String = pieces.concat();
    assert_eq!(joined, text.replace('\n', ""));
}

#[test]
fn scroll_down_stops_at_last_line() {
    let mut area = TuiMainArea::default();
    area.record_render(12, 30);
    assert_eq!(area.messages_area_height(), 10);
    assert_eq!(area.total_messages_lines(), 30);
    area.scroll_down(15);
    assert_eq!(area.scroll(), 15);
    area.scroll_down(15);
    assert_eq!(area.scroll(), 20);
    area.scroll_up(7);
    assert_eq!(area.scroll(), 13);
    area.scroll_up(100);
    assert_eq!(area.scroll(), 0);
}

#[test]
fn scroll_to_bottom_shows_last_lines() {
    let mut area = TuiMainArea::default();
    area.record_render(7, 9);
    area.scroll_to_bottom();
    assert_eq!(area.scroll(), 4);
    area.scroll_to_bottom();
    assert_eq!(area.scroll(), 4);
    area.record_render(1, 9);
    assert_eq!(area.messages_area_height(), 0);
    area.scroll_to_bottom();
    assert_eq!(area.scroll(), 9);
}

#[test]
fn scroll_with_fewer_lines_than_rows_stays_at_top() {
    let mut area = TuiMainArea::default();
    area.record_render(20, 5);
    area.scroll_down(3);
    assert_eq!(area.scroll(), 0);
}

#[test]
fn line_count_is_kept_modulo_u16() {
    let mut area = TuiMainArea::default();
    area.record_render(10, 70_000);
    assert_eq!(area.total_messages_lines(), 4464);
}

#[test]
fn message_line_wraps_after_prefix() {
    let msg = LocalMessage::User("hello world".to_owned());
    let lines = TuiMainArea::build_message_line(&msg, 12);
    assert_eq!(lines.len(), 3);
    match &lines[0] {
        DisplayLine::First { kind, prefix, text } => {
            assert_eq!(*kind, LineKind::User);
            assert_eq!(prefix, "You  \u{2502} ");
            assert_eq!(text, "hello");
        }
        _ => panic!("first line expected"),
    }
    assert_eq!(
        lines_text(&lines),
        vec!["You  \u{2502} hello", "        worl", "       d"]
    );
}

#[test]
fn message_line_in_narrow_pane_uses_one_column() {
    let msg = LocalMessage::Info("ab".to_owned());
    let lines = TuiMainArea::build_message_line(&msg, 3);
    assert_eq!(lines_text(&lines), vec!["Info \u{2502} a", "       b"]);
    match &lines[1] {
        DisplayLine::Continuation { kind, .. } => assert_eq!(*kind, LineKind::Info),
        _ => panic!("continuation expected"),
    }
}

#[test]
fn message_lines_end_each_message_with_blank() {
    let mut conversation = Conversation::new(None, ModelInfo::new("m", None));
    conversation.push_user("hi".to_owned());
    conversation.push_user("there".to_owned());
    let lines = TuiMainArea::build_message_lines(&conversation, 40);
    assert_eq!(
        lines_text(&lines),
        vec!["You  \u{2502} hi", "", "You  \u{2502} there", ""]
    );
}

#[test]
fn tool_response_lines_use_tool_prefix() {
    let msg = LocalMessage::ToolResponse {
        id: "1".to_owned(),
        response: "ok".to_owned(),
    };
    let lines = TuiMainArea::build_message_line(&msg, 40);
    assert_eq!(lines_text(&lines), vec!["Tool \u{2502} ok"]);
}

#[test]
fn soft_wrap_of_empty_lines_needs_no_width() {
    assert_eq!(TuiMainArea::soft_wrap("\n\n", 0), vec!["", "", ""]);
    assert_eq!(TuiMainArea::soft_wrap("", 0), vec![""]);
}
