use beardpilot::ui::input::TextInput;

fn typed(text: &str) -> TextInput {
    let mut input = TextInput::new();
    for c in text.chars() {
        input.insert(c);
    }
    input
}

#[test]
fn insert_appends_at_cursor_and_counts_characters() {
    let input = typed("héllo");
    assert_eq!(input.as_str(), "héllo");
    assert_eq!(input.cursor(), 5);
}

#[test]
fn insert_in_the_middle_of_multibyte_text() {
    let mut input = typed("añb");
    input.move_left();
    input.insert('ü');
    assert_eq!(input.as_str(), "añüb");
    assert_eq!(input.cursor(), 3);
}

#[test]
fn backspace_undoes_insert() {
    let mut input = typed("día");
    input.move_left();
    let before = input.as_str().to_owned();
    let cursor = input.cursor();
    input.insert('x');
    input.delete_before();
    assert_eq!(input.as_str(), before);
    assert_eq!(input.cursor(), cursor);
}

#[test]
fn delete_after_insert_and_left_restores() {
    let mut input = typed("abc");
    input.move_start();
    input.move_right();
    input.insert('Z');
    input.move_left();
    input.delete_after();
    assert_eq!(input.as_str(), "abc");
    assert_eq!(input.cursor(), 1);
}

#[test]
fn backspace_at_start_does_nothing() {
    let mut input = typed("ab");
    input.move_start();
    input.delete_before();
    assert_eq!(input.as_str(), "ab");
    assert_eq!(input.cursor(), 0);
}

#[test]
fn delete_at_end_does_nothing() {
    let mut input = typed("ab");
    input.delete_after();
    assert_eq!(input.as_str(), "ab");
    assert_eq!(input.cursor(), 2);
}

#[test]
fn cursor_movement_stays_in_text() {
    let mut input = typed("xy");
    input.move_right();
    assert_eq!(input.cursor(), 2);
    input.move_left();
    input.move_left();
    input.move_left();
    assert_eq!(input.cursor(), 0);
    input.move_end();
    assert_eq!(input.cursor(), 2);
    input.move_start();
    assert_eq!(input.cursor(), 0);
}

#[test]
fn click_accounts_for_prompt_and_clamps() {
    let mut input = typed("hello");
    input.set_cursor_from_click(0);
    assert_eq!(input.cursor(), 0);
    input.set_cursor_from_click(1);
    assert_eq!(input.cursor(), 0);
    input.set_cursor_from_click(4);
    assert_eq!(input.cursor(), 2);
    input.set_cursor_from_click(100);
    assert_eq!(input.cursor(), 5);
}

#[test]
fn take_returns_text_and_resets() {
    let mut input = typed("send me");
    let text = input.take();
    assert_eq!(text, "send me");
    assert_eq!(input.as_str(), "");
    assert_eq!(input.cursor(), 0);
}

#[test]
fn default_input_is_empty() {
    let input = TextInput::default();
    assert_eq!(input.as_str(), "");
    assert_eq!(input.cursor(), 0);
}
