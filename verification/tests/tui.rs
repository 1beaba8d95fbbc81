use beardpilot::chat::conversation::{ModelInfo, ResponseStatus};
use beardpilot::event::UiAction;
use beardpilot::ui::tui::{
    build_model_status, split_layout, Area, Event, KeyCode, KeyEvent, MouseEvent,
    MouseEventKind, Tui, TuiInput,
};

fn key(code: KeyCode) -> Event {
    Event::Key(KeyEvent { code, control: false, other_modifiers: false })
}

fn ctrl(code: KeyCode) -> Event {
    Event::Key(KeyEvent { code, control: true, other_modifiers: false })
}

fn type_text(tui: &mut Tui, text: &str) {
    for c in text.chars() {
        assert!(matches!(tui.handle_event(key(KeyCode::Char(c))), UiAction::Consumed));
    }
}

#[test]
fn enter_submits_trimmed_text() {
    let mut tui = Tui::new();
    type_text(&mut tui, "  hola \u{3000}");
    match tui.handle_event(key(KeyCode::Enter)) {
        UiAction::Submit(text) => assert_eq!(text, "hola"),
        _ => panic!("submit expected"),
    }
    assert_eq!(tui.input.as_str(), "");
}

#[test]
fn enter_on_blank_input_is_consumed() {
    let mut tui = Tui::new();
    type_text(&mut tui, "   ");
    assert!(matches!(tui.handle_event(key(KeyCode::Enter)), UiAction::Consumed));
    assert_eq!(tui.input.as_str(), "");
}

#[test]
fn ctrl_c_and_ctrl_q_quit() {
    let mut tui = Tui::new();
    assert!(matches!(tui.handle_event(ctrl(KeyCode::Char('c'))), UiAction::Quit));
    assert!(matches!(tui.handle_event(ctrl(KeyCode::Char('q'))), UiAction::Quit));
    assert_eq!(tui.input.as_str(), "");
}

#[test]
fn ctrl_with_other_modifier_types_the_letter() {
    let mut tui = Tui::new();
    let event = Event::Key(KeyEvent { code: KeyCode::Char('c'), control: true, other_modifiers: true });
    assert!(matches!(tui.handle_event(event), UiAction::Consumed));
    assert_eq!(tui.input.as_str(), "c");
}

#[test]
fn editing_keys_move_and_delete() {
    let mut tui = Tui::new();
    type_text(&mut tui, "abcd");
    tui.handle_event(key(KeyCode::Left));
    tui.handle_event(key(KeyCode::Backspace));
    assert_eq!(tui.input.as_str(), "abd");
    tui.handle_event(ctrl(KeyCode::Left));
    assert_eq!(tui.input.cursor(), 0);
    tui.handle_event(key(KeyCode::Delete));
    assert_eq!(tui.input.as_str(), "bd");
    tui.handle_event(ctrl(KeyCode::Right));
    assert_eq!(tui.input.cursor(), 2);
    tui.handle_event(key(KeyCode::Home));
    assert_eq!(tui.input.cursor(), 0);
    tui.handle_event(key(KeyCode::End));
    assert_eq!(tui.input.cursor(), 2);
    tui.handle_event(key(KeyCode::Right));
    assert_eq!(tui.input.cursor(), 2);
}

#[test]
fn arrow_and_page_keys_scroll() {
    let mut tui = Tui::new();
    tui.message_area.record_render(12, 50);
    tui.handle_event(key(KeyCode::PageDown));
    assert_eq!(tui.message_area.scroll(), 10);
    tui.handle_event(key(KeyCode::Down));
    assert_eq!(tui.message_area.scroll(), 13);
    tui.handle_event(key(KeyCode::Up));
    assert_eq!(tui.message_area.scroll(), 10);
    tui.handle_event(key(KeyCode::PageUp));
    assert_eq!(tui.message_area.scroll(), 0);
    tui.scroll_to_bottom();
    assert_eq!(tui.message_area.scroll(), 40);
}

#[test]
fn layout_gives_input_the_bottom_four_rows() {
    let screen = Area { x: 0, y: 0, width: 80, height: 24 };
    let (msgs, notif, input) = split_layout(screen, false);
    assert_eq!(msgs, Area { x: 0, y: 0, width: 80, height: 20 });
    assert!(notif.is_none());
    assert_eq!(input, Area { x: 0, y: 20, width: 80, height: 4 });
    let (msgs, notif, input) = split_layout(screen, true);
    assert_eq!(msgs, Area { x: 0, y: 0, width: 80, height: 17 });
    assert_eq!(notif, Some(Area { x: 0, y: 17, width: 80, height: 3 }));
    assert_eq!(input, Area { x: 0, y: 20, width: 80, height: 4 });
}

#[test]
fn click_in_input_box_moves_cursor() {
    let mut tui = Tui::new();
    tui.set_screen_size(80, 24);
    type_text(&mut tui, "hello");
    let click = MouseEvent { kind: MouseEventKind::LeftDown, column: 5, row: 21 };
    tui.handle_event(Event::Mouse(click));
    assert_eq!(tui.input.cursor(), 2);
    let outside = MouseEvent { kind: MouseEventKind::LeftDown, column: 1, row: 3 };
    tui.handle_event(Event::Mouse(outside));
    assert_eq!(tui.input.cursor(), 2);
}

#[test]
fn wheel_scrolls_only_over_messages() {
    let mut tui = Tui::new();
    tui.set_screen_size(80, 24);
    tui.message_area.record_render(20, 60);
    tui.handle_event(Event::Mouse(MouseEvent { kind: MouseEventKind::ScrollDown, column: 3, row: 5 }));
    assert_eq!(tui.message_area.scroll(), 3);
    tui.handle_event(Event::Mouse(MouseEvent { kind: MouseEventKind::ScrollDown, column: 3, row: 22 }));
    assert_eq!(tui.message_area.scroll(), 3);
    tui.handle_event(Event::Mouse(MouseEvent { kind: MouseEventKind::ScrollUp, column: 3, row: 19 }));
    assert_eq!(tui.message_area.scroll(), 0);
}

#[test]
fn areas_follow_screen_size() {
    let mut tui = Tui::new();
    tui.set_screen_size(100, 30);
    assert_eq!(tui.messages_area(), Area { x: 0, y: 0, width: 100, height: 26 });
    assert_eq!(tui.input_area(), Area { x: 0, y: 26, width: 100, height: 4 });
    assert_eq!(tui.input_area().bottom(), 30);
    assert_eq!(tui.input_area().right(), 100);
}

#[test]
fn model_status_label() {
    assert_eq!(build_model_status(&ModelInfo::new("qwen", Some(100))), " model: qwen  \u{2502}  max tokens: 100 ");
    assert_eq!(build_model_status(&ModelInfo::new("qwen", None)), " model: qwen ");
}

#[test]
fn input_title_follows_status() {
    assert_eq!(TuiInput::title(ResponseStatus::ReceiveResponse), " reading ");
    assert_eq!(TuiInput::title(ResponseStatus::Thinking), " thinking ");
    assert_eq!(TuiInput::title(ResponseStatus::Waiting), " message ");
}

#[test]
fn cursor_position_is_clamped_to_box() {
    let inner = Area { x: 1, y: 21, width: 10, height: 1 };
    assert_eq!(TuiInput::cursor_position(inner, 3), (6, 21));
    assert_eq!(TuiInput::cursor_position(inner, 40), (10, 21));
}

#[test]
fn layout_on_offset_area_at_its_least_height() {
    let area = Area { x: 2, y: 5, width: 30, height: 7 };
    let (msgs, notif, input) = split_layout(area, false);
    assert_eq!(msgs, Area { x: 2, y: 5, width: 30, height: 3 });
    assert!(notif.is_none());
    assert_eq!(input, Area { x: 2, y: 8, width: 30, height: 4 });
    let area = Area { x: 2, y: 5, width: 30, height: 10 };
    let (msgs, notif, input) = split_layout(area, true);
    assert_eq!(msgs, Area { x: 2, y: 5, width: 30, height: 3 });
    assert_eq!(notif, Some(Area { x: 2, y: 8, width: 30, height: 3 }));
    assert_eq!(input, Area { x: 2, y: 11, width: 30, height: 4 });
}
