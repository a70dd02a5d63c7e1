use swapbytes::app::{App, Key, KeyAction};

fn app_with(messages: &[&str]) -> App {
    let mut app = App::new("Alice".to_string());
    for message in messages {
        app.add_message(message.to_string());
    }
    app
}

#[test]
fn the_start_is_empty() {
    let app = app_with(&[]);
    assert_eq!(app.nickname(), "Alice");
    assert_eq!(app.input(), "");
    assert_eq!(app.messages().len(), 0);
    assert_eq!(app.selected(), None);
    assert_eq!(app.room_list(", "), "");
    assert!(!app.has_room("room1"));
}

#[test]
fn the_newest_message_is_selected() {
    let mut app = app_with(&["one"]);
    assert_eq!(app.selected(), Some(0));
    app.add_message("two".to_string());
    assert_eq!(app.selected(), Some(1));
    assert_eq!(app.messages(), &vec!["one".to_string(), "two".to_string()]);
}

#[test]
fn scrolling_stops_at_the_ends() {
    let mut app = app_with(&["one", "two", "three"]);
    app.scroll_messages(1);
    assert_eq!(app.selected(), Some(2));
    app.scroll_messages(-1);
    assert_eq!(app.selected(), Some(1));
    app.scroll_messages(-5);
    assert_eq!(app.selected(), Some(0));
    app.scroll_messages(100);
    assert_eq!(app.selected(), Some(2));
    app.scroll_messages(0);
    assert_eq!(app.selected(), Some(2));
}

#[test]
fn scrolling_without_a_selection_selects_the_first_row() {
    let mut app = app_with(&[]);
    assert!(app.can_scroll(1));
    app.scroll_messages(1);
    assert_eq!(app.selected(), Some(0));
    // There is no last message to stop at.
    assert!(!app.can_scroll(1));
    assert!(!app.can_scroll(0));
    assert!(app.can_scroll(-1));
    app.scroll_messages(-1);
    assert_eq!(app.selected(), Some(0));
}

#[test]
fn scrolling_further_than_numbers_reach_is_not_offered() {
    let app = app_with(&["one", "two"]);
    assert!(!app.can_scroll(i32::MAX));
    assert!(app.can_scroll(i32::MAX - 1));
    assert!(app.can_scroll(i32::MIN));
}

#[test]
fn keys_edit_the_line() {
    let mut app = app_with(&[]);
    for c in "/msg h\u{e9}".chars() {
        assert!(app.press(Key::Char(c)) == KeyAction::Wait);
    }
    assert_eq!(app.input(), "/msg h\u{e9}");
    assert!(app.press(Key::Backspace) == KeyAction::Wait);
    assert_eq!(app.input(), "/msg h");
    assert_eq!(app.take_input(), "/msg h");
    assert_eq!(app.input(), "");
    assert!(app.press(Key::Backspace) == KeyAction::Wait);
    assert_eq!(app.input(), "");
}

#[test]
fn keys_lead_to_actions() {
    let mut app = app_with(&["one", "two"]);
    assert!(app.press(Key::Esc) == KeyAction::Quit);
    assert!(app.press(Key::Enter) == KeyAction::Submit);
    assert!(app.press(Key::Other) == KeyAction::Wait);
    assert!(app.accepts(&Key::Up));
    assert!(app.press(Key::Up) == KeyAction::Wait);
    assert_eq!(app.selected(), Some(0));
    assert!(app.press(Key::Down) == KeyAction::Wait);
    assert_eq!(app.selected(), Some(1));
}

#[test]
fn down_is_not_accepted_on_a_selected_row_that_is_not_there() {
    let mut app = app_with(&[]);
    app.press(Key::Down);
    assert!(!app.accepts(&Key::Down));
    assert!(app.accepts(&Key::Up));
    assert!(app.accepts(&Key::Char('x')));
}

#[test]
fn rows_are_numbered() {
    let mut texts: Vec<String> = Vec::new();
    for i in 0..12 {
        texts.push(format!("m{}", i));
    }
    let parts: Vec<&str> = texts.iter().map(|t| t.as_str()).collect();
    let rows = app_with(&parts).message_rows();
    assert_eq!(rows.len(), 12);
    assert_eq!(rows[0], "0: m0");
    assert_eq!(rows[11], "11: m11");
}

#[test]
fn the_cursor_stands_behind_the_input() {
    let mut app = app_with(&[]);
    assert_eq!(app.cursor(2, 20), (3, 21));
    app.press(Key::Char('a'));
    app.press(Key::Char('\u{e9}'));
    // The length counts bytes.
    assert_eq!(app.cursor(2, 20), (6, 21));
    assert!(app.cursor_fits(2, 20));
    assert!(!app.cursor_fits(u16::MAX - 3, 20));
    assert!(app.cursor_fits(u16::MAX - 4, 20));
    assert!(!app.cursor_fits(2, u16::MAX));
}

#[test]
fn rooms_are_created_joined_and_left() {
    let mut app = app_with(&[]);
    app.create_room("b".to_string());
    app.create_room("a".to_string());
    app.create_room("b".to_string());
    assert_eq!(app.room_list(", "), "b, a");
    assert!(app.has_room("a"));
    assert!(!app.is_member("a"));
    app.join_room("a".to_string());
    assert!(app.is_member("a"));
    assert!(app.leave_room("a"));
    assert!(!app.leave_room("a"));
    assert!(!app.is_member("a"));
    assert!(app.has_room("a"));
}
