use swapbytes::command::Command;
use swapbytes::names::NameSet;
use swapbytes::text::{
    debug_text, decimal_text, is_white_space, join_from, same_text, split_words, strip_prefix,
};
use swapbytes::text_map::TextMap;

fn strings(parts: &[&str]) -> Vec<String> {
    parts.iter().map(|part| part.to_string()).collect()
}

#[test]
fn white_space_is_that_of_unicode() {
    for c in '\0'..=char::MAX {
        assert_eq!(is_white_space(c), c.is_whitespace(), "{:?}", c);
    }
}

#[test]
fn words_are_split_at_any_white_space() {
    for line in [
        "",
        "   ",
        "/msg",
        "/msg hello, everyone!",
        "  /dm\tTriste   Hi,  Triste \n",
        "a\u{a0}b\u{3000}c\u{200b}d",
        "\u{1f600} smile",
    ] {
        let expected: Vec<String> = line.split_whitespace().map(|w| w.to_string()).collect();
        assert_eq!(split_words(line), expected, "{:?}", line);
    }
    assert_eq!(split_words("  one two  "), strings(&["one", "two"]));
}

#[test]
fn parts_are_joined_from_an_index_on() {
    let parts = strings(&["/msg", "hello", "there"]);
    assert_eq!(join_from(&parts, 1, " "), "hello there");
    assert_eq!(join_from(&parts, 2, " "), "there");
    assert_eq!(join_from(&parts, 3, " "), "");
    assert_eq!(join_from(&parts, 0, ", "), "/msg, hello, there");
}

#[test]
fn joined_words_are_found_again() {
    let words = strings(&["a", "bc", "d"]);
    assert_eq!(split_words(&join_from(&words, 0, " ")), words);
}

#[test]
fn numbers_are_written_in_decimal() {
    for n in [0, 7, 9, 10, 99, 100, 65535, 1234567890, u64::MAX] {
        assert_eq!(decimal_text(n), n.to_string());
    }
    assert_eq!(decimal_text(1024), "1024");
}

#[test]
fn debug_text_quotes_and_escapes() {
    assert_eq!(debug_text("/ip4/127.0.0.1/tcp/50001"), "\"/ip4/127.0.0.1/tcp/50001\"");
    assert_eq!(debug_text("it's"), "\"it's\"");
    assert_eq!(debug_text("a\"b\\c\n"), "\"a\\\"b\\\\c\\n\"");
    for c in ' '..='~' {
        if c != '"' && c != '\\' {
            assert_eq!(debug_text(&c.to_string()), format!("\"{}\"", c));
        }
    }
}

#[test]
fn texts_are_compared_by_their_characters() {
    assert!(same_text("room1", "room1"));
    assert!(!same_text("room1", "room"));
    assert!(!same_text("room1", "Room1"));
}

#[test]
fn a_set_of_names_keeps_the_first_order() {
    let mut names = NameSet::new();
    assert!(names.insert("b".to_string()));
    assert!(names.insert("a".to_string()));
    assert!(!names.insert("b".to_string()));
    assert!(names.insert("c".to_string()));
    assert_eq!(names.join(", "), "b, a, c");
    assert!(names.contains("a"));
    assert!(names.remove("a"));
    assert!(!names.remove("a"));
    assert!(!names.contains("a"));
    assert_eq!(names.join(", "), "b, c");
}

#[test]
fn a_map_keeps_the_place_of_a_key() {
    let mut map = TextMap::new();
    assert_eq!(map.len(), 0);
    assert_eq!(map.get("x"), None);
    map.insert("x".to_string(), "1".to_string());
    map.insert("y".to_string(), "2".to_string());
    map.insert("x".to_string(), "3".to_string());
    assert_eq!(map.len(), 2);
    assert_eq!(map.get("x"), Some("3"));
    assert_eq!(map.get("y"), Some("2"));
    assert_eq!(map.entry(0), ("x", "3"));
    assert_eq!(map.entry(1), ("y", "2"));
}

#[test]
fn commands_are_read() {
    assert!(matches!(
        Command::parse("/msg hello,   everyone!"),
        Command::Message { content } if content == "hello, everyone!"
    ));
    assert!(matches!(
        Command::parse("/dm Triste Hi, Triste"),
        Command::Direct { recipient, content } if recipient == "Triste" && content == "Hi, Triste"
    ));
    assert!(matches!(
        Command::parse("/propose test.docx now"),
        Command::Propose { filename } if filename == "test.docx"
    ));
    assert!(matches!(
        Command::parse("/get Alice test.docx more"),
        Command::Get { nickname, filename } if nickname == "Alice" && filename == "test.docx"
    ));
    assert!(matches!(
        Command::parse("/create_room room1"),
        Command::CreateRoom { room } if room == "room1"
    ));
    assert!(matches!(
        Command::parse("/join_room room1"),
        Command::JoinRoom { room } if room == "room1"
    ));
    assert!(matches!(
        Command::parse(" /leave_room room1"),
        Command::LeaveRoom { room } if room == "room1"
    ));
    assert!(matches!(Command::parse("/list_rooms please"), Command::ListRooms));
    assert!(matches!(
        Command::parse("/room room1 Hi, room1!"),
        Command::RoomMessage { room, content } if room == "room1" && content == "Hi, room1!"
    ));
}

#[test]
fn commands_with_words_missing_are_explained() {
    for (line, expected) in [
        ("/msg", "Usage: /msg <message>"),
        ("/dm Triste", "Usage: /dm <recipient> <message>"),
        ("/propose", "Usage: /propose <filename>"),
        ("/get test.docx", "Usage: /get <peer_nickname> <filename>"),
        ("/create_room", "Usage: /create_room <room_name>"),
        ("/join_room  ", "Usage: /join_room <room_name>"),
        ("/leave_room", "Usage: /leave_room <room_name>"),
        ("/room room1", "Usage: /room <room_name> <message>"),
    ] {
        match Command::parse(line) {
            Command::Usage { text } => assert_eq!(text, expected),
            _ => panic!("{:?}", line),
        }
    }
}

#[test]
fn other_lines_are_no_commands() {
    for line in ["", "   ", "hello", "msg hello", "/MSG hello", "/msgs hello"] {
        assert!(matches!(Command::parse(line), Command::Unknown), "{:?}", line);
    }
}

#[test]
fn a_prefix_is_taken_off() {
    let texts = ["", "a", "ab", "abc", "b", "\u{e9}t\u{e9}", "\u{e9}"];
    for text in texts {
        for prefix in texts {
            assert_eq!(
                strip_prefix(text, prefix),
                text.strip_prefix(prefix).map(|rest| rest.to_string())
            );
        }
    }
}
