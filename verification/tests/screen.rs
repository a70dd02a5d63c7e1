use swapbytes::screen::{help_line, Area, Areas, INPUT_TITLE, MESSAGES_TITLE, SELECTION_MARK};

fn area(x: u16, y: u16, width: u16, height: u16) -> Area {
    Area { x, y, width, height }
}

#[test]
fn a_screen_is_divided_in_three() {
    let areas = Areas::of(area(0, 0, 80, 24));
    assert_eq!(areas.help, area(2, 2, 76, 1));
    assert_eq!(areas.messages, area(2, 3, 76, 16));
    assert_eq!(areas.input, area(2, 19, 76, 3));
    let areas = Areas::of(area(7, 5, 4, 9));
    assert_eq!(areas.help, area(9, 7, 0, 1));
    assert_eq!(areas.messages, area(9, 8, 0, 1));
    assert_eq!(areas.input, area(9, 9, 0, 3));
}

#[test]
fn a_high_screen_gives_its_room_to_the_messages() {
    for height in 9..400 {
        for x in [0, 1, 100] {
            let areas = Areas::of(area(x, 3, 20, height));
            assert_eq!(areas.help, area(x + 2, 5, 16, 1));
            assert_eq!(areas.messages, area(x + 2, 6, 16, height - 8));
            assert_eq!(areas.input, area(x + 2, height - 2, 16, 3));
        }
    }
}

#[test]
fn a_low_screen_keeps_a_row_for_the_messages() {
    for height in 4..9 {
        // Each width is a layout of its own.
        for width in 4..200 {
            let Areas { help, messages, input } = Areas::of(area(1, 1, width, height));
            let rows = height - 4;
            for part in [help, messages, input] {
                assert_eq!((part.x, part.width), (3, width - 4));
            }
            assert_eq!(help.y, 3);
            assert_eq!(messages.y, help.y + help.height);
            assert_eq!(input.y, messages.y + messages.height);
            assert_eq!(input.y + input.height, 3 + rows);
            assert_eq!(messages.height, rows.min(1));
            assert!(help.height <= 1);
            assert!(input.height <= 3);
        }
    }
}

#[test]
fn a_screen_without_room_has_empty_areas() {
    for (width, height) in [(0, 0), (3, 24), (80, 3)] {
        let areas = Areas::of(area(6, 6, width, height));
        for part in [areas.help, areas.messages, areas.input] {
            assert_eq!(part, area(0, 0, 0, 0));
        }
    }
}

#[test]
fn a_screen_at_the_edge_can_be_divided() {
    assert!(Areas::can_divide(area(0, 0, u16::MAX, u16::MAX)));
    let areas = Areas::of(area(0, 0, u16::MAX, u16::MAX));
    assert_eq!(areas.messages, area(2, 3, u16::MAX - 4, u16::MAX - 8));
    let screen = area(u16::MAX - 8, 0, 10, 20);
    assert!(Areas::can_divide(screen));
    assert_eq!(Areas::of(screen).input, area(u16::MAX - 6, 15, 6, 3));
    assert!(!Areas::can_divide(area(u16::MAX - 7, 0, 10, 20)));
    // The rows below the largest number are cut off.
    let screen = area(0, u16::MAX - 12, 10, 50);
    assert!(Areas::can_divide(screen));
    let areas = Areas::of(screen);
    assert_eq!(areas.help, area(2, u16::MAX - 10, 6, 1));
    assert_eq!(areas.messages, area(2, u16::MAX - 9, 6, 6));
    assert_eq!(areas.input, area(2, u16::MAX - 3, 6, 3));
    assert!(!Areas::can_divide(area(0, u16::MAX - 1, 10, 50)));
    assert!(Areas::can_divide(area(u16::MAX, u16::MAX, 3, 50)));
}

#[test]
fn the_help_line_names_the_keys() {
    let pieces = help_line();
    let line: String = pieces.iter().map(|p| p.text.as_str()).collect();
    assert_eq!(
        line,
        "Press Esc to exit, Enter to send message, \u{2191}\u{2193} to scroll messages."
    );
    let bold: Vec<&str> =
        pieces.iter().filter(|p| p.bold).map(|p| p.text.as_str()).collect();
    assert_eq!(bold, ["Esc", "Enter", "\u{2191}\u{2193}"]);
    assert_eq!((MESSAGES_TITLE, INPUT_TITLE, SELECTION_MARK), ("Messages", "Input", "> "));
}
