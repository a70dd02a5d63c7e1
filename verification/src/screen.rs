//! Where things stand on the screen, and what is written there besides the messages and the input.

use vstd::prelude::*;

verus! {

/// The title of the list of messages.
pub const MESSAGES_TITLE: &'static str = "Messages";

/// The title of the box in which the user types.
pub const INPUT_TITLE: &'static str = "Input";

/// What stands in front of the selected message.
pub const SELECTION_MARK: &'static str = "> ";

/// A rectangle of the screen, in columns and rows.
#[derive(Clone, Copy, Debug, PartialEq, Eq, Structural)]
pub struct Area {
    pub x: u16,
    pub y: u16,
    pub width: u16,
    pub height: u16,
}

/// The three parts of the screen, from top to bottom.
pub struct Areas {
    pub help: Area,
    pub messages: Area,
    pub input: Area,
}

/// What is left of an area when a margin is taken off on each side, by its left, top, right and
/// bottom edges. Of an area that is too small for its margins, nothing is left.
#[verifier::ext_equal]
pub struct Inner {
    pub left: int,
    pub top: int,
    pub right: int,
    pub bottom: int,
}

/// What is left of an area within its margins. The bottom edge is cut off at the largest number
/// of 16 bits.
pub open spec fn inner(area: Area, margin: int) -> Inner {
    if area.width < 2 * margin || area.height < 2 * margin {
        Inner { left: 0, top: 0, right: 0, bottom: 0 }
    } else {
        let bottom = area.y + area.height - margin;
        Inner {
            left: area.x + margin,
            top: area.y + margin,
            right: area.x + area.width - margin,
            bottom: if bottom <= u16::MAX {
                bottom
            } else {
                u16::MAX as int
            },
        }
    }
}

/// The edges of what is left within the margins are numbers of 16 bits.
pub open spec fn divisible(area: Area, margin: int) -> bool {
    &&& 2 * margin <= u16::MAX
    &&& inner(area, margin).right <= u16::MAX
    &&& inner(area, margin).top <= u16::MAX
}

/// Three areas fill what is left within the margins, one below the other. Where there is room, the
/// first and the last have just the rows that they are to have, and the one between has the rest.
/// Otherwise the one between comes first, and the others have no more than they are to have.
pub open spec fn stacked(
    areas: Seq<Area>,
    within: Inner,
    first: int,
    between: int,
    last: int,
) -> bool {
    let height = within.bottom - within.top;
    &&& areas.len() == 3
    &&& forall|i: int|
        0 <= i < 3 ==> (#[trigger] areas[i]).x == within.left && areas[i].width == within.right
            - within.left
    &&& areas[0].y == within.top
    &&& areas[1].y == areas[0].y + areas[0].height
    &&& areas[2].y == areas[1].y + areas[1].height
    &&& areas[2].y + areas[2].height == within.bottom
    &&& if first + between + last <= height {
        areas[0].height == first && areas[2].height == last
    } else {
        &&& areas[0].height <= first
        &&& areas[1].height == if between <= height {
            between
        } else {
            height
        }
        &&& areas[2].height <= last
    }
}

/// `ratatui::layout::Layout::split` from top to bottom, with a first and a last row of fixed
/// length and one of a smallest length between them. The areas fill what is left within the
/// margins. Which of the two rows of fixed length is cut short where there is too little room is
/// not said: it rests on the order in which a hash map is walked.
#[verifier::external_body]
fn split_rows(area: Area, margin: u16, first: u16, between: u16, last: u16) -> (areas: Vec<Area>)
    requires
        divisible(area, margin as int),
    ensures
        stacked(areas@, inner(area, margin as int), first as int, between as int, last as int),
{
    let Area { x, y, width, height } = area;
    ratatui::layout::Layout::default()
        .direction(ratatui::layout::Direction::Vertical)
        .margin(margin)
        .constraints([
            ratatui::layout::Constraint::Length(first),
            ratatui::layout::Constraint::Min(between),
            ratatui::layout::Constraint::Length(last),
        ].as_ref())
        .split(ratatui::layout::Rect { x, y, width, height })
        .iter()
        .map(|r| Area { x: r.x, y: r.y, width: r.width, height: r.height })
        .collect()
}

impl Areas {
    /// The areas divide the screen: within a margin of two, the help line has one row, the input
    /// three, and the messages the rest, at least one.
    pub open spec fn divide(self, screen: Area) -> bool {
        stacked(seq![self.help, self.messages, self.input], inner(screen, 2), 1, 1, 3)
    }

    /// Whether [`Areas::of`] can be called.
    pub fn can_divide(screen: Area) -> (can: bool)
        ensures
            can == divisible(screen, 2),
    {
        screen.width < 4 || screen.height < 4 || (screen.x <= u16::MAX - (screen.width - 2)
            && screen.y <= u16::MAX - 2)
    }

    /// The areas of a screen.
    pub fn of(screen: Area) -> (areas: Areas)
        requires
            divisible(screen, 2),
        ensures
            areas.divide(screen),
    {
        let rows: Vec<Area> = split_rows(screen, 2, 1, 1, 3);
        let areas = Areas { help: rows[0], messages: rows[1], input: rows[2] };
        assert(seq![areas.help, areas.messages, areas.input] =~= rows@);
        areas
    }
}

/// A piece of the help line.
pub struct Piece {
    pub text: String,
    /// Whether it is written in bold.
    pub bold: bool,
}

impl View for Piece {
    type V = (Seq<char>, bool);

    open spec fn view(&self) -> (Seq<char>, bool) {
        (self.text@, self.bold)
    }
}

/// The help line: its pieces, and which of them are bold.
pub open spec fn help() -> Seq<(Seq<char>, bool)> {
    seq![
        ("Press "@, false),
        ("Esc"@, true),
        (" to exit, "@, false),
        ("Enter"@, true),
        (" to send message, "@, false),
        ("↑↓"@, true),
        (" to scroll messages."@, false),
    ]
}

fn piece(text: &str, bold: bool) -> (piece: Piece)
    ensures
        piece@ == (text@, bold),
{
    Piece { text: text.to_string(), bold }
}

/// The help line.
pub fn help_line() -> (pieces: Vec<Piece>)
    ensures
        pieces@.map_values(|p: Piece| p@) == help(),
{
    let mut pieces: Vec<Piece> = Vec::new();
    pieces.push(piece("Press ", false));
    pieces.push(piece("Esc", true));
    pieces.push(piece(" to exit, ", false));
    pieces.push(piece("Enter", true));
    pieces.push(piece(" to send message, ", false));
    pieces.push(piece("↑↓", true));
    pieces.push(piece(" to scroll messages.", false));
    assert(pieces@.map_values(|p: Piece| p@) =~= help());
    pieces
}

/// A screen whose edges are numbers of 16 bits can be divided. With room for it, there is a margin
/// of two on each side, one row of help at the top, three rows of input at the bottom, and the
/// messages have all rows between.
pub proof fn law_messages_have_the_rows_between(areas: Areas, screen: Area)
    requires
        screen.x + screen.width <= u16::MAX,
        screen.y + screen.height <= u16::MAX,
    ensures
        screen.y + 2 <= u16::MAX ==> divisible(screen, 2),
        areas.divide(screen) && screen.width >= 4 && screen.height >= 9 ==> {
            &&& areas.help.x == screen.x + 2 && areas.help.width == screen.width - 4
            &&& areas.messages.x == screen.x + 2 && areas.messages.width == screen.width - 4
            &&& areas.input.x == screen.x + 2 && areas.input.width == screen.width - 4
            &&& areas.help.y == screen.y + 2 && areas.help.height == 1
            &&& areas.messages.y == screen.y + 3 && areas.messages.height == screen.height - 8
            &&& areas.input.y == screen.y + screen.height - 5 && areas.input.height == 3
        },
{
    let parts = seq![areas.help, areas.messages, areas.input];
    assert(parts[0] == areas.help && parts[1] == areas.messages && parts[2] == areas.input);
}

/// With less room the parts still fill it, one below the other, and the messages keep a row as long
/// as there is one.
pub proof fn law_messages_keep_a_row(areas: Areas, screen: Area)
    requires
        screen.x + screen.width <= u16::MAX,
        screen.y + screen.height <= u16::MAX,
        screen.width >= 4,
        4 <= screen.height < 9,
        areas.divide(screen),
    ensures
        screen.height > 4 ==> areas.messages.height == 1,
        areas.help.height <= 1,
        areas.input.height <= 3,
        areas.help.y == screen.y + 2,
        areas.messages.y == areas.help.y + areas.help.height,
        areas.input.y == areas.messages.y + areas.messages.height,
        areas.help.height + areas.messages.height + areas.input.height == screen.height - 4,
{
    let parts = seq![areas.help, areas.messages, areas.input];
    assert(parts[0] == areas.help && parts[1] == areas.messages && parts[2] == areas.input);
}

} // verus!
