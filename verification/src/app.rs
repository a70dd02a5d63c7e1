//! The state behind the user interface: the line being typed, the list of messages with its
//! selection, and the rooms.

use vstd::prelude::*;
use vstd::utf8::{encode_scalar, encode_utf8};

use crate::names::{with_name, NameSet};
use crate::text::{decimal, decimal_text, join, texts};

verus! {

/// Who the user is, and the rooms.
pub struct AppState {
    nickname: String,
    rooms: NameSet,
    joined_rooms: NameSet,
}

/// The state of the application.
pub struct App {
    input: String,
    messages: Vec<String>,
    selected: Option<usize>,
    app_state: AppState,
}

/// The model of an [`App`].
#[verifier::ext_equal]
pub struct AppView {
    /// The line being typed.
    pub input: Seq<char>,
    /// The messages, oldest first.
    pub messages: Seq<Seq<char>>,
    /// The message that is selected.
    pub selected: Option<int>,
    /// The user's nickname.
    pub nickname: Seq<char>,
    /// The rooms that are known, oldest first.
    pub rooms: Seq<Seq<char>>,
    /// The rooms that the user is in.
    pub joined_rooms: Set<Seq<char>>,
}

/// A key.
pub enum Key {
    Esc,
    Enter,
    Char(char),
    Backspace,
    Up,
    Down,
    /// Any other key.
    Other,
}

/// What is to be done after a key.
#[derive(PartialEq, Eq, Structural)]
pub enum KeyAction {
    /// Leave the application.
    Quit,
    /// Handle the line that was typed.
    Submit,
    /// Nothing.
    Wait,
}

/// What is to be done after a key.
pub open spec fn key_action(key: Key) -> KeyAction {
    match key {
        Key::Esc => KeyAction::Quit,
        Key::Enter => KeyAction::Submit,
        _ => KeyAction::Wait,
    }
}

impl AppView {
    /// No room is listed twice, the user is in known rooms only, and the selection is one of the
    /// messages, or the first row while there are none.
    pub open spec fn wf(self) -> bool {
        &&& self.rooms.no_duplicates()
        &&& forall|room: Seq<char>| #[trigger]
            self.joined_rooms.contains(room) ==> self.rooms.contains(room)
        &&& self.selected matches Some(i) ==> 0 <= i && (i < self.messages.len() || i == 0)
    }

    /// The state at the start.
    pub open spec fn started(nickname: Seq<char>) -> AppView {
        AppView {
            input: Seq::empty(),
            messages: Seq::empty(),
            selected: None,
            nickname,
            rooms: Seq::empty(),
            joined_rooms: Set::empty(),
        }
    }

    /// More messages; the newest is selected.
    pub open spec fn noted(self, lines: Seq<Seq<char>>) -> AppView {
        if lines.len() == 0 {
            self
        } else {
            AppView {
                messages: self.messages + lines,
                selected: Some(self.messages.len() + lines.len() - 1),
                ..self
            }
        }
    }

    /// Where the selection would go, in the arithmetic of 32-bit numbers.
    pub open spec fn scroll_goal(self, scroll: int) -> int {
        match self.selected {
            Some(i) => (i as i32) + scroll,
            None => 0,
        }
    }

    /// Scrolling stays within the range of the numbers that it computes with.
    pub open spec fn can_scroll(self, scroll: int) -> bool {
        self.selected is Some ==> {
            let goal = self.scroll_goal(scroll);
            &&& i32::MIN <= goal <= i32::MAX
            &&& 0 <= goal && (self.messages.len() as i32) <= goal ==> self.messages.len() > 0
        }
    }

    /// The selection moved by so many rows, stopped at the first and at the last message. Without
    /// a selection, the first message is selected.
    pub open spec fn scrolled(self, scroll: int) -> AppView {
        let goal = self.scroll_goal(scroll);
        let row = if self.selected is None || goal < 0 {
            0
        } else if (self.messages.len() as i32) <= goal {
            self.messages.len() - 1
        } else {
            goal
        };
        AppView { selected: Some(row), ..self }
    }

    /// The key can be handled.
    pub open spec fn accepts(self, key: Key) -> bool {
        match key {
            Key::Up => self.can_scroll(-1),
            Key::Down => self.can_scroll(1),
            _ => true,
        }
    }

    /// The state after a key.
    pub open spec fn pressed(self, key: Key) -> AppView {
        match key {
            Key::Char(c) => AppView { input: self.input.push(c), ..self },
            Key::Backspace => AppView {
                input: if self.input.len() == 0 {
                    self.input
                } else {
                    self.input.drop_last()
                },
                ..self
            },
            Key::Up => self.scrolled(-1),
            Key::Down => self.scrolled(1),
            _ => self,
        }
    }

    /// The messages as they are listed, each behind its number.
    pub open spec fn rows(self) -> Seq<Seq<char>> {
        self.messages.map(|i: int, message: Seq<char>| decimal(i as nat) + ": "@ + message)
    }

    /// How many columns the cursor stands to the right of the input's border: the length of the
    /// input in bytes, in 16 bits, and one more.
    pub open spec fn cursor_offset(self) -> int {
        (encode_utf8(self.input).len() as usize as int) % 65536 + 1
    }
}

/// From one state to the next the user was told so many lines more: they stand behind the older
/// messages, the last of them is selected, and neither the nickname nor the line that is being
/// typed changed.
pub open spec fn told(before: AppView, after: AppView, lines: Seq<Seq<char>>) -> bool {
    &&& after.messages == before.messages + lines
    &&& lines.len() > 0 ==> after.selected == Some(after.messages.len() - 1)
    &&& lines.len() == 0 ==> after.selected == before.selected
    &&& after.nickname == before.nickname
    &&& after.input == before.input
}

/// From one state to the next neither the known rooms nor those that the user is in changed.
pub open spec fn same_rooms(before: AppView, after: AppView) -> bool {
    &&& after.rooms == before.rooms
    &&& after.joined_rooms == before.joined_rooms
}

/// While the numbers stay in the range of 32 bits, scrolling moves the selection by exactly so
/// many rows, except that it stops at both ends of the list.
pub proof fn law_scrolling_stops_at_the_ends(app: AppView, scroll: int)
    requires
        app.wf(),
        app.selected is Some,
        0 < app.messages.len() <= i32::MAX,
        i32::MIN <= app.selected->0 + scroll <= i32::MAX,
    ensures
        app.can_scroll(scroll),
        app.scrolled(scroll).selected == Some(
            if app.selected->0 + scroll < 0 {
                0
            } else if app.selected->0 + scroll >= app.messages.len() {
                app.messages.len() - 1
            } else {
                app.selected->0 + scroll
            },
        ),
        app.scrolled(scroll).wf(),
{
}

/// A character that was typed is taken back by backspace.
pub proof fn law_backspace_takes_back_a_character(app: AppView, c: char)
    ensures
        app.pressed(Key::Char(c)).pressed(Key::Backspace) == app,
{
    assert(app.input.push(c).drop_last() == app.input);
    assert(app.pressed(Key::Char(c)).pressed(Key::Backspace) =~= app);
}

/// Messages that are noted stand behind the older ones, which stay as they are; the newest one is
/// selected, and nothing else changes.
pub proof fn law_messages_are_only_added(app: AppView, lines: Seq<Seq<char>>)
    requires
        app.wf(),
    ensures
        app.noted(lines).wf(),
        app.messages.is_prefix_of(app.noted(lines).messages),
        app.noted(lines).messages.skip(app.messages.len() as int) == lines,
        lines.len() > 0 ==> app.noted(lines).messages[app.noted(lines).selected->0] == lines.last(),
        lines.len() > 0 ==> app.noted(lines).selected == Some(
            app.noted(lines).messages.len() - 1,
        ),
        lines.len() == 0 ==> app.noted(lines) == app,
        app.noted(lines).input == app.input,
        app.noted(lines).nickname == app.nickname,
        app.noted(lines).rooms == app.rooms,
        app.noted(lines).joined_rooms == app.joined_rooms,
{
    let after = app.noted(lines);
    assert(after.messages == app.messages + lines);
    assert(after.messages.skip(app.messages.len() as int) == lines);
    assert(app.messages.is_prefix_of(after.messages));
}

/// At the start nothing was typed, said or selected, and no room is known; the user has the given
/// nickname.
pub proof fn law_the_start_is_empty(nickname: Seq<char>)
    ensures
        AppView::started(nickname).wf(),
        AppView::started(nickname).nickname == nickname,
        AppView::started(nickname).input.len() == 0,
        AppView::started(nickname).messages.len() == 0,
        AppView::started(nickname).selected is None,
        AppView::started(nickname).rooms.len() == 0,
        forall|room: Seq<char>| !#[trigger]
            AppView::started(nickname).joined_rooms.contains(room),
{
}

/// Without a selection, scrolling by any number of rows selects the first one. In an empty list
/// whose first row is selected, it can only go up, and stays there.
pub proof fn law_scrolling_starts_at_the_first_message(app: AppView, scroll: int)
    ensures
        app.selected is None ==> app.can_scroll(scroll) && app.scrolled(scroll) == (AppView {
            selected: Some(0),
            ..app
        }),
        app.selected == Some(0int) && app.messages.len() == 0 && i32::MIN <= scroll <= i32::MAX
            ==> app.can_scroll(scroll) == (scroll < 0),
        app.selected == Some(0int) && scroll < 0 ==> app.scrolled(scroll) == app,
{
}

/// The arrow keys move the selection to the message just before the selected one, or just behind
/// it, and leave it where there is none; nothing else changes.
pub proof fn law_arrows_move_by_one_message(app: AppView)
    requires
        app.wf(),
        app.selected is Some,
        0 < app.messages.len() <= i32::MAX,
    ensures
        app.accepts(Key::Up),
        app.accepts(Key::Down),
        app.selected->0 > 0 ==> app.pressed(Key::Up) == (AppView {
            selected: Some(app.selected->0 - 1),
            ..app
        }),
        app.selected->0 == 0 ==> app.pressed(Key::Up) == app,
        app.selected->0 + 1 < app.messages.len() ==> app.pressed(Key::Down) == (AppView {
            selected: Some(app.selected->0 + 1),
            ..app
        }),
        app.selected->0 + 1 == app.messages.len() ==> app.pressed(Key::Down) == app,
{
}

/// Between the first and the last message, each arrow key takes the other one back.
pub proof fn law_arrows_take_each_other_back(app: AppView)
    requires
        app.wf(),
        app.selected is Some,
        app.messages.len() <= i32::MAX,
    ensures
        app.selected->0 > 0 ==> app.pressed(Key::Up).pressed(Key::Down) == app,
        app.selected->0 + 1 < app.messages.len() ==> app.pressed(Key::Down).pressed(Key::Up) == app,
{
}

/// Without a selection, each arrow key selects the first message.
pub proof fn law_arrows_start_at_the_first_message(app: AppView)
    requires
        app.selected is None,
    ensures
        app.accepts(Key::Up),
        app.accepts(Key::Down),
        app.pressed(Key::Up) == (AppView { selected: Some(0), ..app }),
        app.pressed(Key::Down) == (AppView { selected: Some(0), ..app }),
{
}

/// A character is put behind the line, backspace takes the last character off, and any other key
/// but the arrows changes nothing. All of them are always accepted.
pub proof fn law_keys_edit_the_line_at_its_end(app: AppView, c: char)
    ensures
        app.pressed(Key::Char(c)) == (AppView { input: app.input + seq![c], ..app }),
        app.input.len() > 0 ==> app.pressed(Key::Backspace) == (AppView {
            input: app.input.take(app.input.len() - 1),
            ..app
        }),
        app.input.len() == 0 ==> app.pressed(Key::Backspace) == app,
        app.pressed(Key::Esc) == app,
        app.pressed(Key::Enter) == app,
        app.pressed(Key::Other) == app,
        forall|key: Key| !(key is Up) && !(key is Down) ==> #[trigger] app.accepts(key),
{
    assert(app.input + seq![c] == app.input.push(c));
    if app.input.len() > 0 {
        assert(app.input.take(app.input.len() - 1) == app.input.drop_last());
    }
}

/// The escape key, and no other, leaves the application; the enter key, and no other, hands the
/// line in.
pub proof fn law_escape_quits_and_enter_submits(key: Key)
    ensures
        key_action(key) == KeyAction::Quit <==> key is Esc,
        key_action(key) == KeyAction::Submit <==> key is Enter,
{
}

/// The state after a line was typed character by character.
pub open spec fn after_typing(app: AppView, line: Seq<char>) -> AppView
    decreases line.len(),
{
    if line.len() == 0 {
        app
    } else {
        after_typing(app, line.drop_last()).pressed(Key::Char(line.last()))
    }
}

/// A line that is typed character by character is the input, behind what was there; nothing else
/// changes.
pub proof fn law_typed_line_is_the_input(app: AppView, line: Seq<char>)
    ensures
        after_typing(app, line) == (AppView { input: app.input + line, ..app }),
    decreases line.len(),
{
    if line.len() == 0 {
        assert(app.input + line == app.input);
    } else {
        law_typed_line_is_the_input(app, line.drop_last());
        assert((app.input + line.drop_last()).push(line.last()) == app.input + line);
    }
}

/// Every message is listed in its place, behind its index and a colon.
pub proof fn law_rows_are_the_numbered_messages(app: AppView)
    ensures
        app.rows().len() == app.messages.len(),
        forall|i: int|
            0 <= i < app.messages.len() ==> #[trigger] app.rows()[i] == decimal(i as nat) + ": "@
                + app.messages[i],
{
}

proof fn lemma_encode_push(chars: Seq<char>, c: char)
    ensures
        encode_utf8(chars.push(c)) == encode_utf8(chars) + encode_scalar(c as u32),
    decreases chars.len(),
{
    let more = chars.push(c);
    if chars.len() == 0 {
        assert(more.drop_first() == Seq::<char>::empty());
        assert(encode_utf8(more) == encode_scalar(c as u32) + encode_utf8(Seq::empty()));
        assert(encode_utf8(more) =~= encode_utf8(chars) + encode_scalar(c as u32));
    } else {
        lemma_encode_push(chars.drop_first(), c);
        assert(more.drop_first() == chars.drop_first().push(c));
        assert(encode_utf8(more) =~= encode_utf8(chars) + encode_scalar(c as u32));
    }
}

/// Before anything is typed the cursor stands one column to the right of the border, and each
/// character that is typed moves it by as many columns as the character has bytes.
pub proof fn law_cursor_moves_with_the_input(app: AppView, c: char)
    requires
        encode_utf8(app.input).len() + encode_scalar(c as u32).len() < 65536,
    ensures
        app.input.len() == 0 ==> app.cursor_offset() == 1,
        app.pressed(Key::Char(c)).cursor_offset() == app.cursor_offset() + encode_scalar(
            c as u32,
        ).len(),
{
    lemma_encode_push(app.input, c);
}

impl View for App {
    type V = AppView;

    closed spec fn view(&self) -> AppView {
        AppView {
            input: self.input@,
            messages: texts(self.messages@),
            selected: match self.selected {
                Some(i) => Some(i as int),
                None => None,
            },
            nickname: self.app_state.nickname@,
            rooms: self.app_state.rooms.order(),
            joined_rooms: self.app_state.joined_rooms@,
        }
    }
}

impl App {
    /// Each set of rooms holds a name once.
    pub closed spec fn inv(&self) -> bool {
        self.app_state.rooms.wf() && self.app_state.joined_rooms.wf()
    }

    /// The state is consistent; every operation keeps it so.
    pub open spec fn wf(&self) -> bool {
        self.inv() && self@.wf()
    }

    /// The state at the start.
    pub fn new(nickname: String) -> (app: App)
        ensures
            app.wf(),
            app@ == AppView::started(nickname@),
    {
        let app = App {
            input: String::new(),
            messages: Vec::new(),
            selected: None,
            app_state: AppState {
                nickname,
                rooms: NameSet::new(),
                joined_rooms: NameSet::new(),
            },
        };
        assert(app@ =~= AppView::started(nickname@));
        app
    }

    /// Whether [`App::scroll_messages`] can be called.
    pub fn can_scroll(&self, scroll: i32) -> (can: bool)
        ensures
            can == self@.can_scroll(scroll as int),
    {
        match self.selected {
            Some(i) => match (i as i32).checked_add(scroll) {
                Some(goal) => goal < 0 || goal < self.messages.len() as i32 || self.messages.len()
                    > 0,
                None => false,
            },
            None => true,
        }
    }

    /// Moves the selection.
    pub fn scroll_messages(&mut self, scroll: i32)
        requires
            old(self).wf(),
            old(self)@.can_scroll(scroll as int),
        ensures
            final(self).wf(),
            final(self)@ == old(self)@.scrolled(scroll as int),
    {
        let count: usize = self.messages.len();
        let new_index: usize = match self.selected {
            Some(i) => {
                let goal: i32 = i as i32 + scroll;
                if goal < 0 {
                    0
                } else if goal >= count as i32 {
                    count - 1
                } else {
                    assert(count as i32 > 0 ==> count as i32 <= count) by (bit_vector);
                    goal as usize
                }
            },
            None => 0,
        };
        self.selected = Some(new_index);
        assert(self@ =~= old(self)@.scrolled(scroll as int));
    }

    /// Adds a message to the list and selects it.
    pub fn add_message(&mut self, message: String)
        requires
            old(self).wf(),
        ensures
            final(self).wf(),
            final(self)@ == old(self)@.noted(seq![message@]),
    {
        let ghost line = message@;
        self.messages.push(message);
        self.selected = Some(self.messages.len() - 1);
        assert(texts(self.messages@) == texts(old(self).messages@) + seq![line]);
        assert(self@ =~= old(self)@.noted(seq![line]));
    }

    /// Whether [`App::press`] can be called.
    pub fn accepts(&self, key: &Key) -> (can: bool)
        ensures
            can == self@.accepts(*key),
    {
        match key {
            Key::Up => self.can_scroll(-1),
            Key::Down => self.can_scroll(1),
            _ => true,
        }
    }

    /// Handles a key.
    pub fn press(&mut self, key: Key) -> (action: KeyAction)
        requires
            old(self).wf(),
            old(self)@.accepts(key),
        ensures
            final(self).wf(),
            final(self)@ == old(self)@.pressed(key),
            action == key_action(key),
    {
        match key {
            Key::Esc => KeyAction::Quit,
            Key::Enter => KeyAction::Submit,
            Key::Char(c) => {
                self.input.push(c);
                assert(self@ =~= old(self)@.pressed(key));
                KeyAction::Wait
            },
            Key::Backspace => {
                self.input.pop();
                assert(self@ =~= old(self)@.pressed(key));
                KeyAction::Wait
            },
            Key::Up => {
                self.scroll_messages(-1);
                KeyAction::Wait
            },
            Key::Down => {
                self.scroll_messages(1);
                KeyAction::Wait
            },
            Key::Other => KeyAction::Wait,
        }
    }

    /// Takes the line that was typed; the input is empty afterwards.
    pub fn take_input(&mut self) -> (line: String)
        requires
            old(self).wf(),
        ensures
            final(self).wf(),
            line@ == old(self)@.input,
            final(self)@ == (AppView { input: Seq::empty(), ..old(self)@ }),
    {
        let line: String = self.input.clone();
        self.input = String::new();
        assert(self@ =~= AppView { input: Seq::empty(), ..old(self)@ });
        line
    }

    /// The line being typed.
    pub fn input(&self) -> (input: &str)
        ensures
            input@ == self@.input,
    {
        self.input.as_str()
    }

    /// The messages, oldest first.
    pub fn messages(&self) -> (messages: &Vec<String>)
        ensures
            texts(messages@) == self@.messages,
    {
        &self.messages
    }

    /// The index of the selected message.
    pub fn selected(&self) -> (selected: Option<usize>)
        ensures
            selected is Some <==> self@.selected is Some,
            selected matches Some(i) ==> self@.selected == Some(i as int),
    {
        self.selected
    }

    /// The messages as they are listed.
    pub fn message_rows(&self) -> (rows: Vec<String>)
        ensures
            texts(rows@) == self@.rows(),
    {
        let mut rows: Vec<String> = Vec::new();
        let mut i: usize = 0;
        while i < self.messages.len()
            invariant
                i <= self.messages.len(),
                texts(rows@) == self@.rows().take(i as int),
            decreases self.messages.len() - i,
        {
            let mut row: String = decimal_text(i as u64);
            row.append(": ");
            row.append(self.messages[i].as_str());
            assert(row@ == self@.rows()[i as int]);
            let ghost before = rows@;
            rows.push(row);
            i = i + 1;
            assert(texts(rows@) == texts(before).push(self@.rows()[i - 1]));
            assert(texts(rows@) == self@.rows().take(i as int));
        }
        assert(self@.rows().take(i as int) == self@.rows());
        rows
    }

    /// The length of the input in bytes, in 16 bits.
    fn input_width(&self) -> (width: u16)
        ensures
            width + 1 == self@.cursor_offset(),
    {
        let bytes: usize = self.input.as_str().len();
        assert(bytes as u16 == bytes % 65536) by (bit_vector);
        bytes as u16
    }

    /// Whether [`App::cursor`] can be called.
    pub fn cursor_fits(&self, x: u16, y: u16) -> (fits: bool)
        ensures
            fits == (x + self@.cursor_offset() <= u16::MAX && y < u16::MAX),
    {
        match x.checked_add(self.input_width()) {
            Some(column) => column < u16::MAX && y < u16::MAX,
            None => false,
        }
    }

    /// Where the cursor stands, for an input whose box has its corner at the given column and row.
    pub fn cursor(&self, x: u16, y: u16) -> (position: (u16, u16))
        requires
            x + self@.cursor_offset() <= u16::MAX,
            y < u16::MAX,
        ensures
            position.0 == x + self@.cursor_offset(),
            position.1 == y + 1,
    {
        (x + self.input_width() + 1, y + 1)
    }

    /// The user's nickname.
    pub fn nickname(&self) -> (nickname: &str)
        ensures
            nickname@ == self@.nickname,
    {
        self.app_state.nickname.as_str()
    }

    /// Whether the room is known.
    pub fn has_room(&self, room: &str) -> (known: bool)
        ensures
            known == self@.rooms.contains(room@),
    {
        self.app_state.rooms.contains(room)
    }

    /// Whether the user is in the room.
    pub fn is_member(&self, room: &str) -> (member: bool)
        ensures
            member == self@.joined_rooms.contains(room@),
    {
        self.app_state.joined_rooms.contains(room)
    }

    /// Makes a room known.
    pub fn create_room(&mut self, room: String)
        requires
            old(self).wf(),
        ensures
            final(self).wf(),
            final(self)@ == (AppView { rooms: with_name(old(self)@.rooms, room@), ..old(self)@ }),
    {
        let ghost name = room@;
        self.app_state.rooms.insert(room);
        proof {
            lemma_more_rooms(old(self)@.rooms, name);
            assert(self@ =~= AppView { rooms: with_name(old(self)@.rooms, name), ..old(self)@ });
        }
    }

    /// Puts the user in a known room.
    pub fn join_room(&mut self, room: String)
        requires
            old(self).wf(),
            old(self)@.rooms.contains(room@),
        ensures
            final(self).wf(),
            final(self)@ == (AppView {
                joined_rooms: old(self)@.joined_rooms.insert(room@),
                ..old(self)@
            }),
    {
        self.app_state.joined_rooms.insert(room);
    }

    /// Takes the user out of a room; says whether the user was in it.
    pub fn leave_room(&mut self, room: &str) -> (was_member: bool)
        requires
            old(self).wf(),
        ensures
            final(self).wf(),
            was_member == old(self)@.joined_rooms.contains(room@),
            final(self)@ == (AppView {
                joined_rooms: old(self)@.joined_rooms.remove(room@),
                ..old(self)@
            }),
    {
        self.app_state.joined_rooms.remove(room)
    }

    /// The known rooms, with a separator between neighbours.
    pub fn room_list(&self, separator: &str) -> (list: String)
        ensures
            list@ == join(self@.rooms, separator@),
    {
        self.app_state.rooms.join(separator)
    }
}

pub proof fn lemma_more_rooms(rooms: Seq<Seq<char>>, room: Seq<char>)
    ensures
        with_name(rooms, room).contains(room),
        forall|r: Seq<char>| rooms.contains(r) ==> with_name(rooms, room).contains(r),
{
    let more = with_name(rooms, room);
    if !rooms.contains(room) {
        assert(more[rooms.len() as int] == room);
    }
    assert forall|r: Seq<char>| rooms.contains(r) implies more.contains(r) by {
        let i = choose|i: int| 0 <= i < rooms.len() && rooms[i] == r;
        assert(more[i] == r);
    }
}

} // verus!
