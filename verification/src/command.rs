//! The commands that a user types.

use vstd::prelude::*;

use crate::text::{
    is_word, join, join_from, law_joined_words_are_found_again, split_words, texts, words,
};

verus! {

/// What a typed line asks for.
pub enum Command {
    /// Send text to everybody.
    Message { content: String },
    /// Send text to one peer.
    Direct { recipient: String, content: String },
    /// Offer a file.
    Propose { filename: String },
    /// Ask a peer for a file.
    Get { nickname: String, filename: String },
    /// Create a room.
    CreateRoom { room: String },
    /// Join a room.
    JoinRoom { room: String },
    /// Leave a room.
    LeaveRoom { room: String },
    /// List the rooms.
    ListRooms,
    /// Send text to a room.
    RoomMessage { room: String, content: String },
    /// A command with words missing; the text says how it is used.
    Usage { text: String },
    /// No command.
    Unknown,
}

/// The model of a [`Command`].
pub enum CommandView {
    Message { content: Seq<char> },
    Direct { recipient: Seq<char>, content: Seq<char> },
    Propose { filename: Seq<char> },
    Get { nickname: Seq<char>, filename: Seq<char> },
    CreateRoom { room: Seq<char> },
    JoinRoom { room: Seq<char> },
    LeaveRoom { room: Seq<char> },
    ListRooms,
    RoomMessage { room: Seq<char>, content: Seq<char> },
    Usage { text: Seq<char> },
    Unknown,
}

impl View for Command {
    type V = CommandView;

    open spec fn view(&self) -> CommandView {
        match self {
            Command::Message { content } => CommandView::Message { content: content@ },
            Command::Direct { recipient, content } => CommandView::Direct {
                recipient: recipient@,
                content: content@,
            },
            Command::Propose { filename } => CommandView::Propose { filename: filename@ },
            Command::Get { nickname, filename } => CommandView::Get {
                nickname: nickname@,
                filename: filename@,
            },
            Command::CreateRoom { room } => CommandView::CreateRoom { room: room@ },
            Command::JoinRoom { room } => CommandView::JoinRoom { room: room@ },
            Command::LeaveRoom { room } => CommandView::LeaveRoom { room: room@ },
            Command::ListRooms => CommandView::ListRooms,
            Command::RoomMessage { room, content } => CommandView::RoomMessage {
                room: room@,
                content: content@,
            },
            Command::Usage { text } => CommandView::Usage { text: text@ },
            Command::Unknown => CommandView::Unknown,
        }
    }
}

/// The text that the words from the given index on make up.
pub open spec fn text_from(args: Seq<Seq<char>>, from: int) -> Seq<char> {
    join(args.skip(from), " "@)
}

/// The command that the words of a line make up. The first word says which command it is; words
/// behind those that a command needs are ignored, except where they are the text to send.
pub open spec fn command_of(args: Seq<Seq<char>>) -> CommandView {
    if args.len() == 0 {
        CommandView::Unknown
    } else if args[0] == "/msg"@ {
        if args.len() < 2 {
            CommandView::Usage { text: "Usage: /msg <message>"@ }
        } else {
            CommandView::Message { content: text_from(args, 1) }
        }
    } else if args[0] == "/dm"@ {
        if args.len() < 3 {
            CommandView::Usage { text: "Usage: /dm <recipient> <message>"@ }
        } else {
            CommandView::Direct { recipient: args[1], content: text_from(args, 2) }
        }
    } else if args[0] == "/propose"@ {
        if args.len() < 2 {
            CommandView::Usage { text: "Usage: /propose <filename>"@ }
        } else {
            CommandView::Propose { filename: args[1] }
        }
    } else if args[0] == "/get"@ {
        if args.len() < 3 {
            CommandView::Usage { text: "Usage: /get <peer_nickname> <filename>"@ }
        } else {
            CommandView::Get { nickname: args[1], filename: args[2] }
        }
    } else if args[0] == "/create_room"@ {
        if args.len() < 2 {
            CommandView::Usage { text: "Usage: /create_room <room_name>"@ }
        } else {
            CommandView::CreateRoom { room: args[1] }
        }
    } else if args[0] == "/join_room"@ {
        if args.len() < 2 {
            CommandView::Usage { text: "Usage: /join_room <room_name>"@ }
        } else {
            CommandView::JoinRoom { room: args[1] }
        }
    } else if args[0] == "/leave_room"@ {
        if args.len() < 2 {
            CommandView::Usage { text: "Usage: /leave_room <room_name>"@ }
        } else {
            CommandView::LeaveRoom { room: args[1] }
        }
    } else if args[0] == "/list_rooms"@ {
        CommandView::ListRooms
    } else if args[0] == "/room"@ {
        if args.len() < 3 {
            CommandView::Usage { text: "Usage: /room <room_name> <message>"@ }
        } else {
            CommandView::RoomMessage { room: args[1], content: text_from(args, 2) }
        }
    } else {
        CommandView::Unknown
    }
}

fn usage(text: &str) -> (command: Command)
    ensures
        command@ == (CommandView::Usage { text: text@ }),
{
    Command::Usage { text: text.to_string() }
}

impl Command {
    /// Reads a line.
    pub fn parse(line: &str) -> (command: Command)
        ensures
            command@ == command_of(words(line@)),
    {
        let args: Vec<String> = split_words(line);
        let ghost view = texts(args@);
        let count: usize = args.len();
        assert(count == view.len());
        assert(forall|i: int| 0 <= i < count ==> view[i] == #[trigger] args@[i]@);
        if count == 0 {
            Command::Unknown
        } else if args[0] == "/msg".to_string() {
            if count < 2 {
                usage("Usage: /msg <message>")
            } else {
                Command::Message { content: join_from(&args, 1, " ") }
            }
        } else if args[0] == "/dm".to_string() {
            if count < 3 {
                usage("Usage: /dm <recipient> <message>")
            } else {
                Command::Direct {
                    recipient: args[1].clone(),
                    content: join_from(&args, 2, " "),
                }
            }
        } else if args[0] == "/propose".to_string() {
            if count < 2 {
                usage("Usage: /propose <filename>")
            } else {
                Command::Propose { filename: args[1].clone() }
            }
        } else if args[0] == "/get".to_string() {
            if count < 3 {
                usage("Usage: /get <peer_nickname> <filename>")
            } else {
                Command::Get { nickname: args[1].clone(), filename: args[2].clone() }
            }
        } else if args[0] == "/create_room".to_string() {
            if count < 2 {
                usage("Usage: /create_room <room_name>")
            } else {
                Command::CreateRoom { room: args[1].clone() }
            }
        } else if args[0] == "/join_room".to_string() {
            if count < 2 {
                usage("Usage: /join_room <room_name>")
            } else {
                Command::JoinRoom { room: args[1].clone() }
            }
        } else if args[0] == "/leave_room".to_string() {
            if count < 2 {
                usage("Usage: /leave_room <room_name>")
            } else {
                Command::LeaveRoom { room: args[1].clone() }
            }
        } else if args[0] == "/list_rooms".to_string() {
            Command::ListRooms
        } else if args[0] == "/room".to_string() {
            if count < 3 {
                usage("Usage: /room <room_name> <message>")
            } else {
                Command::RoomMessage {
                    room: args[1].clone(),
                    content: join_from(&args, 2, " "),
                }
            }
        } else {
            Command::Unknown
        }
    }
}

/// The names of the commands are all different: most of them in length.
proof fn lemma_names_differ()
    ensures
        "/msg"@.len() == 4,
        "/dm"@.len() == 3,
        "/propose"@.len() == 8,
        "/get"@.len() == 4,
        "/create_room"@.len() == 12,
        "/join_room"@.len() == 10,
        "/leave_room"@.len() == 11,
        "/list_rooms"@.len() == 11,
        "/room"@.len() == 5,
        "/msg"@ != "/get"@,
        "/leave_room"@ != "/list_rooms"@,
{
    reveal_strlit("/msg");
    reveal_strlit("/dm");
    reveal_strlit("/propose");
    reveal_strlit("/get");
    reveal_strlit("/create_room");
    reveal_strlit("/join_room");
    reveal_strlit("/leave_room");
    reveal_strlit("/list_rooms");
    reveal_strlit("/room");
    assert("/msg"@[1] != "/get"@[1]);
    assert("/leave_room"@[2] != "/list_rooms"@[2]);
}

/// A line whose first word is `/msg` sends all words behind it to everybody, from one word on.
pub proof fn law_msg_sends_the_other_words(args: Seq<Seq<char>>)
    requires
        args.len() > 0,
        args[0] == "/msg"@,
    ensures
        args.len() >= 2 ==> command_of(args) == (CommandView::Message {
            content: join(args.skip(1), " "@),
        }),
        args.len() < 2 ==> command_of(args) == (CommandView::Usage {
            text: "Usage: /msg <message>"@,
        }),
{
}

/// A line whose first word is `/dm` sends all words behind the second to the peer that the second
/// names, from one word on.
pub proof fn law_dm_sends_to_the_second_word(args: Seq<Seq<char>>)
    requires
        args.len() > 0,
        args[0] == "/dm"@,
    ensures
        args.len() >= 3 ==> command_of(args) == (CommandView::Direct {
            recipient: args[1],
            content: join(args.skip(2), " "@),
        }),
        args.len() < 3 ==> command_of(args) == (CommandView::Usage {
            text: "Usage: /dm <recipient> <message>"@,
        }),
{
    lemma_names_differ();
}

/// A line whose first word is `/propose` offers the file that the second word names, whatever
/// comes behind.
pub proof fn law_propose_offers_the_second_word(args: Seq<Seq<char>>)
    requires
        args.len() > 0,
        args[0] == "/propose"@,
    ensures
        args.len() >= 2 ==> command_of(args) == (CommandView::Propose { filename: args[1] }),
        args.len() < 2 ==> command_of(args) == (CommandView::Usage {
            text: "Usage: /propose <filename>"@,
        }),
{
    lemma_names_differ();
}

/// A line whose first word is `/get` asks the peer that the second word names for the file that the
/// third names, whatever comes behind.
pub proof fn law_get_asks_the_second_word_for_the_third(args: Seq<Seq<char>>)
    requires
        args.len() > 0,
        args[0] == "/get"@,
    ensures
        args.len() >= 3 ==> command_of(args) == (CommandView::Get {
            nickname: args[1],
            filename: args[2],
        }),
        args.len() < 3 ==> command_of(args) == (CommandView::Usage {
            text: "Usage: /get <peer_nickname> <filename>"@,
        }),
{
    lemma_names_differ();
}

/// A line whose first word is `/create_room`, `/join_room` or `/leave_room` is about the room that
/// the second word names, whatever comes behind.
pub proof fn law_room_commands_take_the_second_word(args: Seq<Seq<char>>)
    requires
        args.len() > 0,
    ensures
        args[0] == "/create_room"@ && args.len() >= 2 ==> command_of(args) == (
        CommandView::CreateRoom { room: args[1] }),
        args[0] == "/create_room"@ && args.len() < 2 ==> command_of(args) == (CommandView::Usage {
            text: "Usage: /create_room <room_name>"@,
        }),
        args[0] == "/join_room"@ && args.len() >= 2 ==> command_of(args) == (CommandView::JoinRoom {
            room: args[1],
        }),
        args[0] == "/join_room"@ && args.len() < 2 ==> command_of(args) == (CommandView::Usage {
            text: "Usage: /join_room <room_name>"@,
        }),
        args[0] == "/leave_room"@ && args.len() >= 2 ==> command_of(args) == (
        CommandView::LeaveRoom { room: args[1] }),
        args[0] == "/leave_room"@ && args.len() < 2 ==> command_of(args) == (CommandView::Usage {
            text: "Usage: /leave_room <room_name>"@,
        }),
{
    lemma_names_differ();
}

/// A line whose first word is `/list_rooms` lists the rooms, whatever comes behind.
pub proof fn law_list_rooms_needs_no_word(args: Seq<Seq<char>>)
    requires
        args.len() > 0,
        args[0] == "/list_rooms"@,
    ensures
        command_of(args) is ListRooms,
{
    lemma_names_differ();
}

/// A line whose first word is `/room` sends all words behind the second to the room that the second
/// names, from one word on.
pub proof fn law_room_sends_to_the_second_word(args: Seq<Seq<char>>)
    requires
        args.len() > 0,
        args[0] == "/room"@,
    ensures
        args.len() >= 3 ==> command_of(args) == (CommandView::RoomMessage {
            room: args[1],
            content: join(args.skip(2), " "@),
        }),
        args.len() < 3 ==> command_of(args) == (CommandView::Usage {
            text: "Usage: /room <room_name> <message>"@,
        }),
{
    lemma_names_differ();
}

/// A line without words is no command, nor is one whose first word names none; every other line is
/// one.
pub proof fn law_other_lines_are_no_command(args: Seq<Seq<char>>)
    ensures
        command_of(args) is Unknown <==> args.len() == 0 || !seq![
            "/msg"@,
            "/dm"@,
            "/propose"@,
            "/get"@,
            "/create_room"@,
            "/join_room"@,
            "/leave_room"@,
            "/list_rooms"@,
            "/room"@,
        ].contains(args[0]),
{
    let names = seq![
        "/msg"@,
        "/dm"@,
        "/propose"@,
        "/get"@,
        "/create_room"@,
        "/join_room"@,
        "/leave_room"@,
        "/list_rooms"@,
        "/room"@,
    ];
    assert(names[0] == "/msg"@ && names[1] == "/dm"@ && names[2] == "/propose"@);
    assert(names[3] == "/get"@ && names[4] == "/create_room"@ && names[5] == "/join_room"@);
    assert(names[6] == "/leave_room"@ && names[7] == "/list_rooms"@ && names[8] == "/room"@);
}

/// Words that are typed with single spaces between them are the words that make up the command.
pub proof fn law_typed_words_make_up_the_command(args: Seq<Seq<char>>)
    requires
        forall|i: int| 0 <= i < args.len() ==> is_word(#[trigger] args[i]),
    ensures
        command_of(words(join(args, " "@))) == command_of(args),
{
    law_joined_words_are_found_again(args);
}

/// The model of a command is the same command, with all that is in it.
pub proof fn law_models_hold_the_command(command: Command)
    ensures
        command matches Command::Message { content }
            ==> command@ == (CommandView::Message { content: content@ }),
        command matches Command::Direct { recipient, content }
            ==> command@ == (CommandView::Direct { recipient: recipient@, content: content@ }),
        command matches Command::Propose { filename }
            ==> command@ == (CommandView::Propose { filename: filename@ }),
        command matches Command::Get { nickname, filename }
            ==> command@ == (CommandView::Get { nickname: nickname@, filename: filename@ }),
        command matches Command::CreateRoom { room }
            ==> command@ == (CommandView::CreateRoom { room: room@ }),
        command matches Command::JoinRoom { room }
            ==> command@ == (CommandView::JoinRoom { room: room@ }),
        command matches Command::LeaveRoom { room }
            ==> command@ == (CommandView::LeaveRoom { room: room@ }),
        command is ListRooms ==> command@ is ListRooms,
        command matches Command::RoomMessage { room, content }
            ==> command@ == (CommandView::RoomMessage { room: room@, content: content@ }),
        command matches Command::Usage { text }
            ==> command@ == (CommandView::Usage { text: text@ }),
        command is Unknown ==> command@ is Unknown,
{
}

} // verus!
