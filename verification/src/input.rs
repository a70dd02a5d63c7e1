//! What a typed line does.

use vstd::prelude::*;

use crate::action::{Action, ActionView};
use crate::app::{App, AppView};
use crate::command::{command_of, Command, CommandView};
use crate::messages::{ChatMessage, ChatMessageView, FileRequest, MessageType, MessageTypeView};
use crate::names::with_name;
use crate::peers::{DirectoryView, PeerDirectory};
use crate::text::{concat2, concat3, concat4, join, words};

verus! {

/// A message from the user.
pub open spec fn from_user(
    app: AppView,
    content: Seq<char>,
    message_type: MessageTypeView,
) -> ChatMessageView {
    ChatMessageView { sender: app.nickname, content, message_type }
}

/// What a user is told who typed no command.
pub open spec fn unknown_command() -> Seq<char> {
    "Unknown command. Available commands: /msg, /dm, /propose, /get, /create_room, /join_room, /leave_room, /list_rooms, /room"@
}

/// The lines that a command shows at once.
pub open spec fn command_lines(
    command: CommandView,
    app: AppView,
    directory: DirectoryView,
) -> Seq<Seq<char>> {
    match command {
        CommandView::Usage { text } => seq![text],
        CommandView::Unknown => seq![unknown_command()],
        CommandView::ListRooms => seq!["Available rooms: "@ + join(app.rooms, ", "@)],
        CommandView::Get { nickname, filename } => seq![
            "Current nickname_to_peer_id mapping: "@ + directory.shown(),
            if directory.peers.contains_key(nickname) {
                "File request sent to "@ + nickname + ": "@ + filename
            } else {
                "Unknown peer nickname: "@ + nickname
            },
        ],
        CommandView::JoinRoom { room } if !app.rooms.contains(room) => seq![
            "Room '"@ + room + "' does not exist"@,
        ],
        CommandView::LeaveRoom { room } if !app.joined_rooms.contains(room) => seq![
            "You are not in room '"@ + room + "'"@,
        ],
        CommandView::RoomMessage { room, .. } if !app.joined_rooms.contains(room) => seq![
            "You are not in room '"@ + room + "'. Please join the room first."@,
        ],
        _ => Seq::empty(),
    }
}

/// What a command sends, and what is shown once it was sent.
pub open spec fn command_action(
    command: CommandView,
    app: AppView,
    directory: DirectoryView,
) -> ActionView {
    match command {
        CommandView::Message { content } => ActionView::Publish {
            message: from_user(app, content, MessageTypeView::PublicChat),
            notice: "Public message sent"@,
        },
        CommandView::Direct { recipient, content } => ActionView::Publish {
            message: from_user(app, content, MessageTypeView::DirectMessage { recipient }),
            notice: "Direct message sent to "@ + recipient,
        },
        CommandView::Propose { filename } => ActionView::Publish {
            message: from_user(
                app,
                "I want to share file: "@ + filename,
                MessageTypeView::FileProposal,
            ),
            notice: "File proposal sent"@,
        },
        CommandView::Get { nickname, filename } if directory.peers.contains_key(
            nickname,
        ) => ActionView::SendRequest { peer: directory.peers[nickname], request: filename },
        CommandView::CreateRoom { room } => ActionView::Publish {
            message: from_user(app, room, MessageTypeView::CreateRoom { room }),
            notice: "Room '"@ + room + "' created"@,
        },
        CommandView::JoinRoom { room } if app.rooms.contains(room) => ActionView::Publish {
            message: from_user(app, room, MessageTypeView::JoinRoom { room }),
            notice: "Joined room '"@ + room + "'"@,
        },
        CommandView::LeaveRoom { room } if app.joined_rooms.contains(room) => ActionView::Publish {
            message: from_user(app, room, MessageTypeView::LeaveRoom { room }),
            notice: "Left room '"@ + room + "'"@,
        },
        CommandView::RoomMessage { room, content } if app.joined_rooms.contains(
            room,
        ) => ActionView::Publish {
            message: from_user(app, content, MessageTypeView::RoomMessage { room }),
            notice: "Message sent to room '"@ + room + "'"@,
        },
        _ => ActionView::Idle,
    }
}

/// The known rooms after a command.
pub open spec fn command_rooms(command: CommandView, app: AppView) -> Seq<Seq<char>> {
    match command {
        CommandView::CreateRoom { room } => with_name(app.rooms, room),
        _ => app.rooms,
    }
}

/// The rooms that the user is in after a command.
pub open spec fn command_joined(command: CommandView, app: AppView) -> Set<Seq<char>> {
    match command {
        CommandView::JoinRoom { room } if app.rooms.contains(room) => app.joined_rooms.insert(room),
        CommandView::LeaveRoom { room } => app.joined_rooms.remove(room),
        _ => app.joined_rooms,
    }
}

/// The state after a command.
pub open spec fn after_command(
    command: CommandView,
    app: AppView,
    directory: DirectoryView,
) -> AppView {
    AppView {
        rooms: command_rooms(command, app),
        joined_rooms: command_joined(command, app),
        ..app
    }.noted(command_lines(command, app, directory))
}

fn message_from(app: &App, content: String, message_type: MessageType) -> (message: ChatMessage)
    ensures
        message@ == from_user(app@, content@, message_type@),
{
    ChatMessage { sender: app.nickname().to_string(), content, message_type }
}

/// Carries out a command.
pub fn run_command(app: &mut App, directory: &PeerDirectory, command: Command) -> (action: Action)
    requires
        old(app).wf(),
        directory.wf(),
    ensures
        final(app).wf(),
        final(app)@ == after_command(command@, old(app)@, directory@),
        action@ == command_action(command@, old(app)@, directory@),
{
    match command {
        Command::Usage { text } => {
            app.add_message(text);
            Action::Idle
        },
        Command::Message { content } => Action::Publish {
            message: message_from(app, content, MessageType::PublicChat),
            notice: "Public message sent".to_string(),
        },
        Command::Direct { recipient, content } => {
            let notice: String = concat2("Direct message sent to ", recipient.as_str());
            Action::Publish {
                message: message_from(app, content, MessageType::DirectMessage { recipient }),
                notice,
            }
        },
        Command::Propose { filename } => Action::Publish {
            message: message_from(
                app,
                concat2("I want to share file: ", filename.as_str()),
                MessageType::FileProposal,
            ),
            notice: "File proposal sent".to_string(),
        },
        Command::Get { nickname, filename } => {
            app.add_message(
                concat2("Current nickname_to_peer_id mapping: ", directory.shown().as_str()),
            );
            match directory.peer_of(nickname.as_str()) {
                Some(peer) => {
                    app.add_message(
                        concat4("File request sent to ", nickname.as_str(), ": ", filename.as_str()),
                    );
                    Action::SendRequest { peer, request: FileRequest { filename } }
                },
                None => {
                    app.add_message(concat2("Unknown peer nickname: ", nickname.as_str()));
                    Action::Idle
                },
            }
        },
        Command::CreateRoom { room } => {
            app.create_room(room.clone());
            let notice: String = concat3("Room '", room.as_str(), "' created");
            Action::Publish {
                message: message_from(app, room.clone(), MessageType::CreateRoom { room }),
                notice,
            }
        },
        Command::JoinRoom { room } => {
            if app.has_room(room.as_str()) {
                app.join_room(room.clone());
                let notice: String = concat3("Joined room '", room.as_str(), "'");
                Action::Publish {
                    message: message_from(app, room.clone(), MessageType::JoinRoom { room }),
                    notice,
                }
            } else {
                app.add_message(concat3("Room '", room.as_str(), "' does not exist"));
                Action::Idle
            }
        },
        Command::LeaveRoom { room } => {
            if app.leave_room(room.as_str()) {
                let notice: String = concat3("Left room '", room.as_str(), "'");
                Action::Publish {
                    message: message_from(app, room.clone(), MessageType::LeaveRoom { room }),
                    notice,
                }
            } else {
                app.add_message(concat3("You are not in room '", room.as_str(), "'"));
                Action::Idle
            }
        },
        Command::ListRooms => {
            app.add_message(concat2("Available rooms: ", app.room_list(", ").as_str()));
            Action::Idle
        },
        Command::RoomMessage { room, content } => {
            if app.is_member(room.as_str()) {
                let notice: String = concat3("Message sent to room '", room.as_str(), "'");
                Action::Publish {
                    message: message_from(app, content, MessageType::RoomMessage { room }),
                    notice,
                }
            } else {
                app.add_message(
                    concat3(
                        "You are not in room '",
                        room.as_str(),
                        "'. Please join the room first.",
                    ),
                );
                Action::Idle
            }
        },
        Command::Unknown => {
            app.add_message(
                "Unknown command. Available commands: /msg, /dm, /propose, /get, /create_room, /join_room, /leave_room, /list_rooms, /room".to_string(),
            );
            Action::Idle
        },
    }
}

/// The command that the typed line is.
pub open spec fn typed_command(app: AppView) -> CommandView {
    command_of(words(app.input))
}

/// Handles the line that was typed: it is taken out of the input and carried out as a command.
pub fn handle_input_line(app: &mut App, directory: &PeerDirectory) -> (action: Action)
    requires
        old(app).wf(),
        directory.wf(),
    ensures
        final(app).wf(),
        final(app)@ == after_command(
            typed_command(old(app)@),
            (AppView { input: Seq::empty(), ..old(app)@ }),
            directory@,
        ),
        action@ == command_action(typed_command(old(app)@), old(app)@, directory@),
        final(app)@.input.len() == 0,
        final(app)@.nickname == old(app)@.nickname,
        old(app)@.messages.is_prefix_of(final(app)@.messages),
{
    let line: String = app.take_input();
    run_command(app, directory, Command::parse(line.as_str()))
}

} // verus!
