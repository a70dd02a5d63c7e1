//! What each command sends, what it tells the user, and which rooms it touches.

use vstd::prelude::*;

use crate::action::ActionView;
use crate::app::{after_typing, law_typed_line_is_the_input, same_rooms, told, AppView};
use crate::command::{command_of, CommandView};
use crate::events::{after_event, EventView, PublishOutcomeView};
use crate::input::{after_command, command_action, typed_command};
use crate::messages::{ChatMessageView, MessageTypeView};
use crate::names::law_name_is_put_in_once;
use crate::peers::DirectoryView;
use crate::text::{is_word, join, law_joined_words_are_found_again, words};

verus! {

/// What the user typed is read by its words, whatever white space stands between them. Words that
/// are typed into an empty line, with single spaces between them, are those words.
pub proof fn law_typed_words_are_read(app: AppView, args: Seq<Seq<char>>)
    ensures
        words(app.input) == args ==> typed_command(app) == command_of(args),
        app.input.len() == 0 && (forall|i: int| 0 <= i < args.len() ==> is_word(#[trigger] args[i]))
            ==> typed_command(after_typing(app, join(args, " "@))) == command_of(args),
{
    if app.input.len() == 0 && (forall|i: int|
        0 <= i < args.len() ==> is_word(#[trigger] args[i])) {
        law_typed_line_is_the_input(app, join(args, " "@));
        law_joined_words_are_found_again(args);
        assert(app.input + join(args, " "@) =~= join(args, " "@));
    }
}

/// Everything that is published is signed with the user's nickname.
pub proof fn law_messages_are_signed(command: CommandView, app: AppView, directory: DirectoryView)
    ensures
        command_action(command, app, directory) matches ActionView::Publish { message, .. }
            ==> message.sender == app.nickname,
{
}

/// A command that publishes shows nothing of its own; once the message was sent the user reads the
/// notice that was handed out with it, and nothing else.
pub proof fn law_notice_is_shown_once_the_message_was_sent(
    command: CommandView,
    app: AppView,
    directory: DirectoryView,
)
    ensures
        command_action(command, app, directory) matches ActionView::Publish { notice, .. } ==> {
            let sent = after_command(command, app, directory);
            let outcome = PublishOutcomeView::Sent;
            &&& told(app, sent, Seq::empty())
            &&& told(
                sent,
                after_event(EventView::Published { notice, outcome }, sent, directory),
                seq![notice],
            )
        },
{
    let sent = after_command(command, app, directory);
    assert(app.messages + Seq::<Seq<char>>::empty() =~= app.messages);
    if let ActionView::Publish { notice, .. } = command_action(command, app, directory) {
        let outcome = PublishOutcomeView::Sent;
        assert(after_event(EventView::Published { notice, outcome }, sent, directory).messages
            == sent.messages + seq![notice]);
    }
}

/// A public message goes out as it is.
pub proof fn law_public_message_is_published(
    app: AppView,
    directory: DirectoryView,
    content: Seq<char>,
)
    ensures
        ({
            let command = CommandView::Message { content };
            &&& command_action(command, app, directory) == (ActionView::Publish {
                message: ChatMessageView {
                    sender: app.nickname,
                    content,
                    message_type: MessageTypeView::PublicChat,
                },
                notice: "Public message sent"@,
            })
            &&& after_command(command, app, directory) == app
        }),
{
}

/// A direct message goes out as it is, for the recipient that was named, who need not be known.
pub proof fn law_direct_message_is_published(
    app: AppView,
    directory: DirectoryView,
    recipient: Seq<char>,
    content: Seq<char>,
)
    ensures
        ({
            let command = CommandView::Direct { recipient, content };
            &&& command_action(command, app, directory) == (ActionView::Publish {
                message: ChatMessageView {
                    sender: app.nickname,
                    content,
                    message_type: MessageTypeView::DirectMessage { recipient },
                },
                notice: "Direct message sent to "@ + recipient,
            })
            &&& after_command(command, app, directory) == app
        }),
{
}

/// A proposal goes out with the name of the file.
pub proof fn law_proposal_is_published(
    app: AppView,
    directory: DirectoryView,
    filename: Seq<char>,
)
    ensures
        ({
            let command = CommandView::Propose { filename };
            &&& command_action(command, app, directory) == (ActionView::Publish {
                message: ChatMessageView {
                    sender: app.nickname,
                    content: "I want to share file: "@ + filename,
                    message_type: MessageTypeView::FileProposal,
                },
                notice: "File proposal sent"@,
            })
            &&& after_command(command, app, directory) == app
        }),
{
}

/// A file is asked for from the peer that goes by the nickname, if there is one, and from nobody
/// else. Either way the user sees the directory first and then what came of it; no room changes.
pub proof fn law_file_is_asked_for_by_nickname(
    app: AppView,
    directory: DirectoryView,
    nickname: Seq<char>,
    filename: Seq<char>,
)
    ensures
        ({
            let command = CommandView::Get { nickname, filename };
            let after = after_command(command, app, directory);
            let known = directory.peers.contains_key(nickname);
            &&& known ==> command_action(command, app, directory) == (ActionView::SendRequest {
                peer: directory.peers[nickname],
                request: filename,
            })
            &&& !known ==> command_action(command, app, directory) is Idle
            &&& known ==> told(
                app,
                after,
                seq![
                    "Current nickname_to_peer_id mapping: "@ + directory.shown(),
                    "File request sent to "@ + nickname + ": "@ + filename,
                ],
            )
            &&& !known ==> told(
                app,
                after,
                seq![
                    "Current nickname_to_peer_id mapping: "@ + directory.shown(),
                    "Unknown peer nickname: "@ + nickname,
                ],
            )
            &&& same_rooms(app, after)
        }),
{
}

/// Creating a room makes it known here, besides the rooms that were known, and publishes it. Nobody
/// joins by it, and it may be known already.
pub proof fn law_created_room_is_known_and_published(
    app: AppView,
    directory: DirectoryView,
    room: Seq<char>,
)
    requires
        app.wf(),
    ensures
        ({
            let command = CommandView::CreateRoom { room };
            let after = after_command(command, app, directory);
            &&& command_action(command, app, directory) == (ActionView::Publish {
                message: ChatMessageView {
                    sender: app.nickname,
                    content: room,
                    message_type: MessageTypeView::CreateRoom { room },
                },
                notice: "Room '"@ + room + "' created"@,
            })
            &&& forall|other: Seq<char>| #[trigger]
                after.rooms.contains(other) <==> app.rooms.contains(other) || other == room
            &&& app.rooms.is_prefix_of(after.rooms)
            &&& after.joined_rooms == app.joined_rooms
        }),
{
    law_name_is_put_in_once(app.rooms, room);
}

/// A known room is joined, besides the rooms that the user is in, and that is published. A room
/// that is not known is not: nothing is sent, and the user is told.
pub proof fn law_known_room_is_joined(app: AppView, directory: DirectoryView, room: Seq<char>)
    ensures
        ({
            let command = CommandView::JoinRoom { room };
            let after = after_command(command, app, directory);
            &&& app.rooms.contains(room) ==> {
                &&& command_action(command, app, directory) == (ActionView::Publish {
                    message: ChatMessageView {
                        sender: app.nickname,
                        content: room,
                        message_type: MessageTypeView::JoinRoom { room },
                    },
                    notice: "Joined room '"@ + room + "'"@,
                })
                &&& after.rooms == app.rooms
                &&& forall|other: Seq<char>| #[trigger]
                    after.joined_rooms.contains(other) <==> app.joined_rooms.contains(other)
                        || other == room
            }
            &&& !app.rooms.contains(room) ==> {
                &&& command_action(command, app, directory) is Idle
                &&& same_rooms(app, after)
                &&& told(app, after, seq!["Room '"@ + room + "' does not exist"@])
            }
        }),
{
}

/// A room that the user is in is left, and no other, and that is published; the room stays known.
/// A room that the user is not in is not left: nothing is sent, and the user is told.
pub proof fn law_joined_room_is_left(app: AppView, directory: DirectoryView, room: Seq<char>)
    ensures
        ({
            let command = CommandView::LeaveRoom { room };
            let after = after_command(command, app, directory);
            &&& app.joined_rooms.contains(room) ==> {
                &&& command_action(command, app, directory) == (ActionView::Publish {
                    message: ChatMessageView {
                        sender: app.nickname,
                        content: room,
                        message_type: MessageTypeView::LeaveRoom { room },
                    },
                    notice: "Left room '"@ + room + "'"@,
                })
                &&& after.rooms == app.rooms
                &&& forall|other: Seq<char>| #[trigger]
                    after.joined_rooms.contains(other) <==> app.joined_rooms.contains(other)
                        && other != room
            }
            &&& !app.joined_rooms.contains(room) ==> {
                &&& command_action(command, app, directory) is Idle
                &&& same_rooms(app, after)
                &&& told(app, after, seq!["You are not in room '"@ + room + "'"@])
            }
        }),
{
    if !app.joined_rooms.contains(room) {
        assert(app.joined_rooms.remove(room) =~= app.joined_rooms);
    }
}

/// The rooms are listed with commas between them: all that are known, whether the user is in them
/// or not. Nothing is sent, and no room changes.
pub proof fn law_known_rooms_are_listed(app: AppView, directory: DirectoryView)
    ensures
        command_action(CommandView::ListRooms, app, directory) is Idle,
        told(
            app,
            after_command(CommandView::ListRooms, app, directory),
            seq!["Available rooms: "@ + join(app.rooms, ", "@)],
        ),
        same_rooms(app, after_command(CommandView::ListRooms, app, directory)),
{
}

/// A member's message to a room goes out as it is. Who is not in the room is told so, and nothing
/// is sent. No room changes.
pub proof fn law_member_sends_to_the_room(
    app: AppView,
    directory: DirectoryView,
    room: Seq<char>,
    content: Seq<char>,
)
    ensures
        ({
            let command = CommandView::RoomMessage { room, content };
            let after = after_command(command, app, directory);
            &&& app.joined_rooms.contains(room) ==> {
                &&& command_action(command, app, directory) == (ActionView::Publish {
                    message: ChatMessageView {
                        sender: app.nickname,
                        content,
                        message_type: MessageTypeView::RoomMessage { room },
                    },
                    notice: "Message sent to room '"@ + room + "'"@,
                })
                &&& after == app
            }
            &&& !app.joined_rooms.contains(room) ==> {
                &&& command_action(command, app, directory) is Idle
                &&& same_rooms(app, after)
                &&& told(
                    app,
                    after,
                    seq!["You are not in room '"@ + room + "'. Please join the room first."@],
                )
            }
        }),
{
}

/// A command with words missing is answered with how it is used, and a line that is no command with
/// the names of all commands. Nothing is sent, and no room changes.
pub proof fn law_other_lines_are_answered(
    app: AppView,
    directory: DirectoryView,
    text: Seq<char>,
)
    ensures
        ({
            let usage = CommandView::Usage { text };
            &&& command_action(usage, app, directory) is Idle
            &&& told(app, after_command(usage, app, directory), seq![text])
            &&& same_rooms(app, after_command(usage, app, directory))
        }),
        ({
            let unknown = CommandView::Unknown;
            &&& command_action(unknown, app, directory) is Idle
            &&& told(
                app,
                after_command(unknown, app, directory),
                seq![
                    "Unknown command. Available commands: /msg, /dm, /propose, /get, /create_room, /join_room, /leave_room, /list_rooms, /room"@,
                ],
            )
            &&& same_rooms(app, after_command(unknown, app, directory))
        }),
{
}

} // verus!
