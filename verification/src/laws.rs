//! What holds of the node as a whole: between what one peer types and what another one sees, and
//! across several steps of one node.

use vstd::prelude::*;

use crate::action::ActionView;
use crate::app::{law_messages_are_only_added, lemma_more_rooms, AppView};
use crate::command::{command_of, text_from, CommandView};
use crate::events::{
    after_chat, after_event, chat_line, directory_after, event_action, event_lines, event_rooms,
    response_to, EventView, ReadOutcomeView,
};
use crate::files::{backslash_in_front, extension, last_index, portable, stem, stored_name};
use crate::input::{
    after_command, command_action, command_joined, command_lines, command_rooms,
};
use crate::messages::{FileResponseView, MessageTypeView};
use crate::names::with_name;
use crate::peers::{announced, law_announced_nickname_is_read_back, DirectoryView};
use crate::text::{is_word, law_joined_words_are_found_again, law_words_are_words, words};

verus! {

/// Every command keeps the state consistent, leaves the older messages as they are, and changes
/// neither the nickname nor the line that is being typed.
pub proof fn law_commands_keep_the_state(
    command: CommandView,
    app: AppView,
    directory: DirectoryView,
)
    requires
        app.wf(),
    ensures
        after_command(command, app, directory).wf(),
        app.messages.is_prefix_of(after_command(command, app, directory).messages),
        after_command(command, app, directory).nickname == app.nickname,
        after_command(command, app, directory).input == app.input,
{
    if let CommandView::CreateRoom { room } = command {
        lemma_rooms_stay_unique(app.rooms, room);
        lemma_more_rooms(app.rooms, room);
    }
    let changed = AppView {
        rooms: command_rooms(command, app),
        joined_rooms: command_joined(command, app),
        ..app
    };
    assert(changed.wf());
    law_messages_are_only_added(changed, command_lines(command, app, directory));
}

/// Every event keeps the state consistent, leaves the older messages as they are, and changes
/// neither the nickname, nor the line that is being typed, nor the rooms that the user is in.
pub proof fn law_events_keep_the_state(event: EventView, app: AppView, directory: DirectoryView)
    requires
        app.wf(),
    ensures
        after_event(event, app, directory).wf(),
        app.messages.is_prefix_of(after_event(event, app, directory).messages),
        after_event(event, app, directory).nickname == app.nickname,
        after_event(event, app, directory).input == app.input,
        after_event(event, app, directory).joined_rooms == app.joined_rooms,
{
    if let EventView::Chat { message } = event {
        if let MessageTypeView::CreateRoom { room } = message.message_type {
            lemma_rooms_stay_unique(app.rooms, room);
            lemma_more_rooms(app.rooms, room);
        }
    }
    let changed = AppView { rooms: event_rooms(event, app), ..app };
    assert(changed.wf());
    law_messages_are_only_added(changed, event_lines(event, app, directory));
}

proof fn lemma_rooms_stay_unique(rooms: Seq<Seq<char>>, room: Seq<char>)
    requires
        rooms.no_duplicates(),
    ensures
        with_name(rooms, room).no_duplicates(),
{
    let more = with_name(rooms, room);
    assert forall|i: int, j: int|
        0 <= i < more.len() && 0 <= j < more.len() && i != j implies more[i] != more[j] by {
        if !rooms.contains(room) {
            if i < rooms.len() {
                assert(rooms.contains(rooms[i]));
            }
            if j < rooms.len() {
                assert(rooms.contains(rooms[j]));
            }
        }
    }
}

/// A room that is known stays known: no command and no event takes it away.
pub proof fn law_rooms_stay_known(
    command: CommandView,
    event: EventView,
    app: AppView,
    room: Seq<char>,
)
    requires
        app.rooms.contains(room),
    ensures
        command_rooms(command, app).contains(room),
        event_rooms(event, app).contains(room),
{
    if let CommandView::CreateRoom { room: created } = command {
        lemma_more_rooms(app.rooms, created);
    }
    if let EventView::Chat { message } = event {
        if let MessageTypeView::CreateRoom { room: created } = message.message_type {
            lemma_more_rooms(app.rooms, created);
        }
    }
}

/// A command that sends nothing leaves the rooms alone and tells the user why, or what was asked
/// for. A command that publishes a message shows nothing before the outcome is known.
pub proof fn law_refused_commands_only_answer(
    command: CommandView,
    app: AppView,
    directory: DirectoryView,
)
    ensures
        command_action(command, app, directory) is Idle ==> {
            &&& command_rooms(command, app) == app.rooms
            &&& command_joined(command, app) == app.joined_rooms
            &&& command_lines(command, app, directory).len() > 0
        },
        command_action(command, app, directory) is Publish ==> command_lines(
            command,
            app,
            directory,
        ).len() == 0,
{
    if let CommandView::LeaveRoom { room } = command {
        if !app.joined_rooms.contains(room) {
            assert(app.joined_rooms.remove(room) =~= app.joined_rooms);
        }
    }
}

proof fn lemma_text_keeps_the_words(line: Seq<char>, from: int)
    requires
        0 <= from <= words(line).len(),
    ensures
        words(text_from(words(line), from)) == words(line).skip(from),
{
    let args = words(line);
    law_words_are_words(line);
    let sent = args.skip(from);
    assert forall|i: int| 0 <= i < sent.len() implies is_word(#[trigger] sent[i]) by {
        assert(sent[i] == args[i + from]);
    }
    law_joined_words_are_found_again(sent);
}

/// Text is sent word by word: what goes out has the words that were typed behind the command, and
/// behind the recipient or the room, in the same order.
pub proof fn law_messages_keep_the_words(line: Seq<char>)
    ensures
        command_of(words(line)) matches CommandView::Message { content } ==> words(content)
            == words(line).skip(1),
        command_of(words(line)) matches CommandView::Direct { recipient, content } ==> recipient
            == words(line)[1] && words(content) == words(line).skip(2),
        command_of(words(line)) matches CommandView::RoomMessage { room, content } ==> room
            == words(line)[1] && words(content) == words(line).skip(2),
{
    if words(line).len() >= 2 {
        lemma_text_keeps_the_words(line, 1);
        lemma_text_keeps_the_words(line, 2);
    }
}

/// A public message is shown to every peer that gets it.
pub proof fn law_public_message_reaches_everybody(
    sender: AppView,
    receiver: AppView,
    directory: DirectoryView,
    content: Seq<char>,
)
    ensures
        command_action(
            CommandView::Message { content },
            sender,
            directory,
        ) matches ActionView::Publish { message, .. } && chat_line(message, receiver) == Some(
            "Public message from "@ + sender.nickname + ": "@ + content,
        ),
{
}

/// A proposal is shown to every peer that gets it, and names the file.
pub proof fn law_proposal_reaches_everybody(
    sender: AppView,
    receiver: AppView,
    directory: DirectoryView,
    filename: Seq<char>,
)
    ensures
        command_action(
            CommandView::Propose { filename },
            sender,
            directory,
        ) matches ActionView::Publish { message, .. } && chat_line(message, receiver) == Some(
            "File proposal from "@ + sender.nickname + ": "@ + ("I want to share file: "@
                + filename),
        ),
{
}

/// A direct message is shown to the peer with the recipient's nickname, and to nobody else.
pub proof fn law_direct_message_reaches_its_recipient_only(
    sender: AppView,
    receiver: AppView,
    directory: DirectoryView,
    recipient: Seq<char>,
    content: Seq<char>,
)
    ensures
        command_action(
            CommandView::Direct { recipient, content },
            sender,
            directory,
        ) matches ActionView::Publish { message, .. } && chat_line(message, receiver) == (
        if receiver.nickname == recipient {
            Some("Direct message from "@ + sender.nickname + ": "@ + content)
        } else {
            None
        }),
{
}

/// Only a member can send to a room, and the message is shown to the members of the room, and to
/// nobody else.
pub proof fn law_room_message_reaches_members_only(
    sender: AppView,
    receiver: AppView,
    directory: DirectoryView,
    room: Seq<char>,
    content: Seq<char>,
)
    ensures
        ({
            let action = command_action(
                CommandView::RoomMessage { room, content },
                sender,
                directory,
            );
            if sender.joined_rooms.contains(room) {
                action matches ActionView::Publish { message, .. } && chat_line(message, receiver)
                    == (if receiver.joined_rooms.contains(room) {
                    Some("["@ + room + "] "@ + sender.nickname + " says: "@ + content)
                } else {
                    None
                })
            } else {
                action is Idle
            }
        }),
{
}

/// A room that one peer creates can be joined there and by every peer that gets the message.
pub proof fn law_created_room_can_be_joined(
    creator: AppView,
    receiver: AppView,
    directory: DirectoryView,
    room: Seq<char>,
)
    ensures
        ({
            let create = CommandView::CreateRoom { room };
            let join = CommandView::JoinRoom { room };
            let here = after_command(create, creator, directory);
            &&& here.rooms.contains(room)
            &&& command_action(join, here, directory) is Publish
            &&& command_action(create, creator, directory) matches ActionView::Publish {
                message,
                ..
            } && {
                let there = after_chat(message, receiver);
                &&& there.rooms.contains(room)
                &&& command_action(join, there, directory) is Publish
                &&& after_command(join, there, directory).joined_rooms == there.joined_rooms.insert(
                    room,
                )
            }
        }),
{
    lemma_more_rooms(creator.rooms, room);
    lemma_more_rooms(receiver.rooms, room);
}

/// Creating, joining and leaving a room is shown to every peer that gets the message.
pub proof fn law_room_changes_reach_everybody(
    sender: AppView,
    receiver: AppView,
    directory: DirectoryView,
    room: Seq<char>,
)
    ensures
        command_action(
            CommandView::CreateRoom { room },
            sender,
            directory,
        ) matches ActionView::Publish { message, .. } && chat_line(message, receiver) == Some(
            "Room '"@ + room + "' created by "@ + sender.nickname,
        ),
        sender.rooms.contains(room) ==> (command_action(
            CommandView::JoinRoom { room },
            sender,
            directory,
        ) matches ActionView::Publish { message, .. } && chat_line(message, receiver) == Some(
            sender.nickname + " joined room '"@ + room + "'"@,
        )),
        sender.joined_rooms.contains(room) ==> (command_action(
            CommandView::LeaveRoom { room },
            sender,
            directory,
        ) matches ActionView::Publish { message, .. } && chat_line(message, receiver) == Some(
            sender.nickname + " left room '"@ + room + "'"@,
        )),
{
}

/// A room that nobody told of cannot be joined.
pub proof fn law_unknown_room_cannot_be_joined(
    app: AppView,
    directory: DirectoryView,
    room: Seq<char>,
)
    requires
        !app.rooms.contains(room),
    ensures
        command_action(CommandView::JoinRoom { room }, app, directory) is Idle,
        after_command(CommandView::JoinRoom { room }, app, directory).joined_rooms
            == app.joined_rooms,
{
}

/// A user who joins a known room can send to it; a user who leaves it cannot any more.
pub proof fn law_membership_decides_who_can_send(
    app: AppView,
    directory: DirectoryView,
    room: Seq<char>,
    content: Seq<char>,
)
    requires
        app.rooms.contains(room),
    ensures
        ({
            let send = CommandView::RoomMessage { room, content };
            let joined = after_command(CommandView::JoinRoom { room }, app, directory);
            let left = after_command(CommandView::LeaveRoom { room }, joined, directory);
            &&& command_action(send, joined, directory) is Publish
            &&& command_action(send, left, directory) is Idle
        }),
{
}

/// Leaving undoes joining: a user who was not in the room is in the same rooms as before.
pub proof fn law_leaving_undoes_joining(
    app: AppView,
    directory: DirectoryView,
    room: Seq<char>,
)
    requires
        app.rooms.contains(room),
        !app.joined_rooms.contains(room),
    ensures
        ({
            let joined = after_command(CommandView::JoinRoom { room }, app, directory);
            let left = after_command(CommandView::LeaveRoom { room }, joined, directory);
            &&& left.joined_rooms == app.joined_rooms
            &&& left.rooms == app.rooms
        }),
{
    assert(app.joined_rooms.insert(room).remove(room) =~= app.joined_rooms);
}

/// Once a peer announced its nickname, a file can be asked for under that nickname, and the request
/// goes to that peer.
pub proof fn law_identified_peer_can_be_asked(
    app: AppView,
    directory: DirectoryView,
    peer: Seq<char>,
    nickname: Seq<char>,
    filename: Seq<char>,
)
    ensures
        command_action(
            CommandView::Get { nickname, filename },
            app,
            directory_after(
                EventView::Identified { peer, protocol_version: announced(nickname) },
                directory,
            ),
        ) == (ActionView::SendRequest { peer, request: filename }),
{
    law_announced_nickname_is_read_back(nickname);
}

/// Under a nickname that no peer announced nothing is asked for.
pub proof fn law_unknown_nickname_is_not_asked(
    app: AppView,
    directory: DirectoryView,
    nickname: Seq<char>,
    filename: Seq<char>,
)
    requires
        !directory.peers.contains_key(nickname),
    ensures
        command_action(CommandView::Get { nickname, filename }, app, directory) is Idle,
        command_lines(CommandView::Get { nickname, filename }, app, directory).last()
            == "Unknown peer nickname: "@ + nickname,
{
}

/// A file that is asked for is read under the name in the request; what was read arrives unchanged,
/// together with that name, and nothing but storing it is asked for.
pub proof fn law_file_arrives_unchanged(
    peer: Seq<char>,
    filename: Seq<char>,
    data: Seq<u8>,
    request_id: Seq<char>,
    reading: ActionView,
    answering: ActionView,
)
    requires
        data.len() > 0,
        event_action(EventView::FileRequested { peer, request: filename }, reading),
        event_action(
            EventView::FileRead { request: filename, outcome: ReadOutcomeView::Read { data } },
            answering,
        ),
    ensures
        reading == (ActionView::ReadFile { request: filename }),
        answering matches ActionView::Respond { response } && {
            &&& response == (FileResponseView { file_data: data, original_filename: filename })
            &&& forall|action: ActionView| #[trigger]
                event_action(EventView::FileReceived { request_id, response }, action) ==> (
                action matches ActionView::SaveFile { response: saved, .. } && saved == response)
        },
{
}

/// A file that came is stored whole, under a name of this node's own: the prefix, then the stem and
/// the extension of the name that was asked for, without the directories that it names. Where the
/// platform decides what these are, they are still behind the prefix. Once the file is written, the
/// user is told that name.
pub proof fn law_received_file_is_stored_under_its_name(
    request_id: Seq<char>,
    response: FileResponseView,
    action: ActionView,
    app: AppView,
    directory: DirectoryView,
)
    requires
        response.file_data.len() > 0,
        event_action(EventView::FileReceived { request_id, response }, action),
    ensures
        action matches ActionView::SaveFile { name, response: saved } && {
            let path = response.original_filename;
            &&& saved == response
            &&& portable(path) ==> name == stored_name(stem(path), extension(path))
            &&& !backslash_in_front(path) ==> last_index(name, '/') < 0
            &&& "received_"@.is_prefix_of(name)
            &&& after_event(EventView::FileStored { name, error: None }, app, directory)
                == app.noted(seq!["File saved as: "@ + name])
        },
{
    if let ActionView::SaveFile { name, .. } = action {
        let (s, e) = choose|s: Option<Seq<char>>, e: Option<Seq<char>>|
            name == #[trigger] stored_name(s, e);
        assert("received_"@.is_prefix_of(stored_name(s, e)));
    }
}

/// A file that could not be read, and a file without any bytes, is reported to the peer that asked
/// as not found, and nothing is stored there.
pub proof fn law_missing_file_is_reported(
    filename: Seq<char>,
    outcome: ReadOutcomeView,
    request_id: Seq<char>,
    asker: AppView,
    directory: DirectoryView,
)
    requires
        outcome matches ReadOutcomeView::Read { data } ==> data.len() == 0,
    ensures
        ({
            let received = EventView::FileReceived {
                request_id,
                response: response_to(filename, outcome),
            };
            &&& forall|action: ActionView| #[trigger]
                event_action(EventView::FileRead { request: filename, outcome }, action) <==> action
                    == (ActionView::Respond { response: response_to(filename, outcome) })
            &&& forall|action: ActionView| #[trigger]
                event_action(received, action) <==> action is Idle
            &&& event_lines(received, asker, directory).last() == "File not found on remote peer."@
        }),
{
}

} // verus!
