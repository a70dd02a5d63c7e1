//! What each event asks for, what it tells the user, and what the node remembers of it.

use vstd::prelude::*;

use crate::action::ActionView;
use crate::app::{same_rooms, told, AppView};
use crate::command::CommandView;
use crate::events::{
    after_chat, after_event, directory_after, event_action, EventView, PublishOutcomeView,
    ReadOutcomeView,
};
use crate::input::{after_command, command_action};
use crate::messages::{ChatMessageView, FileResponseView, MessageTypeView};
use crate::names::law_name_is_put_in_once;
use crate::peers::{law_nickname_stands_behind_the_prefix, DirectoryView};
use crate::text::{debug_str, decimal, join};

verus! {

/// The event tells the user the lines and asks for nothing; no room and no entry of the directory
/// changes.
pub open spec fn only_tells(
    event: EventView,
    app: AppView,
    directory: DirectoryView,
    lines: Seq<Seq<char>>,
) -> bool {
    &&& told(app, after_event(event, app, directory), lines)
    &&& same_rooms(app, after_event(event, app, directory))
    &&& directory_after(event, directory) == directory
    &&& forall|action: ActionView| #[trigger] event_action(event, action) <==> action is Idle
}

/// Every peer that is found on the local network is shown, and its address is dialed; how that
/// ended is shown too. So is a peer that is gone.
pub proof fn law_discovered_peers_are_dialed(
    peer: Seq<char>,
    address: Seq<char>,
    error: Seq<char>,
    app: AppView,
    directory: DirectoryView,
)
    ensures
        ({
            let event = EventView::Discovered { peer, address };
            &&& forall|action: ActionView| #[trigger]
                event_action(event, action) <==> action == (ActionView::Dial { address })
            &&& told(
                app,
                after_event(event, app, directory),
                seq![
                    "Discovered peer: "@ + ("PeerId("@ + debug_str(peer) + ")"@) + " at "@
                        + debug_str(address),
                ],
            )
            &&& same_rooms(app, after_event(event, app, directory))
            &&& directory_after(event, directory) == directory
        }),
        only_tells(
            EventView::DiscoveredDialed { peer, error: None },
            app,
            directory,
            seq!["Dialing discovered peer: "@ + ("PeerId("@ + debug_str(peer) + ")"@)],
        ),
        only_tells(
            EventView::DiscoveredDialed { peer, error: Some(error) },
            app,
            directory,
            seq![
                "Failed to dial discovered peer "@ + ("PeerId("@ + debug_str(peer) + ")"@) + ": "@
                    + error,
            ],
        ),
        only_tells(
            EventView::Expired { peer },
            app,
            directory,
            seq!["Expired peer: "@ + ("PeerId("@ + debug_str(peer) + ")"@)],
        ),
{
}

/// After a message was handed to the network, the user reads the notice if it was sent, a warning
/// if there was nobody to send it to, and the error otherwise.
pub proof fn law_outcome_of_publishing_is_told(
    notice: Seq<char>,
    error: Seq<char>,
    app: AppView,
    directory: DirectoryView,
)
    ensures
        only_tells(
            EventView::Published { notice, outcome: PublishOutcomeView::Sent },
            app,
            directory,
            seq![notice],
        ),
        only_tells(
            EventView::Published { notice, outcome: PublishOutcomeView::InsufficientPeers },
            app,
            directory,
            seq!["Warning: Insufficient peers to propagate the message"@],
        ),
        only_tells(
            EventView::Published { notice, outcome: PublishOutcomeView::Failed { error } },
            app,
            directory,
            seq!["Error sending message: "@ + error],
        ),
{
}

/// The addresses that the node dials and listens on are shown.
pub proof fn law_addresses_are_told(
    address: Seq<char>,
    error: Seq<char>,
    app: AppView,
    directory: DirectoryView,
)
    ensures
        only_tells(
            EventView::AddressDialed { address },
            app,
            directory,
            seq!["Dialing peer: "@ + debug_str(address)],
        ),
        only_tells(
            EventView::Listening { address },
            app,
            directory,
            seq!["Listening on "@ + debug_str(address)],
        ),
        only_tells(
            EventView::IncomingFailed { address, error },
            app,
            directory,
            seq!["Error with incoming connection from "@ + debug_str(address) + ": "@ + error],
        ),
{
}

/// Connections that are tried, made, closed and failed are shown with the peer, if it is known, and
/// so are the topics that a peer subscribes to.
pub proof fn law_connections_are_told(
    peer: Seq<char>,
    topic: Seq<char>,
    error: Seq<char>,
    app: AppView,
    directory: DirectoryView,
)
    ensures
        only_tells(
            EventView::Connected { peer },
            app,
            directory,
            seq!["Connected to peer "@ + ("PeerId("@ + debug_str(peer) + ")"@)],
        ),
        only_tells(
            EventView::Disconnected { peer },
            app,
            directory,
            seq!["Disconnected from peer "@ + ("PeerId("@ + debug_str(peer) + ")"@)],
        ),
        only_tells(
            EventView::ConnectFailed { peer: Some(peer), error },
            app,
            directory,
            seq![
                "Error connecting to peer "@ + ("Some("@ + ("PeerId("@ + debug_str(peer) + ")"@)
                    + ")"@) + ": "@ + error,
            ],
        ),
        only_tells(
            EventView::ConnectFailed { peer: None, error },
            app,
            directory,
            seq!["Error connecting to peer "@ + "None"@ + ": "@ + error],
        ),
        only_tells(
            EventView::Dialing { peer: Some(peer) },
            app,
            directory,
            seq!["Dialing peer "@ + ("Some("@ + ("PeerId("@ + debug_str(peer) + ")"@) + ")"@)],
        ),
        only_tells(
            EventView::Dialing { peer: None },
            app,
            directory,
            seq!["Dialing peer "@ + "None"@],
        ),
        only_tells(
            EventView::Subscribed { topic, peer },
            app,
            directory,
            seq![
                "Subscribed to topic "@ + ("TopicHash { hash: "@ + debug_str(topic) + " }"@)
                    + " from peer "@ + ("PeerId("@ + debug_str(peer) + ")"@),
            ],
        ),
{
}

/// A peer that announces a nickname is shown with it; one of another protocol changes nothing and
/// is not shown.
pub proof fn law_identified_peers_are_told(
    peer: Seq<char>,
    nickname: Seq<char>,
    protocol_version: Seq<char>,
    app: AppView,
    directory: DirectoryView,
)
    ensures
        ({
            let event = EventView::Identified { peer, protocol_version };
            &&& protocol_version == "/ipfs/id/1.0.0/"@ + nickname ==> told(
                app,
                after_event(event, app, directory),
                seq![
                    "Identified peer "@ + peer + " with nickname "@ + nickname,
                    "Nickname to PeerId mapping updated: "@ + debug_str(nickname) + " -> "@ + (
                    "PeerId("@ + debug_str(peer) + ")"@),
                ],
            )
            &&& !"/ipfs/id/1.0.0/"@.is_prefix_of(protocol_version) ==> only_tells(
                event,
                app,
                directory,
                Seq::empty(),
            )
            &&& same_rooms(app, after_event(event, app, directory))
            &&& forall|action: ActionView| #[trigger]
                event_action(event, action) <==> action is Idle
        }),
{
    law_nickname_stands_behind_the_prefix(nickname, protocol_version);
    assert(app.messages + Seq::<Seq<char>>::empty() =~= app.messages);
}

/// Only an announced nickname changes the directory. It leads to the peer that announced it, and
/// that peer has it; every other nickname leads where it led before, and every other peer keeps its
/// nickname.
pub proof fn law_other_peers_stay_in_the_directory(
    event: EventView,
    directory: DirectoryView,
    nickname: Seq<char>,
    other_nickname: Seq<char>,
    other_peer: Seq<char>,
)
    ensures
        !(event is Identified) ==> directory_after(event, directory) == directory,
        event matches EventView::Identified { peer, protocol_version } ==> {
            let after = directory_after(event, directory);
            &&& !"/ipfs/id/1.0.0/"@.is_prefix_of(protocol_version) ==> after == directory
            &&& protocol_version == "/ipfs/id/1.0.0/"@ + nickname ==> {
                &&& after.peers.contains_key(nickname) && after.peers[nickname] == peer
                &&& after.nicknames.contains_key(peer) && after.nicknames[peer] == nickname
            }
            &&& protocol_version != "/ipfs/id/1.0.0/"@ + other_nickname ==> {
                &&& after.peers.contains_key(other_nickname) == directory.peers.contains_key(
                    other_nickname,
                )
                &&& directory.peers.contains_key(other_nickname) ==> after.peers[other_nickname]
                    == directory.peers[other_nickname]
            }
            &&& peer != other_peer ==> {
                &&& after.nicknames.contains_key(other_peer) == directory.nicknames.contains_key(
                    other_peer,
                )
                &&& directory.nicknames.contains_key(other_peer) ==> after.nicknames[other_peer]
                    == directory.nicknames[other_peer]
            }
        },
{
    if let EventView::Identified { protocol_version, .. } = event {
        law_nickname_stands_behind_the_prefix(nickname, protocol_version);
        law_nickname_stands_behind_the_prefix(other_nickname, protocol_version);
    }
}

/// Peers that announced different nicknames, one after the other, can both be asked for files under
/// them, whatever else happens between and afterwards that is no announcement.
pub proof fn law_all_identified_peers_can_be_asked(
    directory: DirectoryView,
    app: AppView,
    first: Seq<char>,
    first_nickname: Seq<char>,
    second: Seq<char>,
    second_nickname: Seq<char>,
    between: EventView,
    afterwards: EventView,
    filename: Seq<char>,
)
    requires
        first_nickname != second_nickname,
        !(between is Identified),
        !(afterwards is Identified),
    ensures
        ({
            let one = directory_after(
                EventView::Identified {
                    peer: first,
                    protocol_version: "/ipfs/id/1.0.0/"@ + first_nickname,
                },
                directory,
            );
            let two = directory_after(
                EventView::Identified {
                    peer: second,
                    protocol_version: "/ipfs/id/1.0.0/"@ + second_nickname,
                },
                directory_after(between, one),
            );
            let known = directory_after(afterwards, two);
            &&& command_action(
                CommandView::Get { nickname: first_nickname, filename },
                app,
                known,
            ) == (ActionView::SendRequest { peer: first, request: filename })
            &&& command_action(
                CommandView::Get { nickname: second_nickname, filename },
                app,
                known,
            ) == (ActionView::SendRequest { peer: second, request: filename })
        }),
{
    law_nickname_stands_behind_the_prefix(
        first_nickname,
        "/ipfs/id/1.0.0/"@ + first_nickname,
    );
    law_nickname_stands_behind_the_prefix(
        second_nickname,
        "/ipfs/id/1.0.0/"@ + second_nickname,
    );
}

/// A chat message that comes from the network is received as any chat message: the user sees the
/// same, and the same rooms are known. It asks for nothing and leaves the directory alone.
pub proof fn law_chat_from_the_network_is_received(
    message: ChatMessageView,
    app: AppView,
    directory: DirectoryView,
)
    ensures
        after_event(EventView::Chat { message }, app, directory) == after_chat(message, app),
        directory_after(EventView::Chat { message }, directory) == directory,
        forall|action: ActionView| #[trigger]
            event_action(EventView::Chat { message }, action) <==> action is Idle,
{
}

/// A chat message shows one line to those it is for, with its sender and its text, and nothing to
/// others.
pub proof fn law_chat_is_told_to_those_it_is_for(
    message: ChatMessageView,
    app: AppView,
    room: Seq<char>,
    recipient: Seq<char>,
)
    ensures
        ({
            let after = after_chat(message, app);
            &&& message.message_type is PublicChat ==> told(
                app,
                after,
                seq!["Public message from "@ + message.sender + ": "@ + message.content],
            )
            &&& message.message_type is FileProposal ==> told(
                app,
                after,
                seq!["File proposal from "@ + message.sender + ": "@ + message.content],
            )
            &&& message.message_type == (MessageTypeView::DirectMessage { recipient }) ==> told(
                app,
                after,
                if recipient == app.nickname {
                    seq!["Direct message from "@ + message.sender + ": "@ + message.content]
                } else {
                    Seq::empty()
                },
            )
            &&& message.message_type == (MessageTypeView::RoomMessage { room }) ==> told(
                app,
                after,
                if app.joined_rooms.contains(room) {
                    seq!["["@ + room + "] "@ + message.sender + " says: "@ + message.content]
                } else {
                    Seq::empty()
                },
            )
            &&& message.message_type == (MessageTypeView::CreateRoom { room }) ==> told(
                app,
                after,
                seq!["Room '"@ + room + "' created by "@ + message.sender],
            )
            &&& message.message_type == (MessageTypeView::JoinRoom { room }) ==> told(
                app,
                after,
                seq![message.sender + " joined room '"@ + room + "'"@],
            )
            &&& message.message_type == (MessageTypeView::LeaveRoom { room }) ==> told(
                app,
                after,
                seq![message.sender + " left room '"@ + room + "'"@],
            )
            &&& message.message_type is ListRooms ==> told(app, after, Seq::empty())
        }),
{
    assert(app.messages + Seq::<Seq<char>>::empty() =~= app.messages);
}

/// A chat message that says that a room was created makes that room known, besides the others, and
/// it can then be joined. No other chat message changes the known rooms, and none changes the rooms
/// that the user is in.
pub proof fn law_rooms_are_learned_from_chat(
    message: ChatMessageView,
    app: AppView,
    directory: DirectoryView,
    room: Seq<char>,
)
    requires
        app.wf(),
    ensures
        ({
            let after = after_event(EventView::Chat { message }, app, directory);
            let join_room = CommandView::JoinRoom { room };
            &&& message.message_type == (MessageTypeView::CreateRoom { room }) ==> {
                &&& forall|other: Seq<char>| #[trigger]
                    after.rooms.contains(other) <==> app.rooms.contains(other) || other == room
                &&& app.rooms.is_prefix_of(after.rooms)
                &&& command_action(join_room, after, directory) is Publish
                &&& after_command(join_room, after, directory).joined_rooms.contains(room)
            }
            &&& !(message.message_type is CreateRoom) ==> after.rooms == app.rooms
            &&& after.joined_rooms == app.joined_rooms
        }),
{
    law_name_is_put_in_once(app.rooms, room);
}

/// A request for a file is shown with the nickname of the peer that asks, if it announced one, and
/// the file is read under the name that was asked for.
pub proof fn law_requested_file_is_read(
    peer: Seq<char>,
    filename: Seq<char>,
    app: AppView,
    directory: DirectoryView,
)
    ensures
        ({
            let event = EventView::FileRequested { peer, request: filename };
            let after = after_event(event, app, directory);
            let shown = "FileRequest { filename: "@ + debug_str(filename) + " }"@;
            &&& forall|action: ActionView| #[trigger]
                event_action(event, action) <==> action == (ActionView::ReadFile {
                    request: filename,
                })
            &&& directory.nicknames.contains_key(peer) ==> told(
                app,
                after,
                seq![
                    "Received file request from "@ + directory.nicknames[peer] + ": "@ + shown,
                ],
            )
            &&& !directory.nicknames.contains_key(peer) ==> told(
                app,
                after,
                seq!["Received file request from unknown peer: "@ + shown],
            )
            &&& same_rooms(app, after)
            &&& directory_after(event, directory) == directory
        }),
{
}

/// What was read is the answer, under the name that was asked for, and nothing is shown. A file
/// that could not be opened or read is answered without data, and the user is told why.
pub proof fn law_read_file_is_the_answer(
    filename: Seq<char>,
    data: Seq<u8>,
    error: Seq<char>,
    app: AppView,
    directory: DirectoryView,
)
    ensures
        ({
            let event = EventView::FileRead {
                request: filename,
                outcome: ReadOutcomeView::Read { data },
            };
            &&& forall|action: ActionView| #[trigger]
                event_action(event, action) <==> action == (ActionView::Respond {
                    response: FileResponseView { file_data: data, original_filename: filename },
                })
            &&& after_event(event, app, directory) == app
            &&& directory_after(event, directory) == directory
        }),
        ({
            let event = EventView::FileRead {
                request: filename,
                outcome: ReadOutcomeView::NotOpened { error },
            };
            &&& forall|action: ActionView| #[trigger]
                event_action(event, action) <==> action == (ActionView::Respond {
                    response: FileResponseView {
                        file_data: Seq::empty(),
                        original_filename: filename,
                    },
                })
            &&& told(
                app,
                after_event(event, app, directory),
                seq!["File not found: "@ + filename + ", error: "@ + error],
            )
            &&& same_rooms(app, after_event(event, app, directory))
            &&& directory_after(event, directory) == directory
        }),
        ({
            let event = EventView::FileRead {
                request: filename,
                outcome: ReadOutcomeView::NotRead { error },
            };
            &&& forall|action: ActionView| #[trigger]
                event_action(event, action) <==> action == (ActionView::Respond {
                    response: FileResponseView {
                        file_data: Seq::empty(),
                        original_filename: filename,
                    },
                })
            &&& told(
                app,
                after_event(event, app, directory),
                seq!["Error reading file: "@ + error],
            )
            &&& same_rooms(app, after_event(event, app, directory))
            &&& directory_after(event, directory) == directory
        }),
{
}

/// An answer that could not be sent is shown with all that is in it.
pub proof fn law_answer_that_was_not_sent_is_told(
    response: FileResponseView,
    app: AppView,
    directory: DirectoryView,
)
    ensures
        only_tells(
            EventView::ResponseFailed { response },
            app,
            directory,
            seq![
                "Error sending file response: "@ + ("FileResponse { file_data: ["@ + join(
                    Seq::new(
                        response.file_data.len(),
                        |i: int| decimal(response.file_data[i] as nat),
                    ),
                    ", "@,
                ) + "], original_filename: "@ + debug_str(response.original_filename) + " }"@),
            ],
        ),
{
    assert(Seq::new(response.file_data.len(), |i: int| decimal(response.file_data[i] as nat))
        =~= response.file_data.map_values(|b: u8| decimal(b as nat)));
}

/// An answer is shown with its request and its size, and its data are stored; one without data is
/// shown as a file that was not found, and nothing is stored. How storing ended is shown.
pub proof fn law_answer_is_told_and_stored(
    request_id: Seq<char>,
    response: FileResponseView,
    name: Seq<char>,
    error: Seq<char>,
    app: AppView,
    directory: DirectoryView,
)
    ensures
        ({
            let event = EventView::FileReceived { request_id, response };
            &&& response.file_data.len() > 0 ==> {
                &&& told(
                    app,
                    after_event(event, app, directory),
                    seq![
                        "Received file response for request "@ + request_id,
                        "Received file of "@ + decimal(response.file_data.len()) + " bytes"@,
                    ],
                )
                &&& same_rooms(app, after_event(event, app, directory))
                &&& directory_after(event, directory) == directory
                &&& forall|action: ActionView| #[trigger]
                    event_action(event, action) ==> (action matches ActionView::SaveFile {
                        response: saved,
                        ..
                    } && saved == response)
            }
            &&& response.file_data.len() == 0 ==> only_tells(
                event,
                app,
                directory,
                seq![
                    "Received file response for request "@ + request_id,
                    "File not found on remote peer."@,
                ],
            )
        }),
        only_tells(
            EventView::FileStored { name, error: None },
            app,
            directory,
            seq!["File saved as: "@ + name],
        ),
        only_tells(
            EventView::FileStored { name, error: Some(error) },
            app,
            directory,
            seq!["Error writing file: "@ + error],
        ),
{
}

} // verus!
