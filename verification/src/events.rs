//! What happens on the network, and what the node makes of it.

use vstd::prelude::*;

use crate::action::{Action, ActionView};
use crate::app::{App, AppView};
use crate::files::{received_file_name, stored_as};
use crate::messages::{
    request_shown, response_shown, ChatMessage, ChatMessageView, FileRequest, FileResponse,
    FileResponseView, MessageType, MessageTypeView,
};
use crate::names::with_name;
use crate::peers::{
    announced_nickname, identified_nickname, maybe_peer_shown, maybe_peer_text, peer_shown,
    DirectoryView, Peer, PeerDirectory,
};
use crate::text::{
    concat2, concat3, concat4, debug_str, debug_text, decimal, decimal_text, same_text,
};

verus! {

/// How publishing a message ended.
pub enum PublishOutcome {
    /// It was sent.
    Sent,
    /// There was nobody to send it to.
    InsufficientPeers,
    /// Anything else, with the error as it is shown.
    Failed { error: String },
}

/// How reading a file ended.
pub enum ReadOutcome {
    /// These are its bytes.
    Read { data: Vec<u8> },
    /// It could not be opened, with the error as it is shown.
    NotOpened { error: String },
    /// It could not be read to its end, with the error as it is shown.
    NotRead { error: String },
}

/// Something that happened. Addresses are given as text, errors as they are shown.
pub enum Event {
    /// A message was published, or not.
    Published { notice: String, outcome: PublishOutcome },
    /// An address that the user named was dialed.
    AddressDialed { address: String },
    /// A peer was found on the local network.
    Discovered { peer: Peer, address: String },
    /// A peer that was found was dialed; the error says why that failed.
    DiscoveredDialed { peer: Peer, error: Option<String> },
    /// A peer on the local network is gone.
    Expired { peer: Peer },
    /// The node listens on an address.
    Listening { address: String },
    /// A peer announced its protocol version.
    Identified { peer: Peer, protocol_version: String },
    /// A peer subscribed to a topic.
    Subscribed { topic: String, peer: Peer },
    /// A chat message came.
    Chat { message: ChatMessage },
    /// A peer asks for a file.
    FileRequested { peer: Peer, request: FileRequest },
    /// A file that was asked for was read, or not.
    FileRead { request: FileRequest, outcome: ReadOutcome },
    /// A response could not be sent.
    ResponseFailed { response: FileResponse },
    /// A response to a request came.
    FileReceived { request_id: String, response: FileResponse },
    /// A file that came was written under the name; the error says why that failed.
    FileStored { name: String, error: Option<String> },
    /// A connection was made.
    Connected { peer: Peer },
    /// A connection was closed.
    Disconnected { peer: Peer },
    /// A connection could not be made.
    ConnectFailed { peer: Option<Peer>, error: String },
    /// A connection from outside failed.
    IncomingFailed { address: String, error: String },
    /// A peer is being dialed.
    Dialing { peer: Option<Peer> },
}

/// The model of a [`PublishOutcome`].
pub enum PublishOutcomeView {
    Sent,
    InsufficientPeers,
    Failed { error: Seq<char> },
}

/// The model of a [`ReadOutcome`].
pub enum ReadOutcomeView {
    Read { data: Seq<u8> },
    NotOpened { error: Seq<char> },
    NotRead { error: Seq<char> },
}

/// The model of an [`Event`].
pub enum EventView {
    Published { notice: Seq<char>, outcome: PublishOutcomeView },
    AddressDialed { address: Seq<char> },
    Discovered { peer: Seq<char>, address: Seq<char> },
    DiscoveredDialed { peer: Seq<char>, error: Option<Seq<char>> },
    Expired { peer: Seq<char> },
    Listening { address: Seq<char> },
    Identified { peer: Seq<char>, protocol_version: Seq<char> },
    Subscribed { topic: Seq<char>, peer: Seq<char> },
    Chat { message: ChatMessageView },
    FileRequested { peer: Seq<char>, request: Seq<char> },
    FileRead { request: Seq<char>, outcome: ReadOutcomeView },
    ResponseFailed { response: FileResponseView },
    FileReceived { request_id: Seq<char>, response: FileResponseView },
    FileStored { name: Seq<char>, error: Option<Seq<char>> },
    Connected { peer: Seq<char> },
    Disconnected { peer: Seq<char> },
    ConnectFailed { peer: Option<Seq<char>>, error: Seq<char> },
    IncomingFailed { address: Seq<char>, error: Seq<char> },
    Dialing { peer: Option<Seq<char>> },
}

impl View for PublishOutcome {
    type V = PublishOutcomeView;

    open spec fn view(&self) -> PublishOutcomeView {
        match self {
            PublishOutcome::Sent => PublishOutcomeView::Sent,
            PublishOutcome::InsufficientPeers => PublishOutcomeView::InsufficientPeers,
            PublishOutcome::Failed { error } => PublishOutcomeView::Failed { error: error@ },
        }
    }
}

impl View for ReadOutcome {
    type V = ReadOutcomeView;

    open spec fn view(&self) -> ReadOutcomeView {
        match self {
            ReadOutcome::Read { data } => ReadOutcomeView::Read { data: data@ },
            ReadOutcome::NotOpened { error } => ReadOutcomeView::NotOpened { error: error@ },
            ReadOutcome::NotRead { error } => ReadOutcomeView::NotRead { error: error@ },
        }
    }
}

/// The model of an error that there may be.
pub open spec fn error_view(error: Option<String>) -> Option<Seq<char>> {
    match error {
        Some(e) => Some(e@),
        None => None,
    }
}

/// The model of a peer that may be unknown.
pub open spec fn maybe_peer_view(peer: Option<Peer>) -> Option<Seq<char>> {
    match peer {
        Some(p) => Some(p@),
        None => None,
    }
}

impl View for Event {
    type V = EventView;

    open spec fn view(&self) -> EventView {
        match self {
            Event::Published { notice, outcome } => EventView::Published {
                notice: notice@,
                outcome: outcome@,
            },
            Event::AddressDialed { address } => EventView::AddressDialed { address: address@ },
            Event::Discovered { peer, address } => EventView::Discovered {
                peer: peer@,
                address: address@,
            },
            Event::DiscoveredDialed { peer, error } => EventView::DiscoveredDialed {
                peer: peer@,
                error: error_view(*error),
            },
            Event::Expired { peer } => EventView::Expired { peer: peer@ },
            Event::Listening { address } => EventView::Listening { address: address@ },
            Event::Identified { peer, protocol_version } => EventView::Identified {
                peer: peer@,
                protocol_version: protocol_version@,
            },
            Event::Subscribed { topic, peer } => EventView::Subscribed {
                topic: topic@,
                peer: peer@,
            },
            Event::Chat { message } => EventView::Chat { message: message@ },
            Event::FileRequested { peer, request } => EventView::FileRequested {
                peer: peer@,
                request: request@,
            },
            Event::FileRead { request, outcome } => EventView::FileRead {
                request: request@,
                outcome: outcome@,
            },
            Event::ResponseFailed { response } => EventView::ResponseFailed {
                response: response@,
            },
            Event::FileReceived { request_id, response } => EventView::FileReceived {
                request_id: request_id@,
                response: response@,
            },
            Event::FileStored { name, error } => EventView::FileStored {
                name: name@,
                error: error_view(*error),
            },
            Event::Connected { peer } => EventView::Connected { peer: peer@ },
            Event::Disconnected { peer } => EventView::Disconnected { peer: peer@ },
            Event::ConnectFailed { peer, error } => EventView::ConnectFailed {
                peer: maybe_peer_view(*peer),
                error: error@,
            },
            Event::IncomingFailed { address, error } => EventView::IncomingFailed {
                address: address@,
                error: error@,
            },
            Event::Dialing { peer } => EventView::Dialing { peer: maybe_peer_view(*peer) },
        }
    }
}

/// The line that a chat message shows, if the user is to see it: a direct message is for its
/// recipient, a room message for the members of the room.
pub open spec fn chat_line(message: ChatMessageView, app: AppView) -> Option<Seq<char>> {
    match message.message_type {
        MessageTypeView::PublicChat => Some(
            "Public message from "@ + message.sender + ": "@ + message.content,
        ),
        MessageTypeView::DirectMessage { recipient } if recipient == app.nickname => Some(
            "Direct message from "@ + message.sender + ": "@ + message.content,
        ),
        MessageTypeView::FileProposal => Some(
            "File proposal from "@ + message.sender + ": "@ + message.content,
        ),
        MessageTypeView::CreateRoom { room } => Some(
            "Room '"@ + room + "' created by "@ + message.sender,
        ),
        MessageTypeView::JoinRoom { room } => Some(message.sender + " joined room '"@ + room + "'"@),
        MessageTypeView::LeaveRoom { room } => Some(message.sender + " left room '"@ + room + "'"@),
        MessageTypeView::RoomMessage { room } if app.joined_rooms.contains(room) => Some(
            "["@ + room + "] "@ + message.sender + " says: "@ + message.content,
        ),
        _ => None,
    }
}

/// The lines that a chat message shows.
pub open spec fn chat_lines(message: ChatMessageView, app: AppView) -> Seq<Seq<char>> {
    match chat_line(message, app) {
        Some(line) => seq![line],
        None => Seq::empty(),
    }
}

/// The known rooms after a chat message.
pub open spec fn chat_rooms(message: ChatMessageView, app: AppView) -> Seq<Seq<char>> {
    match message.message_type {
        MessageTypeView::CreateRoom { room } => with_name(app.rooms, room),
        _ => app.rooms,
    }
}

/// The state after a chat message.
pub open spec fn after_chat(message: ChatMessageView, app: AppView) -> AppView {
    AppView { rooms: chat_rooms(message, app), ..app }.noted(chat_lines(message, app))
}

/// The line on how publishing ended.
pub open spec fn published_line(notice: Seq<char>, outcome: PublishOutcomeView) -> Seq<char> {
    match outcome {
        PublishOutcomeView::Sent => notice,
        PublishOutcomeView::InsufficientPeers => "Warning: Insufficient peers to propagate the message"@,
        PublishOutcomeView::Failed { error } => "Error sending message: "@ + error,
    }
}

/// The lines that an event shows.
pub open spec fn event_lines(
    event: EventView,
    app: AppView,
    directory: DirectoryView,
) -> Seq<Seq<char>> {
    match event {
        EventView::Published { notice, outcome } => seq![published_line(notice, outcome)],
        EventView::AddressDialed { address } => seq!["Dialing peer: "@ + debug_str(address)],
        EventView::Discovered { peer, address } => seq![
            "Discovered peer: "@ + peer_shown(peer) + " at "@ + debug_str(address),
        ],
        EventView::DiscoveredDialed { peer, error } => seq![
            match error {
                Some(e) => "Failed to dial discovered peer "@ + peer_shown(peer) + ": "@ + e,
                None => "Dialing discovered peer: "@ + peer_shown(peer),
            },
        ],
        EventView::Expired { peer } => seq!["Expired peer: "@ + peer_shown(peer)],
        EventView::Listening { address } => seq!["Listening on "@ + debug_str(address)],
        EventView::Identified { peer, protocol_version } => match announced_nickname(
            protocol_version,
        ) {
            Some(nickname) => seq![
                "Identified peer "@ + peer + " with nickname "@ + nickname,
                "Nickname to PeerId mapping updated: "@ + debug_str(nickname) + " -> "@
                    + peer_shown(peer),
            ],
            None => Seq::empty(),
        },
        EventView::Subscribed { topic, peer } => seq![
            "Subscribed to topic "@ + topic_shown(topic) + " from peer "@ + peer_shown(peer),
        ],
        EventView::Chat { message } => chat_lines(message, app),
        EventView::FileRequested { peer, request } => seq![
            if directory.nicknames.contains_key(peer) {
                "Received file request from "@ + directory.nicknames[peer] + ": "@ + request_shown(
                    request,
                )
            } else {
                "Received file request from unknown peer: "@ + request_shown(request)
            },
        ],
        EventView::FileRead { request, outcome } => match outcome {
            ReadOutcomeView::Read { .. } => Seq::empty(),
            ReadOutcomeView::NotOpened { error } => seq![
                "File not found: "@ + request + ", error: "@ + error,
            ],
            ReadOutcomeView::NotRead { error } => seq!["Error reading file: "@ + error],
        },
        EventView::ResponseFailed { response } => seq![
            "Error sending file response: "@ + response_shown(response),
        ],
        EventView::FileReceived { request_id, response } => seq![
            "Received file response for request "@ + request_id,
            if response.file_data.len() == 0 {
                "File not found on remote peer."@
            } else {
                "Received file of "@ + decimal(response.file_data.len()) + " bytes"@
            },
        ],
        EventView::FileStored { name, error } => seq![
            match error {
                Some(e) => "Error writing file: "@ + e,
                None => "File saved as: "@ + name,
            },
        ],
        EventView::Connected { peer } => seq!["Connected to peer "@ + peer_shown(peer)],
        EventView::Disconnected { peer } => seq!["Disconnected from peer "@ + peer_shown(peer)],
        EventView::ConnectFailed { peer, error } => seq![
            "Error connecting to peer "@ + maybe_peer_shown(peer) + ": "@ + error,
        ],
        EventView::IncomingFailed { address, error } => seq![
            "Error with incoming connection from "@ + debug_str(address) + ": "@ + error,
        ],
        EventView::Dialing { peer } => seq!["Dialing peer "@ + maybe_peer_shown(peer)],
    }
}

/// How a topic is shown.
pub open spec fn topic_shown(topic: Seq<char>) -> Seq<char> {
    "TopicHash { hash: "@ + debug_str(topic) + " }"@
}

/// The response to a request for a file that was read, or not. A file that could not be read is
/// answered without data.
pub open spec fn response_to(request: Seq<char>, outcome: ReadOutcomeView) -> FileResponseView {
    FileResponseView {
        file_data: match outcome {
            ReadOutcomeView::Read { data } => data,
            _ => Seq::empty(),
        },
        original_filename: request,
    }
}

/// The action is what an event asks to be done. A file that came is to be stored with all that came
/// with it, under a name that [`stored_as`] allows; all else is fixed by the event.
pub open spec fn event_action(event: EventView, action: ActionView) -> bool {
    match event {
        EventView::Discovered { address, .. } => action == (ActionView::Dial { address }),
        EventView::FileRequested { request, .. } => action == (ActionView::ReadFile { request }),
        EventView::FileRead { request, outcome } => action == (ActionView::Respond {
            response: response_to(request, outcome),
        }),
        EventView::FileReceived { response, .. } if response.file_data.len() > 0 => {
            action matches ActionView::SaveFile { name, response: saved } && {
                &&& saved == response
                &&& stored_as(response.original_filename, name)
            }
        },
        _ => action is Idle,
    }
}

/// The known rooms after an event.
pub open spec fn event_rooms(event: EventView, app: AppView) -> Seq<Seq<char>> {
    match event {
        EventView::Chat { message } => chat_rooms(message, app),
        _ => app.rooms,
    }
}

/// The state after an event.
pub open spec fn after_event(
    event: EventView,
    app: AppView,
    directory: DirectoryView,
) -> AppView {
    AppView { rooms: event_rooms(event, app), ..app }.noted(event_lines(event, app, directory))
}

/// The directory after an event.
pub open spec fn directory_after(event: EventView, directory: DirectoryView) -> DirectoryView {
    match event {
        EventView::Identified { peer, protocol_version } => match announced_nickname(
            protocol_version,
        ) {
            Some(nickname) => directory.identified(peer, nickname),
            None => directory,
        },
        _ => directory,
    }
}

/// Shows a chat message that came, if it is for the user, and learns of rooms.
pub fn receive_chat(app: &mut App, message: ChatMessage)
    requires
        old(app).wf(),
    ensures
        final(app).wf(),
        final(app)@ == after_chat(message@, old(app)@),
{
    let ChatMessage { sender, content, message_type } = message;
    match message_type {
        MessageType::PublicChat => {
            app.add_message(
                concat4("Public message from ", sender.as_str(), ": ", content.as_str()),
            );
        },
        MessageType::DirectMessage { recipient } => {
            if same_text(recipient.as_str(), app.nickname()) {
                app.add_message(
                    concat4("Direct message from ", sender.as_str(), ": ", content.as_str()),
                );
            }
        },
        MessageType::FileProposal => {
            app.add_message(
                concat4("File proposal from ", sender.as_str(), ": ", content.as_str()),
            );
        },
        MessageType::CreateRoom { room } => {
            app.create_room(room.clone());
            app.add_message(concat4("Room '", room.as_str(), "' created by ", sender.as_str()));
        },
        MessageType::JoinRoom { room } => {
            app.add_message(concat4(sender.as_str(), " joined room '", room.as_str(), "'"));
        },
        MessageType::LeaveRoom { room } => {
            app.add_message(concat4(sender.as_str(), " left room '", room.as_str(), "'"));
        },
        MessageType::RoomMessage { room } => {
            if app.is_member(room.as_str()) {
                let mut line: String = concat4("[", room.as_str(), "] ", sender.as_str());
                line.append(" says: ");
                line.append(content.as_str());
                app.add_message(line);
            }
        },
        MessageType::ListRooms => {},
    }
}

/// Handles an event.
pub fn handle_event(app: &mut App, directory: &mut PeerDirectory, event: Event) -> (action: Action)
    requires
        old(app).wf(),
        old(directory).wf(),
    ensures
        final(app).wf(),
        final(directory).wf(),
        final(app)@ == after_event(event@, old(app)@, old(directory)@),
        final(directory)@ == directory_after(event@, old(directory)@),
        event_action(event@, action@),
{
    match event {
        Event::Published { notice, outcome } => {
            match outcome {
                PublishOutcome::Sent => app.add_message(notice),
                PublishOutcome::InsufficientPeers => app.add_message(
                    "Warning: Insufficient peers to propagate the message".to_string(),
                ),
                PublishOutcome::Failed { error } => app.add_message(
                    concat2("Error sending message: ", error.as_str()),
                ),
            }
            Action::Idle
        },
        Event::AddressDialed { address } => {
            app.add_message(concat2("Dialing peer: ", debug_text(address.as_str()).as_str()));
            Action::Idle
        },
        Event::Discovered { peer, address } => {
            app.add_message(
                concat4(
                    "Discovered peer: ",
                    peer.shown().as_str(),
                    " at ",
                    debug_text(address.as_str()).as_str(),
                ),
            );
            Action::Dial { address }
        },
        Event::DiscoveredDialed { peer, error } => {
            match error {
                Some(e) => app.add_message(
                    concat4(
                        "Failed to dial discovered peer ",
                        peer.shown().as_str(),
                        ": ",
                        e.as_str(),
                    ),
                ),
                None => app.add_message(
                    concat2("Dialing discovered peer: ", peer.shown().as_str()),
                ),
            }
            Action::Idle
        },
        Event::Expired { peer } => {
            app.add_message(concat2("Expired peer: ", peer.shown().as_str()));
            Action::Idle
        },
        Event::Listening { address } => {
            app.add_message(concat2("Listening on ", debug_text(address.as_str()).as_str()));
            Action::Idle
        },
        Event::Identified { peer, protocol_version } => {
            match identified_nickname(protocol_version.as_str()) {
                Some(nickname) => {
                    directory.identify(&peer, nickname.as_str());
                    app.add_message(
                        concat4(
                            "Identified peer ",
                            peer.as_str(),
                            " with nickname ",
                            nickname.as_str(),
                        ),
                    );
                    app.add_message(
                        concat4(
                            "Nickname to PeerId mapping updated: ",
                            debug_text(nickname.as_str()).as_str(),
                            " -> ",
                            peer.shown().as_str(),
                        ),
                    );
                },
                None => {},
            }
            Action::Idle
        },
        Event::Subscribed { topic, peer } => {
            let shown: String = concat3(
                "TopicHash { hash: ",
                debug_text(topic.as_str()).as_str(),
                " }",
            );
            app.add_message(
                concat4(
                    "Subscribed to topic ",
                    shown.as_str(),
                    " from peer ",
                    peer.shown().as_str(),
                ),
            );
            Action::Idle
        },
        Event::Chat { message } => {
            receive_chat(app, message);
            Action::Idle
        },
        Event::FileRequested { peer, request } => {
            match directory.nickname_of(&peer) {
                Some(nickname) => app.add_message(
                    concat4(
                        "Received file request from ",
                        nickname,
                        ": ",
                        request.shown().as_str(),
                    ),
                ),
                None => app.add_message(
                    concat2(
                        "Received file request from unknown peer: ",
                        request.shown().as_str(),
                    ),
                ),
            }
            Action::ReadFile { request }
        },
        Event::FileRead { request, outcome } => {
            let file_data: Vec<u8> = match outcome {
                ReadOutcome::Read { data } => data,
                ReadOutcome::NotOpened { error } => {
                    app.add_message(
                        concat4(
                            "File not found: ",
                            request.filename.as_str(),
                            ", error: ",
                            error.as_str(),
                        ),
                    );
                    Vec::new()
                },
                ReadOutcome::NotRead { error } => {
                    app.add_message(concat2("Error reading file: ", error.as_str()));
                    Vec::new()
                },
            };
            Action::Respond {
                response: FileResponse { file_data, original_filename: request.filename },
            }
        },
        Event::ResponseFailed { response } => {
            app.add_message(concat2("Error sending file response: ", response.shown().as_str()));
            Action::Idle
        },
        Event::FileReceived { request_id, response } => {
            app.add_message(
                concat2("Received file response for request ", request_id.as_str()),
            );
            let size: usize = response.file_data.len();
            if size == 0 {
                app.add_message("File not found on remote peer.".to_string());
                Action::Idle
            } else {
                app.add_message(
                    concat3("Received file of ", decimal_text(size as u64).as_str(), " bytes"),
                );
                let name: String = received_file_name(response.original_filename.as_str());
                Action::SaveFile { name, response }
            }
        },
        Event::FileStored { name, error } => {
            match error {
                Some(e) => app.add_message(concat2("Error writing file: ", e.as_str())),
                None => app.add_message(concat2("File saved as: ", name.as_str())),
            }
            Action::Idle
        },
        Event::Connected { peer } => {
            app.add_message(concat2("Connected to peer ", peer.shown().as_str()));
            Action::Idle
        },
        Event::Disconnected { peer } => {
            app.add_message(concat2("Disconnected from peer ", peer.shown().as_str()));
            Action::Idle
        },
        Event::ConnectFailed { peer, error } => {
            app.add_message(
                concat4(
                    "Error connecting to peer ",
                    maybe_peer_text(&peer).as_str(),
                    ": ",
                    error.as_str(),
                ),
            );
            Action::Idle
        },
        Event::IncomingFailed { address, error } => {
            app.add_message(
                concat4(
                    "Error with incoming connection from ",
                    debug_text(address.as_str()).as_str(),
                    ": ",
                    error.as_str(),
                ),
            );
            Action::Idle
        },
        Event::Dialing { peer } => {
            app.add_message(concat2("Dialing peer ", maybe_peer_text(&peer).as_str()));
            Action::Idle
        },
    }
}

/// The model of an outcome is the same outcome, with its data or its error.
pub proof fn law_models_hold_the_outcome(published: PublishOutcome, read: ReadOutcome)
    ensures
        published is Sent ==> published@ is Sent,
        published is InsufficientPeers ==> published@ is InsufficientPeers,
        published matches PublishOutcome::Failed { error }
            ==> published@ == (PublishOutcomeView::Failed { error: error@ }),
        read matches ReadOutcome::Read { data }
            ==> read@ == (ReadOutcomeView::Read { data: data@ }),
        read matches ReadOutcome::NotOpened { error }
            ==> read@ == (ReadOutcomeView::NotOpened { error: error@ }),
        read matches ReadOutcome::NotRead { error }
            ==> read@ == (ReadOutcomeView::NotRead { error: error@ }),
{
}

/// The model of an event is the same event, with all that is in it.
pub proof fn law_models_hold_the_event(event: Event)
    ensures
        event matches Event::Published { notice, outcome }
            ==> event@ == (EventView::Published { notice: notice@, outcome: outcome@ }),
        event matches Event::AddressDialed { address }
            ==> event@ == (EventView::AddressDialed { address: address@ }),
        event matches Event::Discovered { peer, address }
            ==> event@ == (EventView::Discovered { peer: peer@, address: address@ }),
        event matches Event::DiscoveredDialed { peer, error }
            ==> event@ == (EventView::DiscoveredDialed {
                peer: peer@,
                error: match error { Some(x) => Some(x@), None => None },
            }),
        event matches Event::Expired { peer } ==> event@ == (EventView::Expired { peer: peer@ }),
        event matches Event::Listening { address }
            ==> event@ == (EventView::Listening { address: address@ }),
        event matches Event::Identified { peer, protocol_version }
            ==> event@ == (EventView::Identified {
                peer: peer@,
                protocol_version: protocol_version@,
            }),
        event matches Event::Subscribed { topic, peer }
            ==> event@ == (EventView::Subscribed { topic: topic@, peer: peer@ }),
        event matches Event::Chat { message } ==> event@ == (EventView::Chat { message: message@ }),
        event matches Event::FileRequested { peer, request }
            ==> event@ == (EventView::FileRequested { peer: peer@, request: request@ }),
        event matches Event::FileRead { request, outcome }
            ==> event@ == (EventView::FileRead { request: request@, outcome: outcome@ }),
        event matches Event::ResponseFailed { response }
            ==> event@ == (EventView::ResponseFailed { response: response@ }),
        event matches Event::FileReceived { request_id, response }
            ==> event@ == (EventView::FileReceived {
                request_id: request_id@,
                response: response@,
            }),
        event matches Event::FileStored { name, error } ==> event@ == (EventView::FileStored {
            name: name@,
            error: match error { Some(x) => Some(x@), None => None },
        }),
        event matches Event::Connected { peer }
            ==> event@ == (EventView::Connected { peer: peer@ }),
        event matches Event::Disconnected { peer }
            ==> event@ == (EventView::Disconnected { peer: peer@ }),
        event matches Event::ConnectFailed { peer, error } ==> event@ == (EventView::ConnectFailed {
            peer: match peer { Some(x) => Some(x@), None => None },
            error: error@,
        }),
        event matches Event::IncomingFailed { address, error }
            ==> event@ == (EventView::IncomingFailed { address: address@, error: error@ }),
        event matches Event::Dialing { peer } ==> event@ == (EventView::Dialing {
            peer: match peer { Some(x) => Some(x@), None => None },
        }),
{
}

} // verus!
