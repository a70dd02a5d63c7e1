use libp2p::{gossipsub, PeerId};
use swapbytes::action::Action;
use swapbytes::app::{App, Key};
use swapbytes::events::{handle_event, receive_chat, Event, PublishOutcome, ReadOutcome};
use swapbytes::input::handle_input_line;
use swapbytes::messages::{ChatMessage, FileRequest, FileResponse, MessageType};
use swapbytes::peers::{identify_protocol, Peer, PeerDirectory};

const ALICE: &str = "QmYyQSo1c1Ym7orWxLYvCrM2EmxFTANf8wXmmE7DWjhx5N";

struct Node {
    app: App,
    directory: PeerDirectory,
}

fn peer() -> Peer {
    Peer::from_bytes(&ALICE.parse::<PeerId>().unwrap().to_bytes()).unwrap()
}

fn node(nickname: &str) -> Node {
    Node { app: App::new(nickname.to_string()), directory: PeerDirectory::new() }
}

fn enter(node: &mut Node, line: &str) -> Action {
    for c in line.chars() {
        node.app.press(Key::Char(c));
    }
    let action = handle_input_line(&mut node.app, &node.directory);
    assert_eq!(node.app.input(), "");
    action
}

fn happen(node: &mut Node, event: Event) -> Action {
    handle_event(&mut node.app, &mut node.directory, event)
}

fn last(node: &Node) -> &str {
    assert_eq!(node.app.selected(), Some(node.app.messages().len() - 1));
    node.app.messages().last().unwrap()
}

/// Enters a line that is to be published, and reports that it was sent.
fn publish(node: &mut Node, line: &str) -> ChatMessage {
    match enter(node, line) {
        Action::Publish { message, notice } => {
            happen(node, Event::Published { notice, outcome: PublishOutcome::Sent });
            message
        }
        _ => panic!("{:?}", line),
    }
}

/// Enters a line that is refused, and gives the answer.
fn refused(node: &mut Node, line: &str) -> String {
    assert!(matches!(enter(node, line), Action::Idle));
    last(node).to_string()
}

/// An event that only shows one line.
fn shows(node: &mut Node, event: Event) -> String {
    let before = node.app.messages().len();
    assert!(matches!(happen(node, event), Action::Idle));
    assert_eq!(node.app.messages().len(), before + 1);
    last(node).to_string()
}

#[test]
fn a_public_message_reaches_everybody() {
    let mut alice = node("Alice");
    let message = publish(&mut alice, "/msg hello, everyone!");
    assert_eq!(last(&alice), "Public message sent");
    assert_eq!(
        message,
        ChatMessage {
            sender: "Alice".to_string(),
            content: "hello, everyone!".to_string(),
            message_type: MessageType::PublicChat,
        }
    );
    for nickname in ["Triste", "Charlie"] {
        let mut other = node(nickname);
        receive_chat(&mut other.app, message.clone());
        assert_eq!(last(&other), "Public message from Alice: hello, everyone!");
    }
}

#[test]
fn a_direct_message_reaches_its_recipient_only() {
    let mut alice = node("Alice");
    let message = publish(&mut alice, "/dm Triste Hi,   Triste");
    assert_eq!(last(&alice), "Direct message sent to Triste");
    let mut triste = node("Triste");
    assert!(matches!(
        happen(&mut triste, Event::Chat { message: message.clone() }),
        Action::Idle
    ));
    assert_eq!(last(&triste), "Direct message from Alice: Hi, Triste");
    let mut charlie = node("Charlie");
    receive_chat(&mut charlie.app, message);
    assert_eq!(charlie.app.messages().len(), 0);
    assert_eq!(charlie.app.selected(), None);
}

#[test]
fn a_proposal_reaches_everybody() {
    let mut alice = node("Alice");
    let message = publish(&mut alice, "/propose test.docx");
    assert_eq!(last(&alice), "File proposal sent");
    assert_eq!(message.content, "I want to share file: test.docx");
    assert_eq!(message.message_type, MessageType::FileProposal);
    let mut triste = node("Triste");
    receive_chat(&mut triste.app, message);
    assert_eq!(last(&triste), "File proposal from Alice: I want to share file: test.docx");
}

#[test]
fn a_room_is_created_joined_and_used() {
    let mut triste = node("Triste");
    let mut charlie = node("Charlie");
    let mut alice = node("Alice");

    assert_eq!(refused(&mut charlie, "/join_room room1"), "Room 'room1' does not exist");

    let created = publish(&mut triste, "/create_room room1");
    assert_eq!(last(&triste), "Room 'room1' created");
    assert_eq!(created.content, "room1");
    assert_eq!(created.message_type, MessageType::CreateRoom { room: "room1".to_string() });
    for other in [&mut charlie, &mut alice] {
        receive_chat(&mut other.app, created.clone());
        assert_eq!(last(other), "Room 'room1' created by Triste");
    }

    let joined = publish(&mut triste, "/join_room room1");
    assert_eq!(last(&triste), "Joined room 'room1'");
    assert_eq!(joined.message_type, MessageType::JoinRoom { room: "room1".to_string() });
    receive_chat(&mut charlie.app, joined);
    assert_eq!(last(&charlie), "Triste joined room 'room1'");

    assert_eq!(refused(&mut charlie, "/list_rooms"), "Available rooms: room1");
    assert_eq!(
        refused(&mut charlie, "/room room1 Hi"),
        "You are not in room 'room1'. Please join the room first."
    );
    publish(&mut charlie, "/join_room room1");
    let said = publish(&mut charlie, "/room room1 Hi, room1!");
    assert_eq!(last(&charlie), "Message sent to room 'room1'");
    assert_eq!(said.message_type, MessageType::RoomMessage { room: "room1".to_string() });

    receive_chat(&mut triste.app, said.clone());
    assert_eq!(last(&triste), "[room1] Charlie says: Hi, room1!");
    receive_chat(&mut alice.app, said.clone());
    assert_eq!(last(&alice), "Room 'room1' created by Triste");

    let left = publish(&mut triste, "/leave_room room1");
    assert_eq!(last(&triste), "Left room 'room1'");
    assert_eq!(left.message_type, MessageType::LeaveRoom { room: "room1".to_string() });
    receive_chat(&mut charlie.app, left);
    assert_eq!(last(&charlie), "Triste left room 'room1'");
    receive_chat(&mut triste.app, said);
    assert_eq!(last(&triste), "Left room 'room1'");
    assert_eq!(refused(&mut triste, "/leave_room room1"), "You are not in room 'room1'");
    assert!(triste.app.has_room("room1"));
}

#[test]
fn rooms_are_listed_once_each() {
    let mut node = node("Alice");
    assert_eq!(refused(&mut node, "/list_rooms"), "Available rooms: ");
    publish(&mut node, "/create_room films");
    publish(&mut node, "/create_room books");
    publish(&mut node, "/create_room films");
    assert_eq!(refused(&mut node, "/list_rooms"), "Available rooms: films, books");
}

#[test]
fn refused_lines_are_answered() {
    let mut node = node("Alice");
    assert_eq!(refused(&mut node, "/msg"), "Usage: /msg <message>");
    assert_eq!(refused(&mut node, "/dm Bob"), "Usage: /dm <recipient> <message>");
    assert_eq!(
        refused(&mut node, "hello"),
        "Unknown command. Available commands: /msg, /dm, /propose, /get, /create_room, \
         /join_room, /leave_room, /list_rooms, /room"
    );
    assert_eq!(node.app.messages().len(), 3);
    assert_eq!(node.app.room_list(","), "");
}

#[test]
fn the_outcome_of_publishing_is_shown() {
    let mut node = node("Alice");
    let notice = || "Public message sent".to_string();
    assert_eq!(
        shows(&mut node, Event::Published { notice: notice(), outcome: PublishOutcome::Sent }),
        "Public message sent"
    );
    assert_eq!(
        shows(
            &mut node,
            Event::Published { notice: notice(), outcome: PublishOutcome::InsufficientPeers }
        ),
        "Warning: Insufficient peers to propagate the message"
    );
    let outcome = PublishOutcome::Failed { error: "Duplicate".to_string() };
    assert_eq!(
        shows(&mut node, Event::Published { notice: notice(), outcome }),
        "Error sending message: Duplicate"
    );
}

#[test]
fn an_identified_peer_can_be_asked_for_a_file() {
    let mut triste = node("Triste");
    assert!(matches!(enter(&mut triste, "/get Alice test.docx"), Action::Idle));
    assert_eq!(
        triste.app.messages(),
        &vec![
            "Current nickname_to_peer_id mapping: {}".to_string(),
            "Unknown peer nickname: Alice".to_string(),
        ]
    );

    let event = Event::Identified { peer: peer(), protocol_version: identify_protocol("Alice") };
    assert!(matches!(happen(&mut triste, event), Action::Idle));
    assert_eq!(
        triste.app.messages()[2..],
        [
            format!("Identified peer {} with nickname Alice", ALICE),
            format!("Nickname to PeerId mapping updated: \"Alice\" -> PeerId(\"{}\")", ALICE),
        ]
    );

    match enter(&mut triste, "/get Alice test.docx") {
        Action::SendRequest { peer, request } => {
            assert_eq!(peer.as_str(), ALICE);
            assert_eq!(request.filename, "test.docx");
        }
        _ => panic!(),
    }
    assert_eq!(
        triste.app.messages()[4..],
        [
            format!("Current nickname_to_peer_id mapping: {{\"Alice\": PeerId(\"{}\")}}", ALICE),
            "File request sent to Alice: test.docx".to_string(),
        ]
    );
}

#[test]
fn a_peer_of_another_protocol_is_not_identified() {
    let mut node = node("Alice");
    let event =
        Event::Identified { peer: peer(), protocol_version: "/ipfs/0.1.0".to_string() };
    assert!(matches!(happen(&mut node, event), Action::Idle));
    assert_eq!(node.app.messages().len(), 0);
    assert_eq!(node.directory.nickname_of(&peer()), None);
}

#[test]
fn a_file_request_is_shown_and_read() {
    let mut alice = node("Alice");
    let request = || FileRequest { filename: "test.docx".to_string() };
    assert_eq!(request().shown(), format!("{:?}", request()));
    match happen(&mut alice, Event::FileRequested { peer: peer(), request: request() }) {
        Action::ReadFile { request } => assert_eq!(request.filename, "test.docx"),
        _ => panic!(),
    }
    assert_eq!(
        last(&alice),
        "Received file request from unknown peer: FileRequest { filename: \"test.docx\" }"
    );
    alice.directory.identify(&peer(), "Triste");
    happen(&mut alice, Event::FileRequested { peer: peer(), request: request() });
    assert_eq!(
        last(&alice),
        "Received file request from Triste: FileRequest { filename: \"test.docx\" }"
    );
}

#[test]
fn a_file_arrives_unchanged() {
    let mut alice = node("Alice");
    let mut triste = node("Triste");
    let request = FileRequest { filename: "docs/test.docx".to_string() };
    let outcome = ReadOutcome::Read { data: vec![1, 2, 250] };
    let response = match happen(&mut alice, Event::FileRead { request, outcome }) {
        Action::Respond { response } => response,
        _ => panic!(),
    };
    assert_eq!(alice.app.messages().len(), 0);
    let event = Event::FileReceived { request_id: "1".to_string(), response };
    let (name, response) = match happen(&mut triste, event) {
        Action::SaveFile { name, response } => (name, response),
        _ => panic!(),
    };
    assert_eq!(response.file_data, vec![1, 2, 250]);
    assert_eq!(response.original_filename, "docs/test.docx");
    assert_eq!(
        triste.app.messages(),
        &vec![
            "Received file response for request 1".to_string(),
            "Received file of 3 bytes".to_string(),
        ]
    );
    assert_eq!(name, "received_test.docx");
    assert_eq!(
        shows(&mut triste, Event::FileStored { name: name.clone(), error: None }),
        "File saved as: received_test.docx"
    );
    let error = Some("disk full".to_string());
    assert_eq!(
        shows(&mut triste, Event::FileStored { name, error }),
        "Error writing file: disk full"
    );
}

#[test]
fn a_missing_file_is_reported_to_the_peer_that_asked() {
    let outcomes = vec![
        (
            ReadOutcome::NotOpened { error: "no such file".to_string() },
            vec!["File not found: test.docx, error: no such file".to_string()],
        ),
        (
            ReadOutcome::NotRead { error: "broken".to_string() },
            vec!["Error reading file: broken".to_string()],
        ),
        (ReadOutcome::Read { data: vec![] }, vec![]),
    ];
    for (outcome, lines) in outcomes {
        let mut alice = node("Alice");
        let mut triste = node("Triste");
        let request = FileRequest { filename: "test.docx".to_string() };
        let response = match happen(&mut alice, Event::FileRead { request, outcome }) {
            Action::Respond { response } => response,
            _ => panic!(),
        };
        assert_eq!(alice.app.messages(), &lines);
        assert_eq!(
            response,
            FileResponse { file_data: vec![], original_filename: "test.docx".to_string() }
        );
        let event = Event::FileReceived { request_id: "7".to_string(), response };
        assert!(matches!(happen(&mut triste, event), Action::Idle));
        assert_eq!(
            triste.app.messages(),
            &vec![
                "Received file response for request 7".to_string(),
                "File not found on remote peer.".to_string(),
            ]
        );
    }
}

#[test]
fn a_response_that_was_not_sent_is_shown() {
    for data in [vec![], vec![0], vec![1, 20, 255]] {
        let mut node = node("Alice");
        let response =
            FileResponse { file_data: data, original_filename: "a \"b\".txt".to_string() };
        let expected = format!("Error sending file response: {:?}", response);
        assert_eq!(shows(&mut node, Event::ResponseFailed { response }), expected);
    }
}

#[test]
fn a_discovered_peer_is_dialed() {
    let mut node = node("Alice");
    let address = "/ip4/10.32.38.113/tcp/50001";
    let event = Event::Discovered { peer: peer(), address: address.to_string() };
    match happen(&mut node, event) {
        Action::Dial { address: dialed } => assert_eq!(dialed, address),
        _ => panic!(),
    }
    assert_eq!(
        last(&node),
        format!("Discovered peer: PeerId(\"{}\") at \"{}\"", ALICE, address)
    );
    assert_eq!(
        shows(&mut node, Event::DiscoveredDialed { peer: peer(), error: None }),
        format!("Dialing discovered peer: PeerId(\"{}\")", ALICE)
    );
    let error = Some("Aborted".to_string());
    assert_eq!(
        shows(&mut node, Event::DiscoveredDialed { peer: peer(), error }),
        format!("Failed to dial discovered peer PeerId(\"{}\"): Aborted", ALICE)
    );
}

#[test]
fn the_address_that_is_listened_on_is_shown_in_quotes() {
    let mut node = node("Alice");
    let address = "/ip4/127.0.0.1/tcp/50001".to_string();
    assert_eq!(
        shows(&mut node, Event::Listening { address }),
        "Listening on \"/ip4/127.0.0.1/tcp/50001\""
    );
}

#[test]
fn connections_are_shown() {
    let mut node = node("Alice");
    let shown = format!("PeerId(\"{}\")", ALICE);
    let address = || "/ip4/10.0.0.1/tcp/1".to_string();
    assert_eq!(
        shows(&mut node, Event::AddressDialed { address: address() }),
        "Dialing peer: \"/ip4/10.0.0.1/tcp/1\""
    );
    assert_eq!(
        shows(&mut node, Event::Connected { peer: peer() }),
        format!("Connected to peer {}", shown)
    );
    assert_eq!(
        shows(&mut node, Event::Disconnected { peer: peer() }),
        format!("Disconnected from peer {}", shown)
    );
    assert_eq!(
        shows(&mut node, Event::Expired { peer: peer() }),
        format!("Expired peer: {}", shown)
    );
    assert_eq!(
        shows(&mut node, Event::Dialing { peer: Some(peer()) }),
        format!("Dialing peer Some({})", shown)
    );
    assert_eq!(shows(&mut node, Event::Dialing { peer: None }), "Dialing peer None");
    assert_eq!(
        shows(&mut node, Event::ConnectFailed { peer: None, error: "Timeout".to_string() }),
        "Error connecting to peer None: Timeout"
    );
    let event = Event::IncomingFailed { address: address(), error: "Aborted".to_string() };
    assert_eq!(
        shows(&mut node, event),
        "Error with incoming connection from \"/ip4/10.0.0.1/tcp/1\": Aborted"
    );
}

#[test]
fn a_subscription_is_shown() {
    let mut node = node("Alice");
    let topic = gossipsub::TopicHash::from_raw("public_chat");
    let expected = format!(
        "Subscribed to topic {:?} from peer {:?}",
        topic,
        ALICE.parse::<PeerId>().unwrap()
    );
    let event = Event::Subscribed { topic: topic.into_string(), peer: peer() };
    assert_eq!(shows(&mut node, event), expected);
}

#[test]
fn a_request_for_the_rooms_shows_nothing() {
    let mut node = node("Alice");
    let message = ChatMessage {
        sender: "Triste".to_string(),
        content: String::new(),
        message_type: MessageType::ListRooms,
    };
    receive_chat(&mut node.app, message);
    assert_eq!(node.app.messages().len(), 0);
}

#[test]
fn older_messages_and_known_rooms_stay() {
    let mut node = node("Alice");
    publish(&mut node, "/create_room room1");
    publish(&mut node, "/join_room room1");
    let before = node.app.messages().clone();
    node.app.press(Key::Char('d'));
    for line in ["/leave_room room1", "/create_room room2", "/list_rooms", "/get Bob x", "?"] {
        node.app.take_input();
        enter(&mut node, line);
    }
    node.app.press(Key::Char('d'));
    happen(&mut node, Event::Connected { peer: peer() });
    assert_eq!(node.app.messages()[..before.len()], before[..]);
    assert!(node.app.has_room("room1"));
    assert_eq!(node.app.input(), "d");
    assert_eq!(node.app.nickname(), "Alice");
}
