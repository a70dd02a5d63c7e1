use libp2p::{gossipsub, Multiaddr, PeerId};
use std::collections::HashMap;
use swapbytes::peers::{
    identified_nickname, identify_protocol, listen_address, maybe_peer_text, Peer, PeerDirectory,
};
use swapbytes::settings::{GossipSettings, FILE_PROTOCOL, IDLE_TIMEOUT_SECS, PUBLIC_TOPIC};

const FIRST: &str = "QmYyQSo1c1Ym7orWxLYvCrM2EmxFTANf8wXmmE7DWjhx5N";
const SECOND: &str = "12D3KooWDpJ7As7BWAwRMfu1VU2WCqNjvq387JEYKDBj4kx6nXTN";

fn peer(text: &str) -> Peer {
    Peer::from_bytes(&text.parse::<PeerId>().unwrap().to_bytes()).unwrap()
}

#[test]
fn a_peer_is_shown_by_its_base58_text() {
    for text in [FIRST, SECOND] {
        let id: PeerId = text.parse().unwrap();
        assert_eq!(peer(text).as_str(), text);
        assert_eq!(peer(text).as_str(), format!("{}", id));
        assert_eq!(peer(text).shown(), format!("{:?}", id));
        assert_eq!(maybe_peer_text(&Some(peer(text))), format!("{:?}", Some(id)));
    }
    assert_eq!(peer(FIRST).shown(), format!("PeerId(\"{}\")", FIRST));
    assert_eq!(maybe_peer_text(&None), "None");
}

#[test]
fn bytes_that_encode_no_identity_give_no_peer() {
    assert!(Peer::from_bytes(&[]).is_none());
    assert!(Peer::from_bytes(&[1, 2, 3]).is_none());
    let mut bytes = FIRST.parse::<PeerId>().unwrap().to_bytes();
    bytes.push(0);
    assert!(Peer::from_bytes(&bytes).is_none());
}

#[test]
fn hashes_and_short_keys_are_identities() {
    for (code, longest) in [(0x12u8, 64u8), (0u8, 42u8)] {
        for length in 0..=longest {
            let mut bytes = vec![code, length];
            for i in 0..length {
                bytes.push(i);
            }
            let id = PeerId::from_bytes(&bytes).unwrap();
            assert_eq!(Peer::from_bytes(&bytes).unwrap().as_str(), id.to_base58());
            assert_eq!(id.to_bytes(), bytes);
        }
        let mut bytes = vec![code, longest + 1];
        for i in 0..=longest {
            bytes.push(i);
        }
        assert!(Peer::from_bytes(&bytes).is_none());
    }
}

#[test]
fn an_announced_nickname_is_read_back() {
    assert_eq!(identify_protocol("Alice"), "/ipfs/id/1.0.0/Alice");
    for nickname in ["Alice", "", "a/b", "\u{e9}t\u{e9}"] {
        assert_eq!(
            identified_nickname(&identify_protocol(nickname)),
            Some(nickname.to_string())
        );
    }
    assert_eq!(identified_nickname("/ipfs/0.1.0"), None);
    assert_eq!(identified_nickname("/ipfs/id/1.0.0"), None);
    assert_eq!(identified_nickname("/ipfs/id/1.0.1/Alice"), None);
    assert_eq!(identified_nickname(""), None);
    assert_eq!(identified_nickname("x/ipfs/id/1.0.0/Alice"), None);
}

#[test]
fn any_free_port_is_listened_on_by_default() {
    let bytes = listen_address(None).unwrap();
    assert_eq!(bytes, vec![4, 0, 0, 0, 0, 6, 0, 0]);
    let address = Multiaddr::try_from(bytes).unwrap();
    assert_eq!(address.to_string(), "/ip4/0.0.0.0/tcp/0");
}

#[test]
fn the_given_port_is_listened_on() {
    let bytes = listen_address(Some("50001".to_string())).unwrap();
    assert_eq!(bytes, vec![4, 0, 0, 0, 0, 6, 195, 81]);
    let address = Multiaddr::try_from(bytes).unwrap();
    assert_eq!(address.to_string(), "/ip4/0.0.0.0/tcp/50001");
}

#[test]
fn every_port_number_has_its_address() {
    for port in 0..=u16::MAX {
        let bytes = listen_address(Some(port.to_string())).unwrap();
        assert_eq!(bytes, vec![4, 0, 0, 0, 0, 6, (port / 256) as u8, (port % 256) as u8]);
    }
}

#[test]
fn a_port_that_is_no_number_is_refused() {
    for port in ["", "http", "65536", "-1"] {
        let text = format!("/ip4/0.0.0.0/tcp/{}", port);
        let expected = format!("{:?}", text.parse::<Multiaddr>().unwrap_err());
        match listen_address(Some(port.to_string())) {
            Err(error) => assert_eq!(error.reason, expected),
            Ok(_) => panic!("{:?}", port),
        }
    }
}

#[test]
fn an_identified_peer_is_found() {
    let mut directory = PeerDirectory::new();
    assert!(directory.peer_of("Alice").is_none());
    assert_eq!(directory.nickname_of(&peer(FIRST)), None);
    assert_eq!(directory.shown(), "{}");

    directory.identify(&peer(FIRST), "Alice");
    assert_eq!(directory.peer_of("Alice").unwrap().as_str(), FIRST);
    assert_eq!(directory.nickname_of(&peer(FIRST)), Some("Alice"));
    let mut map: HashMap<String, PeerId> = HashMap::new();
    map.insert("Alice".to_string(), FIRST.parse().unwrap());
    assert_eq!(directory.shown(), format!("{:?}", map));

    directory.identify(&peer(SECOND), "Triste");
    assert_eq!(
        directory.shown(),
        format!("{{\"Alice\": PeerId(\"{}\"), \"Triste\": PeerId(\"{}\")}}", FIRST, SECOND)
    );

    // A second peer may take over a nickname.
    directory.identify(&peer(SECOND), "Alice");
    assert_eq!(directory.peer_of("Alice").unwrap().as_str(), SECOND);
    assert_eq!(directory.peer_of("Triste").unwrap().as_str(), SECOND);
    assert_eq!(directory.nickname_of(&peer(FIRST)), Some("Alice"));
    assert_eq!(directory.nickname_of(&peer(SECOND)), Some("Alice"));
}

#[test]
fn the_gossip_settings_are_accepted() {
    let settings = GossipSettings::new();
    let built = gossipsub::ConfigBuilder::default()
        .mesh_n_low(settings.mesh_n_low)
        .mesh_n(settings.mesh_n)
        .mesh_n_high(settings.mesh_n_high)
        .gossip_lazy(settings.gossip_lazy)
        .history_length(settings.history_length)
        .history_gossip(settings.history_gossip)
        .build();
    assert!(built.is_ok());
    assert_eq!(settings.heartbeat_interval_secs, 1);
    assert_eq!(settings.fanout_ttl_secs, 60);
    assert_eq!(PUBLIC_TOPIC, "public_chat");
    assert_eq!(FILE_PROTOCOL, "/file-exchange/1.0.0");
    assert_eq!(IDLE_TIMEOUT_SECS, 60);
}
