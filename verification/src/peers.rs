//! Peers of the network: who they are, what they call themselves, and where this node listens.

use vstd::prelude::*;

use crate::text::{
    concat2, concat3, debug_str, debug_text, decimal, join, join_from,
    law_joining_puts_one_separator_between, strip_prefix, texts,
};
use crate::text_map::{
    as_map, has_key, lemma_as_map, lemma_with_entry, unique_keys, with_entry, Entry, TextMap,
};

verus! {

/// The base-58 text of the peer identity that the bytes encode; `None` where they encode none.
pub uninterp spec fn peer_id_base58(bytes: Seq<u8>) -> Option<Seq<char>>;

/// The bytes of the address that a text writes down, or why it writes down none.
pub uninterp spec fn multiaddr_bytes(text: Seq<char>) -> Result<Seq<u8>, Seq<char>>;

/// The model of a parsed address.
pub open spec fn parsed_view(parsed: Result<Vec<u8>, String>) -> Result<Seq<u8>, Seq<char>> {
    match parsed {
        Ok(bytes) => Ok(bytes@),
        Err(reason) => Err(reason@),
    }
}

/// Where the text is a TCP port on all IPv4 interfaces, it was parsed as that address.
pub open spec fn tcp_ports_parsed(text: Seq<char>, parsed: Result<Seq<u8>, Seq<char>>) -> bool {
    forall|port: u16|
        text == tcp_on_all_interfaces(#[trigger] decimal(port as nat)) ==> parsed == Ok::<
            Seq<u8>,
            Seq<char>,
        >(tcp_address_bytes(port))
}

/// The bytes of an identity as a peer writes them: a SHA-256 hash, or a key that is short enough to
/// stand for itself, behind its code and its length.
pub open spec fn peer_id_encoding(bytes: Seq<u8>) -> bool {
    &&& bytes.len() >= 2
    &&& bytes.len() == bytes[1] + 2
    &&& bytes[0] == 0x12 && bytes[1] <= 64 || bytes[0] == 0 && bytes[1] <= 42
}

/// `libp2p::PeerId::from_bytes`, then `to_base58`. Which bytes encode an identity, and its text,
/// are functions of the bytes alone; what a peer writes encodes one.
#[verifier::external_body]
fn base58_of_peer_id(bytes: &[u8]) -> (text: Option<String>)
    ensures
        text is Some <==> peer_id_base58(bytes@) is Some,
        text matches Some(t) ==> peer_id_base58(bytes@) == Some(t@),
        peer_id_encoding(bytes@) ==> text is Some,
{
    libp2p::PeerId::from_bytes(bytes).ok().map(|id| id.to_base58())
}

/// Parses a `libp2p::Multiaddr` and gives its bytes, or the `Debug` form of the error. Both are
/// functions of the text alone. A TCP port on all IPv4 interfaces is an address: the code of
/// IPv4 and the address zero, the code of TCP and the port, high byte first.
#[verifier::external_body]
fn parse_multiaddr(text: &str) -> (parsed: Result<Vec<u8>, String>)
    ensures
        parsed_view(parsed) == multiaddr_bytes(text@),
        tcp_ports_parsed(text@, parsed_view(parsed)),
{
    match text.parse::<libp2p::Multiaddr>() {
        Ok(address) => Ok(address.to_vec()),
        Err(error) => Err(format!("{:?}", error)),
    }
}

/// The identity of a peer, as base-58 text.
pub struct Peer {
    id: String,
}

/// A peer is modelled by its identity text.
impl View for Peer {
    type V = Seq<char>;

    closed spec fn view(&self) -> Seq<char> {
        self.id@
    }
}

/// How a peer is shown in full.
pub open spec fn peer_shown(peer: Seq<char>) -> Seq<char> {
    "PeerId("@ + debug_str(peer) + ")"@
}

/// How a peer that may be unknown is shown.
pub open spec fn maybe_peer_shown(peer: Option<Seq<char>>) -> Seq<char> {
    match peer {
        Some(p) => "Some("@ + peer_shown(p) + ")"@,
        None => "None"@,
    }
}

impl Peer {
    /// The peer whose identity the bytes encode.
    pub fn from_bytes(bytes: &[u8]) -> (peer: Option<Peer>)
        ensures
            peer is Some <==> peer_id_base58(bytes@) is Some,
            peer matches Some(p) ==> peer_id_base58(bytes@) == Some(p@),
            peer_id_encoding(bytes@) ==> peer is Some,
    {
        match base58_of_peer_id(bytes) {
            Some(id) => Some(Peer { id }),
            None => None,
        }
    }

    /// The identity as base-58 text.
    pub fn as_str(&self) -> (id: &str)
        ensures
            id@ == self@,
    {
        self.id.as_str()
    }

    /// The peer as it is shown to the user.
    pub fn shown(&self) -> (shown: String)
        ensures
            shown@ == peer_shown(self@),
    {
        peer_text(self.id.as_str())
    }
}

fn peer_text(id: &str) -> (shown: String)
    ensures
        shown@ == peer_shown(id@),
{
    concat3("PeerId(", debug_text(id).as_str(), ")")
}

/// A peer that may be unknown, as it is shown to the user.
pub fn maybe_peer_text(peer: &Option<Peer>) -> (shown: String)
    ensures
        shown@ == maybe_peer_shown(
            match peer {
                Some(p) => Some(p@),
                None => None,
            },
        ),
{
    match peer {
        Some(p) => concat3("Some(", p.shown().as_str(), ")"),
        None => "None".to_string(),
    }
}

/// What stands before the nickname in the protocol version that a peer announces.
pub open spec fn identify_prefix() -> Seq<char> {
    "/ipfs/id/1.0.0/"@
}

/// The protocol version that a peer with the nickname announces.
pub open spec fn announced(nickname: Seq<char>) -> Seq<char> {
    identify_prefix() + nickname
}

/// The nickname in an announced protocol version, `None` if it is not this protocol.
pub open spec fn announced_nickname(protocol_version: Seq<char>) -> Option<Seq<char>> {
    if identify_prefix().is_prefix_of(protocol_version) {
        Some(protocol_version.skip(identify_prefix().len() as int))
    } else {
        None
    }
}

/// The protocol version to announce under a nickname.
pub fn identify_protocol(nickname: &str) -> (protocol_version: String)
    ensures
        protocol_version@ == announced(nickname@),
{
    concat2("/ipfs/id/1.0.0/", nickname)
}

/// The nickname that a protocol version announces.
pub fn identified_nickname(protocol_version: &str) -> (nickname: Option<String>)
    ensures
        nickname is Some <==> announced_nickname(protocol_version@) is Some,
        nickname matches Some(n) ==> announced_nickname(protocol_version@) == Some(n@),
{
    strip_prefix(protocol_version, "/ipfs/id/1.0.0/")
}

/// A nickname that was announced is read back.
pub proof fn law_announced_nickname_is_read_back(nickname: Seq<char>)
    ensures
        announced_nickname(announced(nickname)) == Some(nickname),
{
    assert(announced(nickname).skip(identify_prefix().len() as int) == nickname);
    assert(identify_prefix().is_prefix_of(announced(nickname)));
}

/// The address of a TCP port on all IPv4 interfaces.
pub open spec fn tcp_on_all_interfaces(port: Seq<char>) -> Seq<char> {
    "/ip4/0.0.0.0/tcp/"@ + port
}

/// The same address in bytes, for a port number.
pub open spec fn tcp_address_bytes(port: u16) -> Seq<u8> {
    seq![4u8, 0, 0, 0, 0, 6, (port / 256) as u8, (port % 256) as u8]
}

/// Why there is no address to listen on.
#[derive(Debug)]
pub struct AddressError {
    pub reason: String,
}

/// The model of an address to listen on.
pub open spec fn listen_view(address: Result<Vec<u8>, AddressError>) -> Result<
    Seq<u8>,
    Seq<char>,
> {
    match address {
        Ok(bytes) => Ok(bytes@),
        Err(error) => Err(error.reason@),
    }
}

/// The port to listen on: port zero, which stands for any free port, unless one is given.
pub open spec fn listen_port(port: Option<Seq<char>>) -> Seq<char> {
    match port {
        Some(p) => p,
        None => "0"@,
    }
}

/// The address to listen on, in bytes.
pub fn listen_address(port: Option<String>) -> (address: Result<Vec<u8>, AddressError>)
    ensures
        listen_view(address) == multiaddr_bytes(
            tcp_on_all_interfaces(
                listen_port(
                    match port {
                        Some(p) => Some(p@),
                        None => None,
                    },
                ),
            ),
        ),
        port is None ==> (address matches Ok(bytes) && bytes@ == tcp_address_bytes(0)),
        forall|number: u16|
            (port matches Some(p) && p@ == #[trigger] decimal(number as nat)) ==> (
            address matches Ok(bytes) && bytes@ == tcp_address_bytes(number)),
{
    let chosen: String = match port {
        Some(p) => p,
        None => "0".to_string(),
    };
    proof {
        reveal_strlit("0");
        assert("0"@ =~= decimal(0));
    }
    match parse_multiaddr(concat2("/ip4/0.0.0.0/tcp/", chosen.as_str()).as_str()) {
        Ok(bytes) => Ok(bytes),
        Err(reason) => Err(AddressError { reason }),
    }
}

/// What the peers that were identified call themselves, and which peer goes by a nickname.
pub struct PeerDirectory {
    nicknames: TextMap,
    peers: TextMap,
}

/// The model of a [`PeerDirectory`]: peer to nickname, and nickname to peer with the nicknames in
/// the order in which they came.
pub struct DirectoryView {
    pub nicknames: Map<Seq<char>, Seq<char>>,
    pub peers: Map<Seq<char>, Seq<char>>,
    pub order: Seq<Entry>,
}

impl View for PeerDirectory {
    type V = DirectoryView;

    closed spec fn view(&self) -> DirectoryView {
        DirectoryView {
            nicknames: self.nicknames@,
            peers: self.peers@,
            order: self.peers.order(),
        }
    }
}

impl DirectoryView {
    /// Nobody was identified yet.
    pub open spec fn empty() -> DirectoryView {
        DirectoryView { nicknames: Map::empty(), peers: Map::empty(), order: Seq::empty() }
    }

    /// Each nickname is listed once, with the peer that it leads to.
    pub open spec fn wf(self) -> bool {
        unique_keys(self.order) && self.peers == as_map(self.order)
    }

    /// The directory after a peer was identified by a nickname.
    pub open spec fn identified(self, peer: Seq<char>, nickname: Seq<char>) -> DirectoryView {
        DirectoryView {
            nicknames: self.nicknames.insert(peer, nickname),
            peers: self.peers.insert(nickname, peer),
            order: with_entry(self.order, nickname, peer),
        }
    }

    /// How the nicknames with their peers are shown.
    pub open spec fn shown(self) -> Seq<char> {
        "{"@ + join(
            self.order.map_values(|e: Entry| debug_str(e.0) + ": "@ + peer_shown(e.1)),
            ", "@,
        ) + "}"@
    }
}

impl PeerDirectory {
    /// Each peer is held once.
    pub closed spec fn inv(&self) -> bool {
        self.nicknames.wf()
    }

    /// Each peer and each nickname is held once.
    pub open spec fn wf(&self) -> bool {
        self.inv() && self@.wf()
    }

    /// Nobody was identified yet.
    pub fn new() -> (directory: PeerDirectory)
        ensures
            directory.wf(),
            directory@ == DirectoryView::empty(),
    {
        PeerDirectory { nicknames: TextMap::new(), peers: TextMap::new() }
    }

    /// Records what a peer calls itself.
    pub fn identify(&mut self, peer: &Peer, nickname: &str)
        requires
            old(self).wf(),
        ensures
            final(self).wf(),
            final(self)@ == old(self)@.identified(peer@, nickname@),
    {
        self.nicknames.insert(peer.id.clone(), nickname.to_string());
        self.peers.insert(nickname.to_string(), peer.id.clone());
    }

    /// What the peer calls itself.
    pub fn nickname_of(&self, peer: &Peer) -> (nickname: Option<&str>)
        requires
            self.wf(),
        ensures
            nickname is Some <==> self@.nicknames.contains_key(peer@),
            nickname matches Some(n) ==> n@ == self@.nicknames[peer@],
    {
        self.nicknames.get(peer.id.as_str())
    }

    /// Which peer goes by the nickname.
    pub fn peer_of(&self, nickname: &str) -> (peer: Option<Peer>)
        requires
            self.wf(),
        ensures
            peer is Some <==> self@.peers.contains_key(nickname@),
            peer matches Some(p) ==> p@ == self@.peers[nickname@],
    {
        match self.peers.get(nickname) {
            Some(id) => Some(Peer { id: id.to_string() }),
            None => None,
        }
    }

    /// The nicknames with their peers, as they are shown to the user.
    pub fn shown(&self) -> (shown: String)
        ensures
            shown@ == self@.shown(),
    {
        let mut rows: Vec<String> = Vec::new();
        let mut i: usize = 0;
        let ghost order = self.peers.order();
        let ghost row = |e: Entry| debug_str(e.0) + ": "@ + peer_shown(e.1);
        while i < self.peers.len()
            invariant
                order == self.peers.order(),
                row == (|e: Entry| debug_str(e.0) + ": "@ + peer_shown(e.1)),
                i <= order.len(),
                texts(rows@) == order.take(i as int).map_values(row),
            decreases order.len() - i,
        {
            let (nickname, peer) = self.peers.entry(i);
            let shown: String = concat3(
                debug_text(nickname).as_str(),
                ": ",
                peer_text(peer).as_str(),
            );
            assert(shown@ == row(order[i as int]));
            let ghost before = rows@;
            rows.push(shown);
            i = i + 1;
            assert(texts(rows@) == texts(before).push(row(order[i - 1])));
            assert(texts(rows@) == order.take(i as int).map_values(row));
        }
        assert(order.take(i as int) == order);
        assert(texts(rows@).skip(0) == texts(rows@));
        concat3("{", join_from(&rows, 0, ", ").as_str(), "}")
    }
}

/// Identifying a peer keeps the directory consistent.
pub proof fn law_identifying_keeps_the_directory(
    directory: DirectoryView,
    peer: Seq<char>,
    nickname: Seq<char>,
)
    requires
        directory.wf(),
    ensures
        directory.identified(peer, nickname).wf(),
{
    lemma_with_entry(directory.order, nickname, peer);
}

/// After a peer was identified, its nickname leads to it and it leads to its nickname; every other
/// nickname leads where it led before, and every other peer keeps its nickname.
pub proof fn law_identified_peer_is_found(
    directory: DirectoryView,
    peer: Seq<char>,
    nickname: Seq<char>,
)
    ensures
        ({
            let after = directory.identified(peer, nickname);
            &&& after.peers.contains_key(nickname) && after.peers[nickname] == peer
            &&& after.nicknames.contains_key(peer) && after.nicknames[peer] == nickname
            &&& forall|other: Seq<char>|
                other != nickname ==> after.peers.contains_key(other)
                    == directory.peers.contains_key(other) && (directory.peers.contains_key(other)
                    ==> #[trigger] after.peers[other] == directory.peers[other])
            &&& forall|other: Seq<char>|
                other != peer ==> after.nicknames.contains_key(other)
                    == directory.nicknames.contains_key(other)
                    && (directory.nicknames.contains_key(other) ==> #[trigger] after.nicknames[other]
                    == directory.nicknames[other])
        }),
{
}

/// Peers announce their nicknames behind the prefix of the protocol; any other protocol version
/// announces none.
pub proof fn law_nickname_stands_behind_the_prefix(nickname: Seq<char>, protocol_version: Seq<char>)
    ensures
        announced(nickname) == "/ipfs/id/1.0.0/"@ + nickname,
        announced_nickname(protocol_version) == Some(nickname) <==> protocol_version
            == "/ipfs/id/1.0.0/"@ + nickname,
        announced_nickname(protocol_version) is None <==> !"/ipfs/id/1.0.0/"@.is_prefix_of(
            protocol_version,
        ),
{
    law_announced_nickname_is_read_back(nickname);
    if announced_nickname(protocol_version) == Some(nickname) {
        assert(protocol_version =~= identify_prefix() + nickname);
    }
}

/// The node listens on all IPv4 interfaces, on the port that is given, or on port zero.
pub proof fn law_listens_on_the_port(port: Seq<char>, number: u16)
    ensures
        tcp_on_all_interfaces(listen_port(Some(port))) == "/ip4/0.0.0.0/tcp/"@ + port,
        tcp_on_all_interfaces(listen_port(None)) == "/ip4/0.0.0.0/tcp/0"@,
        tcp_address_bytes(number).len() == 8,
        tcp_address_bytes(number).take(6) == seq![4u8, 0, 0, 0, 0, 6],
        tcp_address_bytes(number)[6] * 256 + tcp_address_bytes(number)[7] == number,
{
    reveal_strlit("/ip4/0.0.0.0/tcp/");
    reveal_strlit("/ip4/0.0.0.0/tcp/0");
    reveal_strlit("0");
    assert("/ip4/0.0.0.0/tcp/"@ + "0"@ =~= "/ip4/0.0.0.0/tcp/0"@);
    assert(tcp_address_bytes(number).take(6) =~= seq![4u8, 0, 0, 0, 0, 6]);
}

/// The directory is shown in braces, and is empty at first. A nickname that is new comes last, with
/// its peer behind a colon, and behind a comma unless it is the first.
pub proof fn law_new_nickname_is_shown_last(
    directory: DirectoryView,
    peer: Seq<char>,
    nickname: Seq<char>,
)
    requires
        directory.wf(),
        !directory.peers.contains_key(nickname),
    ensures
        DirectoryView::empty().shown() == "{}"@,
        directory.order.len() == 0 ==> directory.identified(peer, nickname).shown() == "{"@ + (
        debug_str(nickname) + ": "@ + ("PeerId("@ + debug_str(peer) + ")"@)) + "}"@,
        directory.order.len() > 0 ==> directory.identified(peer, nickname).shown()
            == directory.shown().drop_last() + ", "@ + (debug_str(nickname) + ": "@ + ("PeerId("@
            + debug_str(peer) + ")"@)) + "}"@,
{
    reveal_strlit("{");
    reveal_strlit("}");
    reveal_strlit("{}");
    let row = |e: Entry| debug_str(e.0) + ": "@ + peer_shown(e.1);
    let after = directory.identified(peer, nickname);
    let rows = directory.order.map_values(row);
    let added = seq![row((nickname, peer))];
    assert(Seq::<Entry>::empty().map_values(row) =~= Seq::<Seq<char>>::empty());
    law_joining_puts_one_separator_between(rows, added, ", "@);
    law_joining_puts_one_separator_between(added, rows, ", "@);
    assert("{"@ + Seq::<char>::empty() + "}"@ =~= "{}"@);
    lemma_as_map(directory.order);
    assert(!has_key(directory.order, nickname));
    assert(after.order == directory.order.push((nickname, peer)));
    assert(after.order.map_values(row) =~= rows + added);
    if directory.order.len() == 0 {
        assert(rows + added =~= added);
    } else {
        assert(directory.shown().drop_last() =~= "{"@ + join(rows, ", "@));
        assert(after.shown() =~= directory.shown().drop_last() + ", "@ + row((nickname, peer))
            + "}"@);
    }
}

} // verus!
