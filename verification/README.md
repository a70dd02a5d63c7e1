# Swapbytes

A peer-to-peer node for chatting and for swapping files. Peers are known by nicknames, talk on a
public topic, directly or in rooms, and ask each other for files.

The library under `src/` holds the node's decisions and is verified with Verus; the program under
`app/` performs them on the terminal, the network and the file system.

## Options

- `--nickname <NICKNAME>`: your nickname (required)
- `--port <PORT>`: the port to listen on (any free port by default)
- `--peer <PEER_ADDR>`: the address of a peer to connect to; may be given several times
- `--bootstrap <BOOTSTRAP_ADDR>`: the address of a bootstrap node

## Commands

- `/msg <message>`: send a public message
- `/dm <recipient_nickname> <message>`: send a direct message
- `/propose <filename>`: propose a file to share
- `/get <peer_nickname> <filename>`: request a file from a peer
- `/create_room <room_name>`: create a room
- `/join_room <room_name>`: join an existing room
- `/leave_room <room_name>`: leave a room
- `/list_rooms`: list all available rooms
- `/room <room_name> <message>`: send a message to a room

A file that arrives is stored in the current directory as `received_<stem>.<extension>`; the dot
stands there for a name without an extension too.

## Layout

- `src/text.rs`, `src/names.rs`, `src/text_map.rs`: text, sets and maps of names
- `src/messages.rs`, `src/peers.rs`, `src/files.rs`, `src/settings.rs`: what travels, who is there,
  where files go, how the node takes part in the network
- `src/app.rs`, `src/screen.rs`: the state behind the user interface, and how the screen is divided
- `src/command.rs`, `src/input.rs`: what a typed line does
- `src/events.rs`, `src/action.rs`: what happens outside, and what is to be done there
- `src/laws.rs`: what holds between peers and across steps
- `tests/`: the same on concrete values
