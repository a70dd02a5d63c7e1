//! What peers send to each other: chat messages, file requests and file responses.

use vstd::prelude::*;

use crate::text::{
    concat3, concat4, debug_str, debug_text, decimal, decimal_text, join, join_from, texts,
};

verus! {

/// Asks a peer for a file.
#[derive(Debug, Clone, PartialEq, Eq)]
pub struct FileRequest {
    /// The file's name, as the peer that holds it knows it.
    pub filename: String,
}

/// Answers a file request. No data means that the file could not be read.
#[derive(Debug, Clone, PartialEq, Eq)]
pub struct FileResponse {
    /// The file's bytes.
    pub file_data: Vec<u8>,
    /// The name that was asked for.
    pub original_filename: String,
}

/// A message on the public topic.
#[derive(Debug, Clone, PartialEq, Eq)]
pub struct ChatMessage {
    /// The nickname of the peer that sent it.
    pub sender: String,
    /// Its text.
    pub content: String,
    /// What it is for.
    pub message_type: MessageType,
}

/// What a chat message is for.
#[derive(Debug, Clone, PartialEq, Eq)]
pub enum MessageType {
    /// Text for everybody.
    PublicChat,
    /// An offer to share a file.
    FileProposal,
    /// Text for one peer.
    DirectMessage { recipient: String },
    /// Text for the members of a room.
    RoomMessage { room: String },
    /// A room was created.
    CreateRoom { room: String },
    /// The sender joined a room.
    JoinRoom { room: String },
    /// The sender left a room.
    LeaveRoom { room: String },
    /// Asks for the rooms.
    ListRooms,
}

/// The model of a [`MessageType`].
pub enum MessageTypeView {
    PublicChat,
    FileProposal,
    DirectMessage { recipient: Seq<char> },
    RoomMessage { room: Seq<char> },
    CreateRoom { room: Seq<char> },
    JoinRoom { room: Seq<char> },
    LeaveRoom { room: Seq<char> },
    ListRooms,
}

/// The model of a [`ChatMessage`].
pub struct ChatMessageView {
    pub sender: Seq<char>,
    pub content: Seq<char>,
    pub message_type: MessageTypeView,
}

/// The model of a [`FileResponse`].
pub struct FileResponseView {
    pub file_data: Seq<u8>,
    pub original_filename: Seq<char>,
}

impl View for MessageType {
    type V = MessageTypeView;

    open spec fn view(&self) -> MessageTypeView {
        match self {
            MessageType::PublicChat => MessageTypeView::PublicChat,
            MessageType::FileProposal => MessageTypeView::FileProposal,
            MessageType::DirectMessage { recipient } => MessageTypeView::DirectMessage {
                recipient: recipient@,
            },
            MessageType::RoomMessage { room } => MessageTypeView::RoomMessage { room: room@ },
            MessageType::CreateRoom { room } => MessageTypeView::CreateRoom { room: room@ },
            MessageType::JoinRoom { room } => MessageTypeView::JoinRoom { room: room@ },
            MessageType::LeaveRoom { room } => MessageTypeView::LeaveRoom { room: room@ },
            MessageType::ListRooms => MessageTypeView::ListRooms,
        }
    }
}

impl View for ChatMessage {
    type V = ChatMessageView;

    open spec fn view(&self) -> ChatMessageView {
        ChatMessageView {
            sender: self.sender@,
            content: self.content@,
            message_type: self.message_type@,
        }
    }
}

/// A file request is modelled by the name it asks for.
impl View for FileRequest {
    type V = Seq<char>;

    open spec fn view(&self) -> Seq<char> {
        self.filename@
    }
}

impl View for FileResponse {
    type V = FileResponseView;

    open spec fn view(&self) -> FileResponseView {
        FileResponseView {
            file_data: self.file_data@,
            original_filename: self.original_filename@,
        }
    }
}

/// How a file request is shown.
pub open spec fn request_shown(filename: Seq<char>) -> Seq<char> {
    "FileRequest { filename: "@ + debug_str(filename) + " }"@
}

/// How bytes are shown: each in decimal.
pub open spec fn bytes_shown(bytes: Seq<u8>) -> Seq<Seq<char>> {
    bytes.map_values(|b: u8| decimal(b as nat))
}

/// How a file response is shown.
pub open spec fn response_shown(response: FileResponseView) -> Seq<char> {
    "FileResponse { file_data: ["@ + join(bytes_shown(response.file_data), ", "@)
        + "], original_filename: "@ + debug_str(response.original_filename) + " }"@
}

impl FileRequest {
    /// The request as it is shown to the user.
    pub fn shown(&self) -> (shown: String)
        ensures
            shown@ == request_shown(self@),
    {
        concat3(
            "FileRequest { filename: ",
            debug_text(self.filename.as_str()).as_str(),
            " }",
        )
    }
}

impl FileResponse {
    /// The response as it is shown to the user.
    pub fn shown(&self) -> (shown: String)
        ensures
            shown@ == response_shown(self@),
    {
        let mut numbers: Vec<String> = Vec::new();
        let mut i: usize = 0;
        while i < self.file_data.len()
            invariant
                i <= self.file_data.len(),
                texts(numbers@) == bytes_shown(self.file_data@.take(i as int)),
            decreases self.file_data.len() - i,
        {
            let ghost before = numbers@;
            numbers.push(decimal_text(self.file_data[i] as u64));
            i = i + 1;
            assert(texts(numbers@) == texts(before).push(
                decimal(self.file_data@[i - 1] as nat),
            ));
            assert(texts(numbers@) == bytes_shown(self.file_data@.take(i as int)));
        }
        assert(self.file_data@.take(i as int) == self.file_data@);
        assert(texts(numbers@).skip(0) == texts(numbers@));
        let mut shown: String = concat4(
            "FileResponse { file_data: [",
            join_from(&numbers, 0, ", ").as_str(),
            "], original_filename: ",
            debug_text(self.original_filename.as_str()).as_str(),
        );
        shown.append(" }");
        shown
    }
}

/// The model of what peers send holds each field as it is.
pub proof fn law_models_hold_what_is_sent(
    message: ChatMessage,
    request: FileRequest,
    response: FileResponse,
)
    ensures
        message@.sender == message.sender@,
        message@.content == message.content@,
        message@.message_type == message.message_type@,
        request@ == request.filename@,
        response@.file_data == response.file_data@,
        response@.original_filename == response.original_filename@,
{
}

/// The model of what a message is for says the same, with the same names in it.
pub proof fn law_models_hold_what_a_message_is_for(message_type: MessageType)
    ensures
        message_type is PublicChat ==> message_type@ is PublicChat,
        message_type is FileProposal ==> message_type@ is FileProposal,
        message_type matches MessageType::DirectMessage { recipient }
            ==> message_type@ == (MessageTypeView::DirectMessage { recipient: recipient@ }),
        message_type matches MessageType::RoomMessage { room }
            ==> message_type@ == (MessageTypeView::RoomMessage { room: room@ }),
        message_type matches MessageType::CreateRoom { room }
            ==> message_type@ == (MessageTypeView::CreateRoom { room: room@ }),
        message_type matches MessageType::JoinRoom { room }
            ==> message_type@ == (MessageTypeView::JoinRoom { room: room@ }),
        message_type matches MessageType::LeaveRoom { room }
            ==> message_type@ == (MessageTypeView::LeaveRoom { room: room@ }),
        message_type is ListRooms ==> message_type@ is ListRooms,
{
}

} // verus!
