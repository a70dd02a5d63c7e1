//! What the node asks its surroundings to do: the network and the file system.

use vstd::prelude::*;

use crate::messages::{ChatMessage, ChatMessageView, FileRequest, FileResponse, FileResponseView};
use crate::peers::Peer;

verus! {

/// Something to be done outside.
pub enum Action {
    /// Nothing.
    Idle,
    /// Publish the message on the public topic, and report the outcome with the notice that is
    /// shown when it was sent.
    Publish { message: ChatMessage, notice: String },
    /// Send the request to the peer.
    SendRequest { peer: Peer, request: FileRequest },
    /// Dial the address, and report the outcome.
    Dial { address: String },
    /// Read the file that is asked for, and report the outcome.
    ReadFile { request: FileRequest },
    /// Send the response to the peer that asked, and report a failure.
    Respond { response: FileResponse },
    /// Store the file that came under the name, and report the outcome.
    SaveFile { name: String, response: FileResponse },
}

/// The model of an [`Action`].
pub enum ActionView {
    Idle,
    Publish { message: ChatMessageView, notice: Seq<char> },
    SendRequest { peer: Seq<char>, request: Seq<char> },
    Dial { address: Seq<char> },
    ReadFile { request: Seq<char> },
    Respond { response: FileResponseView },
    SaveFile { name: Seq<char>, response: FileResponseView },
}

impl View for Action {
    type V = ActionView;

    open spec fn view(&self) -> ActionView {
        match self {
            Action::Idle => ActionView::Idle,
            Action::Publish { message, notice } => ActionView::Publish {
                message: message@,
                notice: notice@,
            },
            Action::SendRequest { peer, request } => ActionView::SendRequest {
                peer: peer@,
                request: request@,
            },
            Action::Dial { address } => ActionView::Dial { address: address@ },
            Action::ReadFile { request } => ActionView::ReadFile { request: request@ },
            Action::Respond { response } => ActionView::Respond { response: response@ },
            Action::SaveFile { name, response } => ActionView::SaveFile {
                name: name@,
                response: response@,
            },
        }
    }
}

/// The model of an action is the same action, with all that is in it.
pub proof fn law_models_hold_the_action(action: Action)
    ensures
        action is Idle ==> action@ is Idle,
        action matches Action::Publish { message, notice }
            ==> action@ == (ActionView::Publish { message: message@, notice: notice@ }),
        action matches Action::SendRequest { peer, request }
            ==> action@ == (ActionView::SendRequest { peer: peer@, request: request@ }),
        action matches Action::Dial { address }
            ==> action@ == (ActionView::Dial { address: address@ }),
        action matches Action::ReadFile { request }
            ==> action@ == (ActionView::ReadFile { request: request@ }),
        action matches Action::Respond { response }
            ==> action@ == (ActionView::Respond { response: response@ }),
        action matches Action::SaveFile { name, response }
            ==> action@ == (ActionView::SaveFile { name: name@, response: response@ }),
{
}

} // verus!
