//! What the protocol editor of the front end reports.

use vstd::prelude::*;
use vstd::std_specs::convert::FromSpecImpl;

verus! {

/// Anything the editor reports.
pub enum Message {
    /// Something happened to the list of buffers.
    Buffer(BufferMessage),
    /// Something happened to the protocol.
    Protocol(ProtocolMessage),
}

/// What happened to the list of buffers.
pub enum BufferMessage {
    /// The text of the buffer in the given row was edited.
    Input(usize, String),
    /// Nothing that matters.
    Ignore,
}

/// What happened to the protocol.
pub enum ProtocolMessage {
    /// A choice was made in the given row and column.
    Selected(usize, usize, String),
    /// The text in the given row and column was edited.
    Input(usize, usize, String),
    /// Nothing that matters.
    Ignore,
}

impl From<BufferMessage> for Message {
    fn from(msg: BufferMessage) -> (message: Self) {
        Message::Buffer(msg)
    }
}

impl FromSpecImpl<BufferMessage> for Message {
    open spec fn obeys_from_spec() -> bool {
        true
    }

    open spec fn from_spec(msg: BufferMessage) -> Self {
        Message::Buffer(msg)
    }
}

impl From<ProtocolMessage> for Message {
    fn from(msg: ProtocolMessage) -> (message: Self) {
        Message::Protocol(msg)
    }
}

impl FromSpecImpl<ProtocolMessage> for Message {
    open spec fn obeys_from_spec() -> bool {
        true
    }

    open spec fn from_spec(msg: ProtocolMessage) -> Self {
        Message::Protocol(msg)
    }
}

} // verus!
