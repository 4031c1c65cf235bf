//! The control messages a manager sends to a plugin, and their wire text.
//!
//! One message travels per connection: the sender writes the text of one
//! message and closes its write side; the receiver reads to end of stream and
//! decodes what it has read as one message.

use vstd::prelude::*;

verus! {

/// An instruction from the manager to a plugin. No variant carries a payload.
#[derive(Debug, Clone, Copy, PartialEq, Eq, Structural)]
pub enum ControlMessage {
    /// Ask for the plugin's result list.
    FetchList,
    /// Ask the plugin to recompute its result list.
    Refresh,
    /// Ask the plugin to remove its socket and exit.
    Terminate,
}

/// Failure to read a payload as a control message.
#[derive(Debug)]
pub enum ProtocolError {
    /// The payload is no control message; the field holds the payload.
    Decode(String),
}

/// The text that stands for a message on the wire.
pub open spec fn wire_text(message: ControlMessage) -> Seq<char> {
    match message {
        ControlMessage::FetchList => "FetchList"@,
        ControlMessage::Refresh => "Refresh"@,
        ControlMessage::Terminate => "Terminate"@,
    }
}

/// The message that a payload stands for, if any. Besides the text that
/// `wire_text` gives, `GetList` is read as `FetchList` and `Exit` as
/// `Terminate`.
pub open spec fn spec_decode(payload: Seq<char>) -> Option<ControlMessage> {
    if payload == "FetchList"@ || payload == "GetList"@ {
        Some(ControlMessage::FetchList)
    } else if payload == "Refresh"@ {
        Some(ControlMessage::Refresh)
    } else if payload == "Terminate"@ || payload == "Exit"@ {
        Some(ControlMessage::Terminate)
    } else {
        None
    }
}

/// Decoding the wire text of a message gives that message back.
pub proof fn lemma_decode_wire_text(message: ControlMessage)
    ensures
        spec_decode(wire_text(message)) == Some(message),
{
    reveal_strlit("FetchList");
    reveal_strlit("GetList");
    reveal_strlit("Refresh");
    reveal_strlit("Terminate");
    reveal_strlit("Exit");
    assert("FetchList"@.len() == 9 && "FetchList"@[0] == 'F');
    assert("Terminate"@.len() == 9 && "Terminate"@[0] == 'T');
    assert("Refresh"@.len() == 7 && "Refresh"@[0] == 'R');
    assert("GetList"@.len() == 7 && "GetList"@[0] == 'G');
    assert("Exit"@.len() == 4);
}

/// Whether two pieces of text hold the same characters.
fn same_text(a: &str, b: &str) -> (same: bool)
    ensures
        same == (a@ == b@),
{
    let left = a.to_owned();
    let right = b.to_owned();
    left == right
}

impl ControlMessage {
    /// The wire text of this message.
    pub fn encode(&self) -> (text: String)
        ensures
            text@ == wire_text(*self),
            spec_decode(text@) == Some(*self),
    {
        proof {
            lemma_decode_wire_text(*self);
        }
        match self {
            ControlMessage::FetchList => "FetchList".to_owned(),
            ControlMessage::Refresh => "Refresh".to_owned(),
            ControlMessage::Terminate => "Terminate".to_owned(),
        }
    }

    /// Reads a whole payload as one message. A payload that stands for no
    /// message is handed back inside the error.
    pub fn decode(payload: &str) -> (result: Result<ControlMessage, ProtocolError>)
        ensures
            match spec_decode(payload@) {
                Some(message) => result == Ok::<ControlMessage, ProtocolError>(message),
                None => result matches Err(ProtocolError::Decode(cause)) && cause@ == payload@,
            },
    {
        if same_text(payload, "FetchList") || same_text(payload, "GetList") {
            Ok(ControlMessage::FetchList)
        } else if same_text(payload, "Refresh") {
            Ok(ControlMessage::Refresh)
        } else if same_text(payload, "Terminate") || same_text(payload, "Exit") {
            Ok(ControlMessage::Terminate)
        } else {
            Err(ProtocolError::Decode(payload.to_owned()))
        }
    }
}

} // verus!
