//! The plain-value protocol vocabulary of one WebSocket session: the
//! lifecycle states of a connection, the inbound frames the handler reacts
//! to, the outbound actions it may produce, and the echo message it builds
//! for text payloads.

use vstd::prelude::*;
use vstd::string::StringExecFns;

verus! {

/// Lifecycle state of one accepted WebSocket connection.
#[derive(Clone, Copy, PartialEq, Eq, Structural, Debug)]
pub enum ConnState {
    Active,
    Closing,
    Terminated,
}

/// The optional reason attached to a WebSocket close frame, held as plain
/// values: the numeric close code and an optional description.
#[derive(Clone, Debug, PartialEq, Eq)]
pub struct CloseReason {
    pub code: u16,
    pub description: Option<String>,
}

/// One unit received from the peer. Binary, continuation and any other
/// unrecognized frames are collapsed into `Other`: the handler treats them
/// all as a protocol violation.
#[derive(Debug, PartialEq, Eq)]
pub enum InboundFrame {
    Ping(Vec<u8>),
    Text(String),
    Close(Option<CloseReason>),
    Other,
}

/// One effect the handler asks the transport to perform, in order.
#[derive(Debug, PartialEq, Eq)]
pub enum OutboundAction {
    SendPong(Vec<u8>),
    SendText(String),
    SendClose(Option<CloseReason>),
    Terminate,
}

/// The fixed prefix put before every echoed text payload.
pub open spec fn echo_prefix() -> Seq<char> {
    "Hello! You sent: "@
}

/// The full echo reply for a text payload: the fixed prefix followed by the
/// payload itself, unchanged.
pub open spec fn echo_message(t: Seq<char>) -> Seq<char> {
    echo_prefix() + t
}

/// Builds the echo reply for one text payload.
pub fn echo_text(t: &str) -> (r: String)
    ensures
        r@ == echo_message(t@),
{
    let mut r: String = "Hello! You sent: ".to_owned();
    r.append(t);
    r
}

} // verus!
