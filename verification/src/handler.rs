//! The per-connection message handler: a state machine that consumes one
//! inbound frame at a time and produces the outbound actions the transport
//! must perform, in order. `frame_response` is the transition table; the
//! proof functions below state the laws that follow from it.

use vstd::prelude::*;

use crate::protocol::{echo_message, echo_text, CloseReason, ConnState, InboundFrame,
    OutboundAction};

verus! {

/// The transition table of the connection handler. Holds exactly when, in
/// state `s0`, receiving `frame` produces the action sequence `acts` and
/// leaves the connection in state `s1`:
///
/// - Active + Ping(p): pong with payload `p`, stay active;
/// - Active + Text(t): echo `t` behind the fixed prefix, stay active;
/// - Active + Close(r): close echoing `r`, then terminate;
/// - Active + Other: terminate at once, sending nothing;
/// - Closing or Terminated: no frame is processed, the connection is
///   (or becomes) terminated and no action is produced.
pub open spec fn frame_response(
    s0: ConnState,
    frame: InboundFrame,
    acts: Seq<OutboundAction>,
    s1: ConnState,
) -> bool {
    if s0 is Active {
        match frame {
            InboundFrame::Ping(p) => {
                &&& s1 is Active
                &&& acts.len() == 1
                &&& acts[0] == OutboundAction::SendPong(p)
            },
            InboundFrame::Text(t) => {
                &&& s1 is Active
                &&& acts.len() == 1
                &&& acts[0] matches OutboundAction::SendText(m) && m@ == echo_message(t@)
            },
            InboundFrame::Close(r) => {
                &&& s1 is Terminated
                &&& acts.len() == 2
                &&& acts[0] == OutboundAction::SendClose(r)
                &&& acts[1] == OutboundAction::Terminate
            },
            InboundFrame::Other => {
                &&& s1 is Terminated
                &&& acts.len() == 1
                &&& acts[0] == OutboundAction::Terminate
            },
        }
    } else {
        &&& s1 is Terminated
        &&& acts.len() == 0
    }
}

/// Owns the lifecycle of one WebSocket connection. Created at handshake
/// completion, in the active state; mutated only by `handle_frame`.
pub struct ConnectionHandler {
    state: ConnState,
}

impl ConnectionHandler {
    /// The lifecycle state, for contracts.
    pub closed spec fn state(self) -> ConnState {
        self.state
    }

    /// A handler for a freshly accepted connection, which starts active.
    pub fn new() -> (h: ConnectionHandler)
        ensures
            h.state() is Active,
    {
        ConnectionHandler { state: ConnState::Active }
    }

    /// Reports the current lifecycle state.
    pub fn current_state(&self) -> (s: ConnState)
        ensures
            s == self.state(),
    {
        self.state
    }

    /// Handles one inbound frame: produces the outbound actions the
    /// transport must perform, in order, and moves to the next lifecycle
    /// state, exactly as the transition table says.
    pub fn handle_frame(&mut self, frame: InboundFrame) -> (actions: Vec<OutboundAction>)
        ensures
            frame_response(old(self).state(), frame, actions@, final(self).state()),
    {
        let mut actions: Vec<OutboundAction> = Vec::new();
        match self.state {
            ConnState::Active => {
                match frame {
                    InboundFrame::Ping(p) => {
                        actions.push(OutboundAction::SendPong(p));
                    },
                    InboundFrame::Text(t) => {
                        let reply = echo_text(t.as_str());
                        actions.push(OutboundAction::SendText(reply));
                    },
                    InboundFrame::Close(r) => {
                        actions.push(OutboundAction::SendClose(r));
                        actions.push(OutboundAction::Terminate);
                        self.state = ConnState::Terminated;
                    },
                    InboundFrame::Other => {
                        actions.push(OutboundAction::Terminate);
                        self.state = ConnState::Terminated;
                    },
                }
            },
            ConnState::Closing | ConnState::Terminated => {
                self.state = ConnState::Terminated;
            },
        }
        actions
    }
}

/// Law: on an active connection a text payload is answered by exactly one
/// outbound frame, the prefixed echo of that payload, and the connection
/// remains active.
pub proof fn lemma_active_text_echoes(
    s0: ConnState,
    t: String,
    acts: Seq<OutboundAction>,
    s1: ConnState,
)
    requires
        s0 is Active,
        frame_response(s0, InboundFrame::Text(t), acts, s1),
    ensures
        s1 is Active,
        acts.len() == 1,
        acts[0] matches OutboundAction::SendText(m) && m@ == echo_message(t@),
{
}

/// Law: on an active connection a ping is answered by exactly one outbound
/// frame, a pong carrying the ping's payload, and the connection remains
/// active.
pub proof fn lemma_active_ping_pongs(
    s0: ConnState,
    p: Vec<u8>,
    acts: Seq<OutboundAction>,
    s1: ConnState,
)
    requires
        s0 is Active,
        frame_response(s0, InboundFrame::Ping(p), acts, s1),
    ensures
        s1 is Active,
        acts.len() == 1,
        acts[0] matches OutboundAction::SendPong(q) && q@ == p@,
{
}

/// Law: a close frame received on an active connection is followed by
/// exactly one outbound close, echoing the peer's reason, then termination;
/// the connection is terminated, and whatever frame arrives next produces
/// no action at all.
pub proof fn lemma_close_answered_once_then_silent(
    s0: ConnState,
    r: Option<CloseReason>,
    acts: Seq<OutboundAction>,
    s1: ConnState,
    next_frame: InboundFrame,
    acts2: Seq<OutboundAction>,
    s2: ConnState,
)
    requires
        s0 is Active,
        frame_response(s0, InboundFrame::Close(r), acts, s1),
        frame_response(s1, next_frame, acts2, s2),
    ensures
        s1 is Terminated,
        acts.len() == 2,
        acts[0] == OutboundAction::SendClose(r),
        acts[1] == OutboundAction::Terminate,
        acts2.len() == 0,
        s2 is Terminated,
{
}

/// Law: an unrecognized frame (binary, continuation, or a transport error)
/// on an active connection terminates it at once, with no outbound text and
/// no pong.
pub proof fn lemma_active_other_terminates(
    s0: ConnState,
    acts: Seq<OutboundAction>,
    s1: ConnState,
)
    requires
        s0 is Active,
        frame_response(s0, InboundFrame::Other, acts, s1),
    ensures
        s1 is Terminated,
        acts.len() == 1,
        acts[0] == OutboundAction::Terminate,
        forall|i: int| #![trigger acts[i]]
            0 <= i < acts.len() ==> !(acts[i] is SendText) && !(acts[i] is SendPong),
{
}

/// Law: a connection that is no longer active processes no further frame:
/// whatever arrives, no action is produced and the connection is terminated.
pub proof fn lemma_inactive_ignores_frames(
    s0: ConnState,
    frame: InboundFrame,
    acts: Seq<OutboundAction>,
    s1: ConnState,
)
    requires
        !(s0 is Active),
        frame_response(s0, frame, acts, s1),
    ensures
        s1 is Terminated,
        acts.len() == 0,
{
}

} // verus!
