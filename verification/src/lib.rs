//! A minimal real-time notification endpoint, in two verified parts: the
//! per-connection WebSocket message handler (a state machine from inbound
//! frames to outbound actions), and the fixed informational HTTP reply.
//! The surrounding server — socket listening, routing, the WebSocket
//! handshake and the actual sending of frames — is unverified glue that
//! drives these parts.

pub mod greeting;
pub mod handler;
pub mod protocol;
