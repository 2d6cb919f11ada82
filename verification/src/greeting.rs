//! The informational HTTP reply served on the root route: a fixed
//! plain-text greeting with status 200, computed from nothing — it does not
//! depend on any connection's state.

use vstd::prelude::*;

verus! {

/// The fixed greeting body.
pub open spec fn greeting_text() -> Seq<char> {
    "Hola, soy el servidor de notificaciones!"@
}

/// An HTTP reply as plain values: the numeric status code and the body.
pub struct HttpReply {
    pub status: u16,
    pub body: String,
}

/// The reply to a request on the root route: always status 200 with the
/// fixed greeting, whatever happened on any WebSocket connection before.
pub fn index_reply() -> (r: HttpReply)
    ensures
        r.status == 200,
        r.body@ == greeting_text(),
{
    HttpReply { status: 200, body: "Hola, soy el servidor de notificaciones!".to_owned() }
}

} // verus!
