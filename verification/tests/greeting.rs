use notificaciones::greeting::index_reply;
use notificaciones::handler::ConnectionHandler;
use notificaciones::protocol::{echo_text, InboundFrame};

#[test]
fn index_reply_is_fixed_greeting() {
    let reply = index_reply();
    assert_eq!(reply.status, 200);
    assert_eq!(reply.body, "Hola, soy el servidor de notificaciones!");
}

#[test]
fn index_reply_is_independent_of_websocket_activity() {
    let before = index_reply();

    let mut h = ConnectionHandler::new();
    h.handle_frame(InboundFrame::Text("hola".to_string()));
    h.handle_frame(InboundFrame::Close(None));
    h.handle_frame(InboundFrame::Ping(vec![1]));

    let after = index_reply();
    assert_eq!(after.status, before.status);
    assert_eq!(after.body, before.body);
    assert_eq!(after.status, 200);
    assert_eq!(after.body, "Hola, soy el servidor de notificaciones!");
}

#[test]
fn echo_text_prefixes_the_payload() {
    assert_eq!(echo_text("abc"), "Hello! You sent: abc");
    assert_eq!(echo_text(""), "Hello! You sent: ");
}
