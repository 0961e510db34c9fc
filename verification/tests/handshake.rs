use yesgrok::handshake::{
    connect, connect_request, handshake_request, register, register_request, CallOutcome,
    Endpoint, HandshakeError, HandshakeResponse, TunnelRequest, AGENT_ID, CONNECT_URI,
    REGISTER_URI, SWITCHING_PROTOCOLS,
};
use yesgrok::upgrade::{negotiate, UpgradeError};

#[test]
fn constants_are_the_fixed_ones() {
    assert_eq!(AGENT_ID, "128393847599");
    assert_eq!(REGISTER_URI, "http://localhost:4000/register");
    assert_eq!(CONNECT_URI, "http://localhost:4000/connect");
    assert_eq!(SWITCHING_PROTOCOLS, 101);
}

#[test]
fn request_keeps_the_identity() {
    let request = TunnelRequest::new("agent-7");
    assert_eq!(request.agent_id, "agent-7");
}

#[test]
fn body_is_compact_json() {
    let request = TunnelRequest::new(AGENT_ID);
    assert_eq!(request.body(), "{\"agent_id\":\"128393847599\"}");
}

#[test]
fn body_of_empty_identity() {
    assert_eq!(TunnelRequest::new("").body(), "{\"agent_id\":\"\"}");
}

#[test]
fn body_escapes_what_json_must_escape() {
    let request = TunnelRequest::new("a\"b\\c\nd\u{1}");
    assert_eq!(request.body(), "{\"agent_id\":\"a\\\"b\\\\c\\nd\\u0001\"}");
}

#[test]
fn body_keeps_text_beyond_ascii() {
    let request = TunnelRequest::new("caf\u{e9} \u{1F600}");
    assert_eq!(request.body(), "{\"agent_id\":\"caf\u{e9} \u{1F600}\"}");
}

#[test]
fn body_reads_back_as_the_identity() {
    let identity = "tab\there \"quoted\" \\ done";
    let body = TunnelRequest::new(identity).body();
    let parsed: serde_json::Value = serde_json::from_str(&body).unwrap();
    let object = parsed.as_object().unwrap();
    assert_eq!(object.len(), 1);
    assert_eq!(object.get("agent_id").unwrap().as_str(), Some(identity));
}

#[test]
fn endpoints_have_their_addresses() {
    assert_eq!(Endpoint::Register.uri(), "http://localhost:4000/register");
    assert_eq!(Endpoint::Connect.uri(), "http://localhost:4000/connect");
}

#[test]
fn register_request_is_an_upgrade_post() {
    let call = register_request(&TunnelRequest::new(AGENT_ID));
    assert_eq!(call.method, "POST");
    assert_eq!(call.uri, "http://localhost:4000/register");
    assert_eq!(call.content_type, "application/json");
    assert_eq!(call.connection, "Upgrade");
    assert_eq!(call.upgrade, "Agent-protocol");
    assert_eq!(call.body, "{\"agent_id\":\"128393847599\"}");
}

#[test]
fn connect_request_differs_in_the_address_only() {
    let request = TunnelRequest::new(AGENT_ID);
    let first = register_request(&request);
    let second = connect_request(&request);
    assert_eq!(second.uri, "http://localhost:4000/connect");
    assert_eq!(second.method, first.method);
    assert_eq!(second.content_type, first.content_type);
    assert_eq!(second.connection, first.connection);
    assert_eq!(second.upgrade, first.upgrade);
    assert_eq!(second.body, first.body);
    assert_ne!(second, first);
}

#[test]
fn handshake_request_carries_the_body_given() {
    let call = handshake_request(Endpoint::Connect, String::from("payload"));
    assert_eq!(call.body, "payload");
    assert_eq!(call.uri, CONNECT_URI);
    assert_eq!(call.method, "POST");
}

#[test]
fn registration_tolerates_any_status() {
    assert_eq!(register(CallOutcome::Replied(200)), Ok(()));
    assert_eq!(register(CallOutcome::Replied(101)), Ok(()));
    assert_eq!(register(CallOutcome::Replied(404)), Ok(()));
    assert_eq!(register(CallOutcome::Replied(500)), Ok(()));
    assert_eq!(register(CallOutcome::Replied(0)), Ok(()));
}

#[test]
fn registration_fails_when_unreachable() {
    assert_eq!(register(CallOutcome::Unreachable), Err(HandshakeError::Transport));
}

#[test]
fn connect_hands_the_status_on() {
    assert_eq!(connect(CallOutcome::Replied(101)), Ok(HandshakeResponse { status: 101 }));
    assert_eq!(connect(CallOutcome::Replied(403)), Ok(HandshakeResponse { status: 403 }));
    assert_eq!(connect(CallOutcome::Replied(65535)), Ok(HandshakeResponse { status: 65535 }));
}

#[test]
fn connect_fails_when_unreachable() {
    assert_eq!(connect(CallOutcome::Unreachable), Err(HandshakeError::Transport));
}

#[test]
fn negotiate_accepts_switching_protocols() {
    let stream = negotiate(HandshakeResponse { status: 101 }).unwrap();
    assert_eq!(stream.status(), 101);
}

#[test]
fn negotiate_rejects_forbidden() {
    let result = negotiate(HandshakeResponse { status: 403 });
    assert_eq!(result.unwrap_err(), UpgradeError::Rejected(403));
}

#[test]
fn negotiate_rejects_success_without_upgrade() {
    let result = negotiate(HandshakeResponse { status: 200 });
    assert_eq!(result.unwrap_err(), UpgradeError::Rejected(200));
}

#[test]
fn negotiate_depends_on_the_status_alone() {
    let mut status: u16 = 0;
    loop {
        let result = negotiate(HandshakeResponse { status });
        if status == 101 {
            assert_eq!(result.unwrap().status(), 101);
        } else {
            assert_eq!(result.unwrap_err(), UpgradeError::Rejected(status));
        }
        if status == u16::MAX {
            break;
        }
        status += 1;
    }
}

#[test]
fn negotiate_neighbours_of_the_upgrade_status() {
    assert_eq!(
        negotiate(HandshakeResponse { status: 100 }).unwrap_err(),
        UpgradeError::Rejected(100)
    );
    assert_eq!(
        negotiate(HandshakeResponse { status: 102 }).unwrap_err(),
        UpgradeError::Rejected(102)
    );
}
