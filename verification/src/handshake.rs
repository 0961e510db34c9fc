//! The registration and connect calls that precede the upgrade: what is
//! sent, and what each call's outcome means for the flow.

use vstd::prelude::*;
use vstd::string::*;

verus! {

/// The identity under which this agent is known to the server.
pub const AGENT_ID: &'static str = "128393847599";

/// Where the registration call goes.
pub const REGISTER_URI: &'static str = "http://localhost:4000/register";

/// Where the connect call goes.
pub const CONNECT_URI: &'static str = "http://localhost:4000/connect";

/// The status with which the server agrees to switch protocols.
pub const SWITCHING_PROTOCOLS: u16 = 101;

/// The text of a JSON object with one member whose value is a string, as
/// `serde_json` prints it in its compact form.
pub uninterp spec fn json_member_text(key: Seq<char>, value: Seq<char>) -> Seq<char>;

/// Text that a JSON string holds as it stands: no control character, no
/// double quote and no backslash.
pub open spec fn is_plain_json_text(text: Seq<char>) -> bool {
    forall|i: int|
        0 <= i < text.len() ==> ' ' <= #[trigger] text[i] && text[i] != '"' && text[i] != '\\'
}

/// What the compact form is when neither the key nor the value needs an
/// escape.
pub open spec fn plain_member_text(key: Seq<char>, value: Seq<char>) -> Seq<char> {
    "{\""@ + key + "\":\""@ + value + "\"}"@
}

/// Prints the JSON object `{key: value}` through `serde_json`: a
/// `serde_json::Map` with the one member, printed by `Value::to_string`.
/// The contract names the printed text, and claims what the printer's escape
/// table shows for text without control characters, quotes and backslashes:
/// braces, the quoted key, a colon, the quoted value, with no blanks.
#[verifier::external_body]
fn json_member(key: &str, value: &str) -> (text: String)
    ensures
        text@ == json_member_text(key@, value@),
        is_plain_json_text(key@) && is_plain_json_text(value@) ==> text@ == plain_member_text(
            key@,
            value@,
        ),
{
    let mut members = serde_json::Map::new();
    members.insert(key.to_string(), serde_json::Value::String(value.to_string()));
    serde_json::Value::Object(members).to_string()
}

/// The message that both handshake calls carry.
#[derive(Clone, Debug, PartialEq, Eq)]
pub struct TunnelRequest {
    pub agent_id: String,
}

impl TunnelRequest {
    /// The request of the agent with the given identity.
    pub fn new(agent_id: &str) -> (request: TunnelRequest)
        ensures
            request.agent_id@ == agent_id@,
    {
        TunnelRequest { agent_id: String::from_str(agent_id) }
    }

    /// The payload as the server reads it: a JSON object whose member
    /// `agent_id` holds the identity.
    pub open spec fn payload(self) -> Seq<char> {
        json_member_text("agent_id"@, self.agent_id@)
    }

    /// Serialises the request for the wire.
    pub fn body(&self) -> (body: String)
        ensures
            body@ == self.payload(),
            is_plain_json_text(self.agent_id@) ==> body@ == plain_member_text(
                "agent_id"@,
                self.agent_id@,
            ),
    {
        proof {
            reveal_strlit("agent_id");
            assert(is_plain_json_text("agent_id"@));
        }
        json_member("agent_id", self.agent_id.as_str())
    }
}

/// The two calls of the handshake.
#[derive(Clone, Copy, Debug, PartialEq, Eq, Structural)]
pub enum Endpoint {
    Register,
    Connect,
}

impl Endpoint {
    pub open spec fn uri_text(self) -> Seq<char> {
        match self {
            Endpoint::Register => REGISTER_URI@,
            Endpoint::Connect => CONNECT_URI@,
        }
    }

    /// The address that the call is sent to.
    pub fn uri(self) -> (uri: &'static str)
        ensures
            uri@ == self.uri_text(),
    {
        match self {
            Endpoint::Register => REGISTER_URI,
            Endpoint::Connect => CONNECT_URI,
        }
    }
}

/// One handshake call, ready to be sent: the method, the address, the three
/// headers that announce the intent to upgrade, and the body.
#[derive(Clone, Debug, PartialEq, Eq)]
pub struct HandshakeRequest {
    pub method: String,
    pub uri: String,
    pub content_type: String,
    pub connection: String,
    pub upgrade: String,
    pub body: String,
}

/// A handshake call as plain text fields.
pub ghost struct HandshakeRequestView {
    pub method: Seq<char>,
    pub uri: Seq<char>,
    pub content_type: Seq<char>,
    pub connection: Seq<char>,
    pub upgrade: Seq<char>,
    pub body: Seq<char>,
}

impl View for HandshakeRequest {
    type V = HandshakeRequestView;

    open spec fn view(&self) -> HandshakeRequestView {
        HandshakeRequestView {
            method: self.method@,
            uri: self.uri@,
            content_type: self.content_type@,
            connection: self.connection@,
            upgrade: self.upgrade@,
            body: self.body@,
        }
    }
}

/// The call that carries `body` to `endpoint`: a `POST` of JSON that asks
/// for an upgrade to the agent protocol.
pub open spec fn upgrade_call(endpoint: Endpoint, body: Seq<char>) -> HandshakeRequestView {
    HandshakeRequestView {
        method: "POST"@,
        uri: endpoint.uri_text(),
        content_type: "application/json"@,
        connection: "Upgrade"@,
        upgrade: "Agent-protocol"@,
        body: body,
    }
}

/// Frames a serialised payload as the call to one endpoint.
pub fn handshake_request(endpoint: Endpoint, body: String) -> (request: HandshakeRequest)
    ensures
        request@ == upgrade_call(endpoint, body@),
{
    HandshakeRequest {
        method: String::from_str("POST"),
        uri: String::from_str(endpoint.uri()),
        content_type: String::from_str("application/json"),
        connection: String::from_str("Upgrade"),
        upgrade: String::from_str("Agent-protocol"),
        body,
    }
}

/// The registration call for an agent.
pub fn register_request(request: &TunnelRequest) -> (call: HandshakeRequest)
    ensures
        call@ == upgrade_call(Endpoint::Register, request.payload()),
{
    handshake_request(Endpoint::Register, request.body())
}

/// The connect call for an agent: the same payload and headers as the
/// registration, sent to the connect endpoint.
pub fn connect_request(request: &TunnelRequest) -> (call: HandshakeRequest)
    ensures
        call@ == upgrade_call(Endpoint::Connect, request.payload()),
{
    handshake_request(Endpoint::Connect, request.body())
}

/// How a handshake call ended: the server replied with a status, or the call
/// could not be sent or its connection could not be established.
#[derive(Clone, Copy, Debug, PartialEq, Eq, Structural)]
pub enum CallOutcome {
    Replied(u16),
    Unreachable,
}

/// The server's reply to a handshake call.
#[derive(Debug, PartialEq, Eq, Structural)]
pub struct HandshakeResponse {
    pub status: u16,
}

/// Why a handshake call failed.
#[derive(Clone, Copy, Debug, PartialEq, Eq, Structural)]
pub enum HandshakeError {
    /// The call could not be sent.
    Transport,
}

/// What the registration call's outcome means: any reply lets the flow go
/// on, whatever its status; a call that could not be sent fails it.
pub fn register(outcome: CallOutcome) -> (result: Result<(), HandshakeError>)
    ensures
        result == match outcome {
            CallOutcome::Replied(_) => Ok::<(), HandshakeError>(()),
            CallOutcome::Unreachable => Err(HandshakeError::Transport),
        },
{
    match outcome {
        CallOutcome::Replied(_) => Ok(()),
        CallOutcome::Unreachable => Err(HandshakeError::Transport),
    }
}

/// What the connect call's outcome means: a reply is handed on with its
/// status as it came; a call that could not be sent fails the flow.
pub fn connect(outcome: CallOutcome) -> (result: Result<HandshakeResponse, HandshakeError>)
    ensures
        result == match outcome {
            CallOutcome::Replied(status) => Ok::<HandshakeResponse, HandshakeError>(
                (HandshakeResponse { status }),
            ),
            CallOutcome::Unreachable => Err(HandshakeError::Transport),
        },
{
    match outcome {
        CallOutcome::Replied(status) => Ok(HandshakeResponse { status }),
        CallOutcome::Unreachable => Err(HandshakeError::Transport),
    }
}

} // verus!
