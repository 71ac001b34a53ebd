//! The control protocol between a tunnel client and the server.
//!
//! Messages travel as JSON objects, one per line; turning a message into its
//! JSON text and back is left to the program that owns the connections. This
//! module decides what each side answers to what it receives.

use vstd::prelude::*;
use crate::text::{public_url, spec_public_url};

verus! {

/// A message on a control or data connection.
#[derive(Debug, PartialEq, Eq)]
pub enum ControlMessage {
    /// A client asks to serve a subdomain.
    Register { subdomain: String },
    /// The server accepted a registration.
    RegisterAck { subdomain: String, public_url: String },
    /// A public connection waits for the client under this id.
    NewConnection { tunnel_id: String },
    /// A client's data connection for the waiting public connection.
    ConnectionAck { tunnel_id: String },
    Ping,
    Pong,
}

/// A message that the protocol does not allow where it came.
#[derive(Debug, Clone, Copy, PartialEq, Eq)]
pub enum ProtocolError {
    /// A control connection opened with something else than `Register`.
    ExpectedRegister,
    /// A data connection opened with something else than `ConnectionAck`.
    ExpectedConnectionAck,
    /// The server answered a registration with something else than `RegisterAck`.
    UnexpectedRegistrationResponse,
    /// The server closed the control connection before answering.
    ConnectionClosed,
}

impl ProtocolError {
    pub open spec fn spec_message(self) -> Seq<char> {
        match self {
            ProtocolError::ExpectedRegister => "Expected Register message"@,
            ProtocolError::ExpectedConnectionAck => "Expected ConnectionAck message"@,
            ProtocolError::UnexpectedRegistrationResponse => "Unexpected registration response"@,
            ProtocolError::ConnectionClosed => "Connection closed"@,
        }
    }

    /// The error's text.
    pub fn message(&self) -> (m: &'static str)
        ensures
            m@ == self.spec_message(),
    {
        match self {
            ProtocolError::ExpectedRegister => "Expected Register message",
            ProtocolError::ExpectedConnectionAck => "Expected ConnectionAck message",
            ProtocolError::UnexpectedRegistrationResponse => "Unexpected registration response",
            ProtocolError::ConnectionClosed => "Connection closed",
        }
    }
}

/// The server's answer to a registration of `subdomain`.
pub open spec fn is_registration_ack(msg: ControlMessage, subdomain: Seq<char>) -> bool {
    &&& msg matches ControlMessage::RegisterAck { subdomain: s, public_url: u }
    &&& s@ == subdomain
    &&& u@ == spec_public_url(subdomain)
}

/// Builds the server's answer to a registration of `subdomain`.
pub fn registration_ack(subdomain: String) -> (ack: ControlMessage)
    ensures
        is_registration_ack(ack, subdomain@),
{
    let url = public_url(subdomain.as_str());
    ControlMessage::RegisterAck { subdomain, public_url: url }
}

/// The message with which a client asks to serve `subdomain`.
pub fn registration_request(subdomain: &str) -> (msg: ControlMessage)
    ensures
        msg matches ControlMessage::Register { subdomain: s } && s@ == subdomain@,
{
    ControlMessage::Register { subdomain: subdomain.to_owned() }
}

/// The message with which a client's data connection claims `tunnel_id`.
pub fn connection_ack(tunnel_id: &str) -> (msg: ControlMessage)
    ensures
        msg matches ControlMessage::ConnectionAck { tunnel_id: t } && t@ == tunnel_id@,
{
    ControlMessage::ConnectionAck { tunnel_id: tunnel_id.to_owned() }
}

/// The public URL that an answer to a registration grants, if it is a
/// `RegisterAck`.
pub open spec fn acknowledged_url(msg: ControlMessage) -> Option<Seq<char>> {
    match msg {
        ControlMessage::RegisterAck { public_url, .. } => Some(public_url@),
        _ => None,
    }
}

/// What a client learns from the server's answer to its registration:
/// the public URL when the answer is `RegisterAck`.
pub fn accept_registration_ack(msg: ControlMessage) -> (res: Result<String, ProtocolError>)
    ensures
        match acknowledged_url(msg) {
            Some(url) => res matches Ok(u) && u@ == url,
            None => res == Err::<String, ProtocolError>(ProtocolError::UnexpectedRegistrationResponse),
        },
{
    match msg {
        ControlMessage::RegisterAck { public_url, .. } => Ok(public_url),
        _ => Err(ProtocolError::UnexpectedRegistrationResponse),
    }
}

/// What a client's control connection brought.
pub enum ControlEvent {
    /// The tunnel was stopped.
    Cancelled,
    /// Reading failed.
    ReadFailed,
    /// The server closed the connection.
    Closed,
    /// Some bytes came; the message they hold, if they hold one.
    Received(Option<ControlMessage>),
}

/// What a client does next on its control connection.
#[derive(Debug, PartialEq, Eq)]
pub enum ControlAction {
    /// Leave the control connection.
    Stop,
    /// Open a data connection for this waiting public connection.
    OpenTunnel { tunnel_id: String },
    /// Read on.
    Ignore,
}

/// A client's answer to what its control connection brought: it leaves on
/// cancellation, failure or close, opens a tunnel for `NewConnection`, and
/// reads on after anything else.
pub fn on_control_event(event: ControlEvent) -> (action: ControlAction)
    ensures
        match event {
            ControlEvent::Received(Some(ControlMessage::NewConnection { tunnel_id })) =>
                action matches ControlAction::OpenTunnel { tunnel_id: t } && t@ == tunnel_id@,
            ControlEvent::Received(_) => action is Ignore,
            _ => action is Stop,
        },
{
    match event {
        ControlEvent::Received(Some(ControlMessage::NewConnection { tunnel_id })) => {
            ControlAction::OpenTunnel { tunnel_id }
        },
        ControlEvent::Received(_) => ControlAction::Ignore,
        _ => ControlAction::Stop,
    }
}

/// A message's bytes as the server sends them: followed by a newline.
pub fn frame_message(payload: Vec<u8>) -> (framed: Vec<u8>)
    ensures
        framed@ == payload@.push(10u8),
{
    let mut framed = payload;
    framed.push(10u8);
    framed
}

/// The server's answer to a public request whose subdomain no client serves.
pub open spec fn spec_not_found_response() -> Seq<u8> {
    "HTTP/1.1 404 Not Found\r\nContent-Length: 13\r\n\r\nNo such tunnel"@.map_values(
        |c: char| c as u8,
    )
}

/// The bytes of the server's answer to a request for an unknown subdomain.
/// The header announces 13 bytes of body while the body has 14; clients
/// read the first 13.
pub fn not_found_response() -> (bytes: Vec<u8>)
    ensures
        bytes@ == spec_not_found_response(),
{
    let text = "HTTP/1.1 404 Not Found\r\nContent-Length: 13\r\n\r\nNo such tunnel";
    let n = text.unicode_len();
    let mut bytes: Vec<u8> = Vec::new();
    let mut i: usize = 0;
    proof {
        reveal_strlit("HTTP/1.1 404 Not Found\r\nContent-Length: 13\r\n\r\nNo such tunnel");
    }
    while i < n
        invariant
            n == text@.len(),
            i <= n,
            text@ == "HTTP/1.1 404 Not Found\r\nContent-Length: 13\r\n\r\nNo such tunnel"@,
            bytes@ == text@.subrange(0, i as int).map_values(|c: char| c as u8),
        decreases n - i,
    {
        let c = text.get_char(i);
        bytes.push(c as u8);
        proof {
            assert(text@.subrange(0, i + 1) == text@.subrange(0, i as int).push(c));
        }
        i = i + 1;
    }
    proof {
        assert(text@.subrange(0, n as int) == text@);
    }
    bytes
}

} // verus!
