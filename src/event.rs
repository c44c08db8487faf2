use crate::bindings::{json_string, json_string_of};
use futures::channel::mpsc::UnboundedSender;
use vstd::prelude::*;

verus! {

/// What the registry and the command worker hand to a connection's
/// outbound task.
pub enum ClientEvent {
    /// The connection's identity: its id and the token that resumes it.
    Id(usize, String),
    /// A typed message for the client, framed as an envelope.
    Message(ClientMessage),
    /// Text that is already framed and goes out as it is.
    RawMessage(String),
}

/// The payload of the `set_auth_token` message.
pub struct AuthData {
    pub token: String,
}

/// Typed messages sent to a client.
pub enum ClientMessage {
    Auth(AuthData),
}

/// The envelope `{"channel":"set_auth_token","data":{"token":<token>}}`.
pub open spec fn auth_packet_text(token: Seq<char>) -> Seq<char> {
    "{\"channel\":\"set_auth_token\",\"data\":{\"token\":"@ + json_string_of(token) + "}}"@
}

impl ClientMessage {
    /// The compact JSON envelope of a message.
    pub open spec fn text_of(self) -> Seq<char> {
        match self {
            ClientMessage::Auth(d) => auth_packet_text(d.token@),
        }
    }

    /// Frames the message as a JSON envelope `{"channel":..,"data":..}`.
    pub fn stringfy(self) -> (r: Result<String, serde_json::Error>)
        ensures
            r is Ok,
            r matches Ok(t) ==> t@ == self.text_of(),
    {
        match self {
            ClientMessage::Auth(data) => {
                match json_string(data.token.as_str()) {
                    Ok(q) => {
                        let mut out = String::new();
                        out.append("{\"channel\":\"set_auth_token\",\"data\":{\"token\":");
                        out.append(q.as_str());
                        out.append("}}");
                        assert(out@ =~= auth_packet_text(data.token@));
                        Ok(out)
                    },
                    Err(e) => Err(e),
                }
            },
        }
    }
}

impl ClientEvent {
    /// The text that goes out on the transport for this event, if any.
    pub open spec fn outbound_spec(self) -> Option<Seq<char>> {
        match self {
            ClientEvent::Id(_, _) => None,
            ClientEvent::Message(m) => Some(m.text_of()),
            ClientEvent::RawMessage(s) => Some(s@),
        }
    }

    /// The text frame to write for this event: typed messages are framed,
    /// raw ones pass unchanged, identities are consumed locally.
    pub fn outbound_text(self) -> (r: Option<String>)
        ensures
            r is Some <==> self.outbound_spec() is Some,
            r matches Some(t) ==> self.outbound_spec() == Some(t@),
    {
        match self {
            ClientEvent::Id(_, _) => None,
            ClientEvent::Message(m) => {
                match m.stringfy() {
                    Ok(t) => Some(t),
                    Err(_) => None,
                }
            },
            ClientEvent::RawMessage(s) => Some(s),
        }
    }
}

/// The payload of the `test` channel.
pub struct TestData {
    pub secret_number: usize,
}

/// The payload of the `create_lobby` channel.
pub struct CreateLobbyData {
    pub name: String,
}

/// Typed messages received from a client.
pub enum ServerMessage {
    CreateLobby,
    Test(TestData),
}

/// The message that an envelope with channel tag `channel` carries, where
/// `test` is its data decoded as the `test` payload (if it decoded).
pub open spec fn server_message_of(channel: Seq<char>, test: Option<TestData>) -> Option<ServerMessage> {
    if channel == "test"@ {
        match test {
            Some(d) => Some(ServerMessage::Test(d)),
            None => None,
        }
    } else if channel == "create_lobby"@ {
        Some(ServerMessage::CreateLobby)
    } else {
        None
    }
}

impl ServerMessage {
    /// Selects the message for an envelope's channel tag. Unknown tags, and
    /// a `test` envelope whose data did not decode, give `None`.
    pub fn parse(channel: &str, test: Option<TestData>) -> (r: Option<ServerMessage>)
        ensures
            r == server_message_of(channel@, test),
    {
        let tag = String::from_str(channel);
        if tag == String::from_str("test") {
            match test {
                Some(d) => Some(ServerMessage::Test(d)),
                None => None,
            }
        } else if tag == String::from_str("create_lobby") {
            Some(ServerMessage::CreateLobby)
        } else {
            None
        }
    }
}

/// Requests handled by the registry.
pub enum ServerEvent {
    /// A connection asks for an identity, optionally resuming a token; the
    /// answer goes back on the given channel.
    Connect(UnboundedSender<ClientEvent>, Option<String>),
    /// A connection is gone.
    Disconnect(usize),
    /// A typed message from a connection, for room logic.
    Message(ServerMessage, usize),
}

} // verus!
