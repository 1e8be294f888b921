//! The streaming feed: frames out, frames in, and the connection's lifecycle.

use vstd::prelude::*;
use crate::text::{join, same_text};
use crate::websocket::auth::{auth_check, authenticate, authentication};
use crate::websocket::decode::{DecodeError, DecodeErrorKind};
use crate::websocket::message::payload::{
    decode_message, decoded_message, delivers, Message, MessageModel,
};
use crate::websocket::message::{
    frame_value, routing_key, subscription_frame, Feed, SubscribeAction, SubscribeMsg,
};

pub mod auth;
pub mod decode;
pub mod message;

verus! {

/// What can go wrong on the streaming feed.
#[derive(Clone, Debug, PartialEq, Eq)]
pub enum WebsocketClientError {
    /// The credential is missing or invalid, or the authentication frame
    /// could not be sent.
    AuthenticationError(String),
    /// The transport or its handshake failed: no connection was made.
    InitializationError(String),
    /// The write path could not be locked; the send may be tried again.
    LockError(String),
    /// An inbound frame is no JSON document.
    ParseError(String),
    /// A frame could not be sent.
    TxError(String),
    /// An inbound frame carries no routing key, or one of no known feed.
    ClassificationError(String),
    /// An inbound frame's payload does not have the shape of its feed.
    DecodeError(DecodeError),
}

/// Mathematical model of a `WebsocketClientError`.
pub enum ClientErrorModel {
    AuthenticationError(Seq<char>),
    InitializationError(Seq<char>),
    LockError(Seq<char>),
    ParseError(Seq<char>),
    TxError(Seq<char>),
    ClassificationError(Seq<char>),
    DecodeError(DecodeError),
}

impl View for WebsocketClientError {
    type V = ClientErrorModel;

    open spec fn view(&self) -> ClientErrorModel {
        match self {
            WebsocketClientError::AuthenticationError(m) => ClientErrorModel::AuthenticationError(
                m@,
            ),
            WebsocketClientError::InitializationError(m) => ClientErrorModel::InitializationError(
                m@,
            ),
            WebsocketClientError::LockError(m) => ClientErrorModel::LockError(m@),
            WebsocketClientError::ParseError(m) => ClientErrorModel::ParseError(m@),
            WebsocketClientError::TxError(m) => ClientErrorModel::TxError(m@),
            WebsocketClientError::ClassificationError(m) => ClientErrorModel::ClassificationError(
                m@,
            ),
            WebsocketClientError::DecodeError(e) => ClientErrorModel::DecodeError(*e),
        }
    }
}

impl DecodeErrorKind {
    /// A few words for the kind of error.
    pub open spec fn phrase(self) -> &'static str {
        match self {
            DecodeErrorKind::MissingField => "missing field",
            DecodeErrorKind::ExpectedObject => "expected an object",
            DecodeErrorKind::ExpectedArray => "expected an array",
            DecodeErrorKind::ExpectedString => "expected a string",
            DecodeErrorKind::ExpectedBool => "expected a boolean",
            DecodeErrorKind::ExpectedUnsigned => "expected an unsigned integer",
            DecodeErrorKind::ExpectedNumber => "expected a number",
            DecodeErrorKind::InvalidNumber => "invalid number",
            DecodeErrorKind::WrongArity => "wrong number of elements",
            DecodeErrorKind::UnknownVariant => "unknown variant",
            DecodeErrorKind::Empty => "empty list",
        }
    }

    /// A few words for the kind of error.
    pub fn description(self) -> (p: &'static str)
        ensures
            p == self.phrase(),
    {
        match self {
            DecodeErrorKind::MissingField => "missing field",
            DecodeErrorKind::ExpectedObject => "expected an object",
            DecodeErrorKind::ExpectedArray => "expected an array",
            DecodeErrorKind::ExpectedString => "expected a string",
            DecodeErrorKind::ExpectedBool => "expected a boolean",
            DecodeErrorKind::ExpectedUnsigned => "expected an unsigned integer",
            DecodeErrorKind::ExpectedNumber => "expected a number",
            DecodeErrorKind::InvalidNumber => "invalid number",
            DecodeErrorKind::WrongArity => "wrong number of elements",
            DecodeErrorKind::UnknownVariant => "unknown variant",
            DecodeErrorKind::Empty => "empty list",
        }
    }
}

impl DecodeError {
    /// The error in words: the kind, then the member in backticks.
    pub open spec fn text(self) -> Seq<char> {
        self.kind.phrase()@ + " `"@ + self.field@ + "`"@
    }

    /// The error in words.
    pub fn message(&self) -> (m: String)
        ensures
            m@ == self.text(),
    {
        let head = join(self.kind.description(), " `");
        let body = join(head.as_str(), self.field);
        join(body.as_str(), "`")
    }
}

impl ClientErrorModel {
    /// The error in words: what failed, then the detail.
    pub open spec fn text(self) -> Seq<char> {
        match self {
            ClientErrorModel::AuthenticationError(m) => "Authentication error: "@ + m,
            ClientErrorModel::InitializationError(m) => "could not create http client: "@ + m,
            ClientErrorModel::LockError(m) => "could not lock the write stream "@ + m,
            ClientErrorModel::ParseError(m) => "could not parse: "@ + m,
            ClientErrorModel::TxError(m) => "could not send message: "@ + m,
            ClientErrorModel::ClassificationError(m) => "could not classify: "@ + m,
            ClientErrorModel::DecodeError(e) => "could not decode: "@ + e.text(),
        }
    }
}

impl WebsocketClientError {
    /// The error in words.
    pub fn message(&self) -> (m: String)
        ensures
            m@ == self@.text(),
    {
        match self {
            WebsocketClientError::AuthenticationError(m) => join(
                "Authentication error: ",
                m.as_str(),
            ),
            WebsocketClientError::InitializationError(m) => join(
                "could not create http client: ",
                m.as_str(),
            ),
            WebsocketClientError::LockError(m) => join(
                "could not lock the write stream ",
                m.as_str(),
            ),
            WebsocketClientError::ParseError(m) => join("could not parse: ", m.as_str()),
            WebsocketClientError::TxError(m) => join("could not send message: ", m.as_str()),
            WebsocketClientError::ClassificationError(m) => join(
                "could not classify: ",
                m.as_str(),
            ),
            WebsocketClientError::DecodeError(e) => {
                let detail = e.message();
                join("could not decode: ", detail.as_str())
            },
        }
    }
}

/// The address of the venue, used where no other is given.
pub const DEFAULT_WS_SERVER_URL: &'static str = "wss://ws.sfox.com/ws";

/// Where a connection stands in its life. It moves forward only:
/// `Disconnected`, `Connecting`, `Connected`, `Authenticated`, `Closed`.
#[derive(Clone, Copy, Debug, PartialEq, Eq, Structural)]
pub enum ConnectionState {
    /// Nothing has been tried yet.
    Disconnected,
    /// The handshake with the server is under way.
    Connecting,
    /// Frames can be sent and received; private feeds are not yet open.
    Connected,
    /// The server has confirmed the credential.
    Authenticated,
    /// The socket failed or was closed. There is no way back.
    Closed,
}

impl ConnectionState {
    /// Whether frames can be sent in this state.
    pub open spec fn open(self) -> bool {
        self == ConnectionState::Connected || self == ConnectionState::Authenticated
    }

    /// Whether frames can be sent in this state.
    pub fn is_open(self) -> (b: bool)
        ensures
            b == self.open(),
    {
        match self {
            ConnectionState::Connected | ConnectionState::Authenticated => true,
            _ => false,
        }
    }
}

/// The frame that asks the server to take `action` on a feed for `feeds`.
pub fn feed_msg(feeds: Vec<String>, feed_type: Feed, action: SubscribeAction) -> (frame: String)
    ensures
        frame@ == subscription_frame(action.word()@, feed_type.topics(feeds.deep_view())),
{
    let msg = SubscribeMsg { action: action.as_str().to_owned(), feed_type, feeds };
    msg.serialize()
}

/// The error for a frame that could not be sent.
pub fn tx_error(reason: &str) -> (e: WebsocketClientError)
    ensures
        e@ == ClientErrorModel::TxError("Could not send message: "@ + reason@),
{
    WebsocketClientError::TxError(join("Could not send message: ", reason))
}

/// Whether a status code of the opening handshake is informational: the
/// server switches protocols with a code from 100 to 199.
pub open spec fn informational(status: u16) -> bool {
    100 <= status < 200
}

/// The state after the server has answered the opening handshake with
/// `status`: only a connection that is `Connecting` takes note of it.
pub open spec fn handshake_state(state: ConnectionState, status: u16) -> ConnectionState {
    if state != ConnectionState::Connecting {
        state
    } else if informational(status) {
        ConnectionState::Connected
    } else {
        ConnectionState::Closed
    }
}

/// The state after a message has come in: a message that acknowledges an
/// authentication makes a `Connected` connection `Authenticated`; no other
/// message changes the state.
pub open spec fn state_after(state: ConnectionState, message: MessageModel) -> ConnectionState {
    if state == ConnectionState::Connected && acknowledges_authentication(message) {
        ConnectionState::Authenticated
    } else {
        state
    }
}

/// Whether a message acknowledges an authentication: a system message of
/// type `success` whose payload names the action `authenticate`.
pub open spec fn acknowledges_authentication(message: MessageModel) -> bool {
    &&& message matches MessageModel::System(response)
    &&& response.message_type == "success"@
    &&& routing_key(response.payload, "action"@) == Some("authenticate"@)
}

/// Whether a message acknowledges an authentication.
pub fn is_authentication_success(message: &Message) -> (b: bool)
    ensures
        b == acknowledges_authentication(message.deep_view()),
{
    match message {
        Message::System(response) => {
            if !same_text(response.message_type.as_str(), "success") {
                return false;
            }
            match response.payload.get("action") {
                Some(action) => match action.as_str() {
                    Some(word) => same_text(word, "authenticate"),
                    None => false,
                },
                None => false,
            }
        },
        Message::Feed(_, _) => false,
    }
}

/// Whether the outcome of preparing a frame is the expected one: the
/// expected error, or a frame with the expected characters.
pub open spec fn hands_out(
    r: Result<String, WebsocketClientError>,
    expected: Result<Seq<char>, ClientErrorModel>,
) -> bool {
    match r {
        Ok(frame) => expected == Ok::<Seq<char>, ClientErrorModel>(frame@),
        Err(e) => expected == Err::<Seq<char>, ClientErrorModel>(e@),
    }
}

/// The frame for one action on a feed: it is handed out only while the
/// connection is open.
pub open spec fn request_frame(
    state: ConnectionState,
    action: SubscribeAction,
    feed: Feed,
    symbols: Seq<Seq<char>>,
) -> Result<Seq<char>, ClientErrorModel> {
    if state.open() {
        Ok(subscription_frame(action.word()@, feed.topics(symbols)))
    } else {
        Err(ClientErrorModel::TxError("Could not send message: socket is not connected"@))
    }
}

/// The frame that authenticates a connection: it is handed out only while
/// the connection is open, and only where a credential was given.
pub open spec fn authentication_frame(client: ClientModel) -> Result<Seq<char>, ClientErrorModel> {
    if client.state.open() {
        authentication(client.credential)
    } else {
        Err(ClientErrorModel::AuthenticationError("socket is not connected"@))
    }
}

/// The connection manager's record of one connection: where it goes to, the
/// credential it was given, and where it stands. The socket itself is held
/// by the caller, who reports what happens on it and sends what is handed
/// out here.
#[derive(Clone, Debug, PartialEq, Eq)]
pub struct Client {
    pub server_url: String,
    pub credential: Option<String>,
    pub state: ConnectionState,
}

/// Mathematical model of a `Client`.
pub struct ClientModel {
    pub server_url: Seq<char>,
    pub credential: Option<Seq<char>>,
    pub state: ConnectionState,
}

impl View for Client {
    type V = ClientModel;

    open spec fn view(&self) -> ClientModel {
        ClientModel {
            server_url: self.server_url@,
            credential: match self.credential {
                Some(c) => Some(c@),
                None => None,
            },
            state: self.state,
        }
    }
}

impl ClientModel {
    /// This record in another state.
    pub open spec fn at(self, state: ConnectionState) -> ClientModel {
        ClientModel { server_url: self.server_url, credential: self.credential, state }
    }
}

impl Client {
    /// A record for a connection to the given address, or to the address of
    /// the venue where none is given. Nothing is connected yet.
    pub fn new(server_url: Option<String>, credential: Option<String>) -> (client: Client)
        ensures
            client.state == ConnectionState::Disconnected,
            client.credential == credential,
            client.server_url@ == match server_url {
                Some(url) => url@,
                None => DEFAULT_WS_SERVER_URL@,
            },
    {
        let server_url = match server_url {
            Some(url) => url,
            None => DEFAULT_WS_SERVER_URL.to_owned(),
        };
        Client::new_with_server_url(server_url, credential)
    }

    /// A record for a connection to the given address. Nothing is connected
    /// yet.
    pub fn new_with_server_url(server_url: String, credential: Option<String>) -> (client: Client)
        ensures
            client.state == ConnectionState::Disconnected,
            client.credential == credential,
            client.server_url == server_url,
    {
        Client { server_url, credential, state: ConnectionState::Disconnected }
    }

    /// Starts the one connection attempt of this record. From `Disconnected`
    /// the state becomes `Connecting`; from any other state nothing changes
    /// and an `InitializationError` is returned.
    pub fn begin_connect(&mut self) -> (r: Result<(), WebsocketClientError>)
        ensures
            match r {
                Ok(_) => old(self).state == ConnectionState::Disconnected && final(self)@ == old(
                    self
                )@.at(ConnectionState::Connecting),
                Err(e) => old(self).state != ConnectionState::Disconnected && final(self)@ == old(
                    self
                )@ && e@ == ClientErrorModel::InitializationError("connection already started"@),
            },
    {
        match self.state {
            ConnectionState::Disconnected => {
                self.state = ConnectionState::Connecting;
                Ok(())
            },
            _ => Err(
                WebsocketClientError::InitializationError("connection already started".to_owned()),
            ),
        }
    }

    /// Takes note of the answer of the server to the opening handshake. While
    /// `Connecting`, an informational status makes the connection
    /// `Connected`; any other status closes it, with an
    /// `InitializationError` that carries `detail`. In any other state
    /// nothing changes and an `InitializationError` is returned.
    pub fn handshake_completed(&mut self, status: u16, detail: &str) -> (r: Result<
        (),
        WebsocketClientError,
    >)
        ensures
            final(self)@ == old(self)@.at(handshake_state(old(self).state, status)),
            match r {
                Ok(_) => old(self).state == ConnectionState::Connecting && informational(status),
                Err(e) => e@ == ClientErrorModel::InitializationError(
                    if old(self).state != ConnectionState::Connecting {
                        "no connection attempt is under way"@
                    } else {
                        "Websocket connection unsuccessful: "@ + detail@
                    },
                ) && !(old(self).state == ConnectionState::Connecting && informational(status)),
            },
    {
        match self.state {
            ConnectionState::Connecting => {
                if 100 <= status && status < 200 {
                    self.state = ConnectionState::Connected;
                    Ok(())
                } else {
                    self.state = ConnectionState::Closed;
                    Err(
                        WebsocketClientError::InitializationError(
                            join("Websocket connection unsuccessful: ", detail),
                        ),
                    )
                }
            },
            _ => Err(
                WebsocketClientError::InitializationError(
                    "no connection attempt is under way".to_owned(),
                ),
            ),
        }
    }

    /// Takes note that the transport could not be set up. The connection is
    /// closed, and the `InitializationError` to report is returned.
    pub fn connect_failed(&mut self, reason: &str) -> (e: WebsocketClientError)
        ensures
            final(self)@ == old(self)@.at(ConnectionState::Closed),
            e@ == ClientErrorModel::InitializationError(
                "Could not connect to websocket server: "@ + reason@,
            ),
    {
        self.state = ConnectionState::Closed;
        WebsocketClientError::InitializationError(
            join("Could not connect to websocket server: ", reason),
        )
    }

    /// The frame that authenticates this connection. It is handed out only
    /// while the connection is open, and only where a credential was given;
    /// otherwise an `AuthenticationError` is returned. The state does not
    /// change: the server confirms in a message of its own.
    pub fn authenticate(&self) -> (r: Result<String, WebsocketClientError>)
        ensures
            hands_out(r, authentication_frame(self@)),
    {
        if !self.state.is_open() {
            return Err(
                WebsocketClientError::AuthenticationError("socket is not connected".to_owned()),
            );
        }
        match &self.credential {
            Some(token) => authenticate(Some(token.as_str())),
            None => authenticate(None),
        }
    }

    /// The frame that subscribes to the provided feeds, while the connection
    /// is open; a `TxError` otherwise.
    pub fn subscribe(&self, feed_type: Feed, feeds: Vec<String>) -> (r: Result<
        String,
        WebsocketClientError,
    >)
        ensures
            hands_out(
                r,
                request_frame(self.state, SubscribeAction::Subscribe, feed_type, feeds.deep_view()),
            ),
    {
        self.request(feed_type, feeds, SubscribeAction::Subscribe)
    }

    /// The frame that unsubscribes from feeds that this socket has previously
    /// subscribed to, while the connection is open; a `TxError` otherwise.
    pub fn unsubscribe(&self, feed_type: Feed, feeds: Vec<String>) -> (r: Result<
        String,
        WebsocketClientError,
    >)
        ensures
            hands_out(
                r,
                request_frame(
                    self.state,
                    SubscribeAction::Unsubscribe,
                    feed_type,
                    feeds.deep_view(),
                ),
            ),
    {
        self.request(feed_type, feeds, SubscribeAction::Unsubscribe)
    }

    /// The frame for one action on a feed, while the connection is open.
    fn request(&self, feed_type: Feed, feeds: Vec<String>, action: SubscribeAction) -> (r: Result<
        String,
        WebsocketClientError,
    >)
        ensures
            hands_out(r, request_frame(self.state, action, feed_type, feeds.deep_view())),
    {
        if self.state.is_open() {
            Ok(feed_msg(feeds, feed_type, action))
        } else {
            proof {
                reveal_strlit("Could not send message: ");
                reveal_strlit("socket is not connected");
                reveal_strlit("Could not send message: socket is not connected");
                assert("Could not send message: "@ + "socket is not connected"@
                    =~= "Could not send message: socket is not connected"@);
            }
            Err(tx_error("socket is not connected"))
        }
    }

    /// Takes note that a frame could not be sent. A transport error ends the
    /// connection: it is closed, and the `TxError` to report is returned.
    pub fn send_failed(&mut self, reason: &str) -> (e: WebsocketClientError)
        ensures
            final(self)@ == old(self)@.at(ConnectionState::Closed),
            e@ == ClientErrorModel::TxError("Could not send message: "@ + reason@),
    {
        self.state = ConnectionState::Closed;
        tx_error(reason)
    }

    /// Takes note that the authentication frame could not be sent. The
    /// connection is closed, and the `AuthenticationError` to report is
    /// returned: it carries the words of the `TxError` of the send.
    pub fn authentication_failed(&mut self, reason: &str) -> (e: WebsocketClientError)
        ensures
            final(self)@ == old(self)@.at(ConnectionState::Closed),
            e@ == ClientErrorModel::AuthenticationError(
                ClientErrorModel::TxError("Could not send message: "@ + reason@).text(),
            ),
    {
        let cause = self.send_failed(reason);
        WebsocketClientError::AuthenticationError(cause.message())
    }

    /// The error for a write path that could not be locked. The connection
    /// is as it was, and the send may be tried again.
    pub fn lock_failed(&self, reason: &str) -> (e: WebsocketClientError)
        ensures
            e@ == ClientErrorModel::LockError(reason@),
    {
        WebsocketClientError::LockError(reason.to_owned())
    }

    /// Takes in the text of one inbound frame and hands out the typed
    /// message. A frame that cannot be read, classified or decoded gives its
    /// error and leaves the connection as it was. A message that acknowledges
    /// an authentication makes a `Connected` connection `Authenticated`; no
    /// other message changes the state.
    pub fn receive(&mut self, text: &str) -> (r: Result<Message, WebsocketClientError>)
        ensures
            delivers(r, decoded_message(text@)),
            final(self)@ == old(self)@.at(
                match r {
                    Ok(message) => state_after(old(self).state, message.deep_view()),
                    Err(_) => old(self).state,
                },
            ),
    {
        match decode_message(text) {
            Ok(message) => {
                if self.state == ConnectionState::Connected && is_authentication_success(&message) {
                    self.state = ConnectionState::Authenticated;
                }
                Ok(message)
            },
            Err(e) => Err(e),
        }
    }

    /// Closes the connection, at the wish of the caller or because the
    /// socket failed while reading.
    pub fn close(&mut self)
        ensures
            final(self)@ == old(self)@.at(ConnectionState::Closed),
    {
        self.state = ConnectionState::Closed;
    }
}

/// For a frame without a recipient, the check of an authentication on the
/// text of the frame and the check on the decoded message say the same.
pub proof fn lemma_authentication_checks_agree(text: Seq<char>)
    requires
        frame_value(text) matches Ok(frame) && routing_key(frame, "recipient"@).is_none(),
    ensures
        auth_check(text) == Ok::<bool, ClientErrorModel>(true) <==> (decoded_message(
            text,
        ) matches Ok(message) && acknowledges_authentication(message)),
{
}

/// A closed connection stays closed, whatever the server sends or answers.
pub proof fn lemma_closed_is_final(message: MessageModel, status: u16)
    ensures
        state_after(ConnectionState::Closed, message) == ConnectionState::Closed,
        handshake_state(ConnectionState::Closed, status) == ConnectionState::Closed,
{
}

/// Only a message that acknowledges an authentication makes a connection
/// `Authenticated`, and only one that is `Connected`: authentication is
/// never implicit.
pub proof fn lemma_authentication_is_explicit(state: ConnectionState, message: MessageModel)
    requires
        state != ConnectionState::Authenticated,
        state_after(state, message) == ConnectionState::Authenticated,
    ensures
        state == ConnectionState::Connected,
        acknowledges_authentication(message),
{
}

} // verus!
