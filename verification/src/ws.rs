//! The push side: one websocket to the control API, and what becomes of its frames.
//!
//! The engine holds no socket. Whoever owns the socket hands each item that it yields to
//! `PushEngine::on_message`, and does what the returned `PushStep` says: hand the event to
//! the consumer, ask the socket again, or end the stream. An engine exists from the moment
//! the connection is open, so `Connecting` is the time before `PushEngine::connect`
//! returns; once `Closed`, an engine stays closed.

use crate::error::{LcuWebsocketError, LcuWebsocketErrorView};
use crate::json::{from_str, json_document, text_fits, FromJson};
use crate::model::ws::{LcuEvent, LcuSubscriptionType, LcuSubscriptionView};
use crate::text::{
    all_plain, decimal, json_string, lemma_plain_stays_plain, lemma_plain_text_is_unescaped,
    push_decimal, push_json_string,
};
use tokio_tungstenite::tungstenite::{Error, Message};
use vstd::prelude::*;
use vstd::string::StringExecFns;

verus! {

/// `tungstenite::Message`: one message of a websocket.
#[verifier::external_type_specification]
#[verifier::external_body]
pub struct ExMessage(Message);

/// `tungstenite::Error`: why a websocket operation failed.
#[verifier::external_type_specification]
#[verifier::external_body]
pub struct ExSocketError(Error);

/// What a websocket message is to the engine.
pub uninterp spec fn message_content(message: Message) -> InboundView;

/// The kind of a websocket error: the variant of `tungstenite::Error` that it is.
pub uninterp spec fn failure_kind(failure: Error) -> SocketFailure;

/// The message that a websocket error displays.
pub uninterp spec fn failure_message(failure: Error) -> Seq<char>;

/// Tells the variants of `tungstenite::Message` apart: a text message keeps its text, a
/// close message is `Close`, and a binary, ping, pong or raw frame is `Other`.
#[verifier::external_body]
fn content_of(message: Message) -> (r: Inbound)
    ensures
        r@ == message_content(message),
{
    match message {
        Message::Text(text) => Inbound::Text(text),
        Message::Binary(_) => Inbound::Other,
        Message::Ping(_) => Inbound::Other,
        Message::Pong(_) => Inbound::Other,
        Message::Close(_) => Inbound::Close,
        Message::Frame(_) => Inbound::Other,
    }
}

/// Tells the variants of `tungstenite::Error` apart: each one is the kind of the same name,
/// and what a variant holds is left behind.
#[verifier::external_body]
fn kind_of(failure: &Error) -> (r: SocketFailure)
    ensures
        r == failure_kind(*failure),
{
    match failure {
        Error::ConnectionClosed => SocketFailure::ConnectionClosed,
        Error::AlreadyClosed => SocketFailure::AlreadyClosed,
        Error::Io(_) => SocketFailure::Io,
        Error::Tls(_) => SocketFailure::Tls,
        Error::Capacity(_) => SocketFailure::Capacity,
        Error::Protocol(_) => SocketFailure::Protocol,
        Error::WriteBufferFull(_) => SocketFailure::WriteBufferFull,
        Error::Utf8 => SocketFailure::Utf8,
        Error::AttackAttempt => SocketFailure::AttackAttempt,
        Error::Url(_) => SocketFailure::Url,
        Error::Http(_) => SocketFailure::Http,
        Error::HttpFormat(_) => SocketFailure::HttpFormat,
    }
}

/// `tungstenite::Error`'s `Display`: the error's message.
#[verifier::external_body]
fn message_of(failure: &Error) -> (r: String)
    ensures
        r@ == failure_message(*failure),
{
    failure.to_string()
}

/// How long the opening of the connection may take before it counts as failed, in
/// milliseconds.
pub const CONNECT_TIMEOUT_MILLIS: u64 = 100;

/// The opcode of a request to subscribe.
pub const SUBSCRIBE: u8 = 5;

/// The opcode of a request to unsubscribe.
pub const UNSUBSCRIBE: u8 = 6;

/// The text of a `Disconnected` error that the engine raises itself, without asking the
/// socket.
pub open spec fn closed_text() -> Seq<char> {
    "Trying to work with closed connection"@
}

/// One item from the socket.
#[derive(Debug, Clone, PartialEq, Eq)]
pub enum Inbound {
    /// A text message.
    Text(String),
    /// A message that is neither text nor close.
    Other,
    /// A close message.
    Close,
    /// The socket reported an error.
    Failed,
    /// The socket has nothing more to give.
    Ended,
}

/// An `Inbound` with its text as a sequence of characters.
pub enum InboundView {
    Text(Seq<char>),
    Other,
    Close,
    Failed,
    Ended,
}

impl View for Inbound {
    type V = InboundView;

    open spec fn view(&self) -> InboundView {
        match self {
            Inbound::Text(text) => InboundView::Text(text@),
            Inbound::Other => InboundView::Other,
            Inbound::Close => InboundView::Close,
            Inbound::Failed => InboundView::Failed,
            Inbound::Ended => InboundView::Ended,
        }
    }
}

impl DeepView for Inbound {
    type V = InboundView;

    open spec fn deep_view(&self) -> InboundView {
        self@
    }
}

/// What the socket's owner does next.
#[derive(Debug, Clone, PartialEq, Eq)]
pub enum PushStep {
    /// Hand this event to the consumer.
    Yield(LcuEvent),
    /// Nothing to hand on: ask the socket for its next item.
    Skip,
    /// The stream is over.
    End,
}

/// Whether the connection still is.
#[derive(Debug, Clone, Copy, PartialEq, Eq, Structural)]
pub enum ConnectionState {
    Open,
    Closed,
}

/// The kinds of error that a websocket reports.
#[derive(Debug, Clone, Copy, PartialEq, Eq, Structural)]
pub enum SocketFailure {
    /// The connection was closed in the regular way.
    ConnectionClosed,
    /// The connection had been closed before it was used.
    AlreadyClosed,
    /// The connection underneath failed: the peer was not reached, or was lost.
    Io,
    /// The TLS session could not be set up.
    Tls,
    /// A buffer or message size limit was reached.
    Capacity,
    /// The peer broke the websocket protocol.
    Protocol,
    /// The buffer for outgoing messages is full.
    WriteBufferFull,
    /// A text was no UTF-8.
    Utf8,
    /// The peer's behaviour looks like an attack.
    AttackAttempt,
    /// The address is none that a websocket can be opened to.
    Url,
    /// The peer answered the upgrade request with an HTTP status other than the upgrade.
    Http,
    /// The upgrade request or the peer's answer to it is malformed as HTTP.
    HttpFormat,
}

impl SocketFailure {
    /// The error says that the connection is closed.
    pub open spec fn closed(self) -> bool {
        self is ConnectionClosed || self is AlreadyClosed
    }

    /// The error says that the connection underneath failed. While a connection is being
    /// opened, that is a peer that cannot be reached.
    pub open spec fn unreachable(self) -> bool {
        self is Io
    }

    /// The error says that the connection could not be set up: the address is unusable, or
    /// the TLS session could not be prepared.
    pub open spec fn malformed(self) -> bool {
        self is Tls || self is Url
    }

    /// Whether the error says that the connection is closed.
    pub fn is_closed(&self) -> (r: bool)
        ensures
            r == self.closed(),
    {
        match self {
            SocketFailure::ConnectionClosed => true,
            SocketFailure::AlreadyClosed => true,
            _ => false,
        }
    }

    /// Whether the error says that the connection underneath failed.
    pub fn is_unreachable(&self) -> (r: bool)
        ensures
            r == self.unreachable(),
    {
        match self {
            SocketFailure::Io => true,
            _ => false,
        }
    }

    /// Whether the error says that the connection could not be set up.
    pub fn is_malformed(&self) -> (r: bool)
        ensures
            r == self.malformed(),
    {
        match self {
            SocketFailure::Tls => true,
            SocketFailure::Url => true,
            _ => false,
        }
    }
}

/// Why no connection came about.
#[derive(Debug, Clone, PartialEq, Eq)]
pub enum ConnectFailure {
    /// The control API could not be found or reached; with the reason.
    Unavailable(String),
    /// The request, its credentials or the TLS setup could not be prepared.
    Setup,
    /// The peer was reached and the websocket handshake failed; with the reason.
    Handshake(String),
}

/// A `ConnectFailure` with its reason as a sequence of characters.
pub enum ConnectFailureModel {
    Unavailable(Seq<char>),
    Setup,
    Handshake(Seq<char>),
}

impl View for ConnectFailure {
    type V = ConnectFailureModel;

    open spec fn view(&self) -> ConnectFailureModel {
        match self {
            ConnectFailure::Unavailable(reason) => ConnectFailureModel::Unavailable(reason@),
            ConnectFailure::Setup => ConnectFailureModel::Setup,
            ConnectFailure::Handshake(reason) => ConnectFailureModel::Handshake(reason@),
        }
    }
}

/// Why no connection came about, given the kind of error that the socket reported while it
/// was being opened, and the error's message.
///
/// A connection that failed underneath is a peer that cannot be reached. An unusable
/// address or TLS setup is a failed setup. Everything else went wrong in the websocket
/// handshake with a peer that was reached.
pub open spec fn failure_of(kind: SocketFailure, reason: Seq<char>) -> ConnectFailureModel {
    if kind.unreachable() {
        ConnectFailureModel::Unavailable(reason)
    } else if kind.malformed() {
        ConnectFailureModel::Setup
    } else {
        ConnectFailureModel::Handshake(reason)
    }
}

/// Why no connection came about, by `failure_of`.
pub fn connect_failure(kind: SocketFailure, reason: String) -> (r: ConnectFailure)
    ensures
        r@ == failure_of(kind, reason@),
{
    if kind.is_unreachable() {
        ConnectFailure::Unavailable(reason)
    } else if kind.is_malformed() {
        ConnectFailure::Setup
    } else {
        ConnectFailure::Handshake(reason)
    }
}

/// Why no connection came about, for an error that the socket reported while it was being
/// opened: by `failure_of`, from the error's kind and message.
pub fn on_connect_error(failure: &Error) -> (r: ConnectFailure)
    ensures
        r@ == failure_of(failure_kind(*failure), failure_message(*failure)),
{
    connect_failure(kind_of(failure), message_of(failure))
}

/// The error that a failed connect is reported as.
pub open spec fn connect_error(failure: ConnectFailureModel) -> LcuWebsocketErrorView {
    match failure {
        ConnectFailureModel::Unavailable(reason) => LcuWebsocketErrorView::LcuNotAvailable(reason),
        ConnectFailureModel::Setup => LcuWebsocketErrorView::AuthError,
        ConnectFailureModel::Handshake(reason) => LcuWebsocketErrorView::Disconnected(reason),
    }
}

/// A failed connect is reported by the kind of the socket's error: a peer that cannot be
/// reached as `LcuNotAvailable`, an unusable address or TLS setup as `AuthError`, and every
/// other failure, which is one of the websocket handshake, as `Disconnected`; the first and
/// the last with the socket's message.
pub proof fn lemma_connect_errors_by_kind(kind: SocketFailure, reason: Seq<char>)
    ensures
        kind is Io ==> connect_error(failure_of(kind, reason))
            == LcuWebsocketErrorView::LcuNotAvailable(reason),
        kind is Tls || kind is Url ==> connect_error(failure_of(kind, reason))
            == LcuWebsocketErrorView::AuthError,
        !(kind is Io || kind is Tls || kind is Url) ==> connect_error(failure_of(kind, reason))
            == LcuWebsocketErrorView::Disconnected(reason),
{
}

/// The text of a control frame: the JSON array of `opcode` and the key's wire string, the
/// latter as a JSON string.
pub open spec fn control_frame(opcode: u8, wire: Seq<char>) -> Seq<char> {
    "["@ + decimal(opcode as nat) + ", "@ + json_string(wire) + "]"@
}

/// The address of the control API's websocket on this machine's port `port`.
pub open spec fn websocket_address(port: u16) -> Seq<char> {
    "wss://127.0.0.1:"@ + decimal(port as nat)
}

/// The address of the control API's websocket on this machine's port `port`.
pub fn websocket_url(port: u16) -> (r: String)
    ensures
        r@ == websocket_address(port),
{
    let mut out = String::from_str("wss://127.0.0.1:");
    push_decimal(&mut out, port as u64);
    out
}

/// Writes a control frame.
pub fn write_control_frame(opcode: u8, key: &LcuSubscriptionType) -> (r: String)
    ensures
        r@ == control_frame(opcode, key@.wire()),
{
    let mut out = String::from_str("[");
    push_decimal(&mut out, opcode as u64);
    out.append(", ");
    push_json_string(&mut out, key.to_wire().as_str());
    out.append("]");
    out
}

/// The state of one websocket connection.
#[derive(Debug, Clone, PartialEq, Eq)]
pub struct PushEngine {
    state: ConnectionState,
}

impl PushEngine {
    /// The engine's state.
    pub closed spec fn state(&self) -> ConnectionState {
        self.state
    }

    /// Whether an item from the socket ends the stream: every item does on a closed
    /// connection, and on an open one a close message, an error and the socket's end do.
    pub open spec fn ends(state: ConnectionState, inbound: InboundView) -> bool {
        state is Closed || inbound is Close || inbound is Failed || inbound is Ended
    }

    /// The document of the event that an item from the socket yields: that of a text
    /// message on an open connection, where it is a push event.
    pub open spec fn yields(state: ConnectionState, inbound: InboundView) -> Option<
        serde_json::Value,
    > {
        match inbound {
            InboundView::Text(frame) => if state is Open && text_fits::<LcuEvent>(frame) {
                json_document(frame)
            } else {
                None
            },
            _ => None,
        }
    }

    /// The state after an item from the socket.
    pub open spec fn after(state: ConnectionState, inbound: InboundView) -> ConnectionState {
        if Self::ends(state, inbound) {
            ConnectionState::Closed
        } else {
            state
        }
    }

    /// The step that `yielding` and `ending` ask for, given the event `step` holds.
    pub open spec fn step_is(
        step: PushStep,
        yielding: Option<serde_json::Value>,
        ending: bool,
    ) -> bool {
        match step {
            PushStep::Yield(event) => !ending && (yielding matches Some(document)
                && event.read_from(document)),
            PushStep::Skip => !ending && yielding is None,
            PushStep::End => ending,
        }
    }

    /// Makes the engine of a connection, from what became of the attempt to connect: an open
    /// engine where it succeeded, else the error that the failure is reported as.
    pub fn connect(outcome: Result<(), ConnectFailure>) -> (r: Result<
        PushEngine,
        LcuWebsocketError,
    >)
        ensures
            match outcome {
                Ok(_) => r matches Ok(engine) && engine.state() is Open,
                Err(failure) => r matches Err(error) && error@ == connect_error(failure@),
            },
    {
        match outcome {
            Ok(_) => Ok(PushEngine { state: ConnectionState::Open }),
            Err(ConnectFailure::Unavailable(reason)) => Err(
                LcuWebsocketError::LcuNotAvailable(reason),
            ),
            Err(ConnectFailure::Setup) => Err(LcuWebsocketError::AuthError),
            Err(ConnectFailure::Handshake(reason)) => Err(LcuWebsocketError::Disconnected(reason)),
        }
    }

    /// Whether the connection is open.
    pub fn is_open(&self) -> (r: bool)
        ensures
            r == (self.state() is Open),
    {
        match self.state {
            ConnectionState::Open => true,
            ConnectionState::Closed => false,
        }
    }

    /// Takes one item from the socket.
    ///
    /// A text message that is a push event is yielded. Any other text message, and any
    /// message that is neither text nor close, is skipped without a trace. A close message,
    /// an error or the socket's end closes the engine and ends the stream, and a closed engine
    /// ends the stream whatever comes.
    pub fn on_inbound(&mut self, inbound: &Inbound) -> (r: PushStep)
        ensures
            final(self).state() == Self::after(old(self).state(), inbound@),
            Self::step_is(
                r,
                Self::yields(old(self).state(), inbound@),
                Self::ends(old(self).state(), inbound@),
            ),
    {
        if !self.is_open() {
            return PushStep::End;
        }
        match inbound {
            Inbound::Text(frame) => match from_str::<LcuEvent>(frame.as_str()) {
                Some(event) => PushStep::Yield(event),
                None => PushStep::Skip,
            },
            Inbound::Other => PushStep::Skip,
            Inbound::Close | Inbound::Failed | Inbound::Ended => {
                self.state = ConnectionState::Closed;
                PushStep::End
            },
        }
    }

    /// The documents of the events that a run of items yields from `state`, in the order of
    /// the items.
    pub open spec fn run_yields(state: ConnectionState, items: Seq<InboundView>) -> Seq<
        serde_json::Value,
    >
        decreases items.len(),
    {
        if items.len() == 0 {
            Seq::empty()
        } else {
            let rest = Self::run_yields(Self::after(state, items[0]), items.drop_first());
            match Self::yields(state, items[0]) {
                Some(document) => seq![document] + rest,
                None => rest,
            }
        }
    }

    /// The state after a run of items from `state`.
    pub open spec fn run_after(state: ConnectionState, items: Seq<InboundView>) -> ConnectionState
        decreases items.len(),
    {
        if items.len() == 0 {
            state
        } else {
            Self::run_after(Self::after(state, items[0]), items.drop_first())
        }
    }

    /// Takes a run of items from the socket, one after the other, and returns the events that
    /// they yield, in order. Nothing is yielded from the item on that ends the stream.
    pub fn drain(&mut self, items: &Vec<Inbound>) -> (events: Vec<LcuEvent>)
        ensures
            final(self).state() == Self::run_after(old(self).state(), items.deep_view()),
            events.len() == Self::run_yields(old(self).state(), items.deep_view()).len(),
            forall|i: int|
                0 <= i < events.len() ==> (#[trigger] events[i]).read_from(
                    Self::run_yields(old(self).state(), items.deep_view())[i],
                ),
    {
        let ghost all = items.deep_view();
        let ghost start = self.state();
        let ghost mut documents: Seq<serde_json::Value> = Seq::empty();
        let mut events: Vec<LcuEvent> = Vec::new();
        let mut i: usize = 0;
        assert(all.subrange(0, all.len() as int) == all);
        while i < items.len()
            invariant
                all == items.deep_view(),
                i <= items.len(),
                events.len() == documents.len(),
                forall|j: int|
                    0 <= j < events.len() ==> (#[trigger] events[j]).read_from(documents[j]),
                Self::run_yields(start, all) == documents + Self::run_yields(
                    self.state(),
                    all.subrange(i as int, all.len() as int),
                ),
                Self::run_after(start, all) == Self::run_after(
                    self.state(),
                    all.subrange(i as int, all.len() as int),
                ),
            decreases items.len() - i,
        {
            let ghost before = self.state();
            let ghost tail = all.subrange(i as int, all.len() as int);
            proof {
                assert(tail[0] == items[i as int]@);
                assert(tail.drop_first() == all.subrange(i + 1, all.len() as int));
            }
            match self.on_inbound(&items[i]) {
                PushStep::Yield(event) => {
                    events.push(event);
                    proof {
                        let document = Self::yields(before, tail[0])->0;
                        let rest = Self::run_yields(self.state(), tail.drop_first());
                        assert(documents + (seq![document] + rest) == documents.push(document)
                            + rest);
                        documents = documents.push(document);
                    }
                },
                _ => {},
            }
            i += 1;
        }
        proof {
            assert(documents + Seq::<serde_json::Value>::empty() == documents);
        }
        events
    }

    /// What the socket handed over, as an `Inbound`.
    pub open spec fn inbound_of(item: Option<Result<Message, Error>>) -> InboundView {
        match item {
            Some(Ok(message)) => message_content(message),
            Some(Err(_)) => InboundView::Failed,
            None => InboundView::Ended,
        }
    }

    /// Takes what the socket handed over when it was asked for its next message, and does
    /// with it what `on_inbound` does.
    pub fn on_message(&mut self, item: Option<Result<Message, Error>>) -> (r: PushStep)
        ensures
            final(self).state() == Self::after(old(self).state(), Self::inbound_of(item)),
            Self::step_is(
                r,
                Self::yields(old(self).state(), Self::inbound_of(item)),
                Self::ends(old(self).state(), Self::inbound_of(item)),
            ),
    {
        let inbound = match item {
            Some(Ok(message)) => content_of(message),
            Some(Err(_)) => Inbound::Failed,
            None => Inbound::Ended,
        };
        self.on_inbound(&inbound)
    }

    /// The frame to send for a request with `opcode` about `key`. A closed engine sends
    /// nothing: it answers `Disconnected`.
    pub fn request(&self, opcode: u8, key: &LcuSubscriptionType) -> (r: Result<
        String,
        LcuWebsocketError,
    >)
        ensures
            match self.state() {
                ConnectionState::Open => r matches Ok(frame) && frame@ == control_frame(
                    opcode,
                    key@.wire(),
                ),
                ConnectionState::Closed => r matches Err(error) && error@
                    == LcuWebsocketErrorView::Disconnected(closed_text()),
            },
    {
        if self.is_open() {
            Ok(write_control_frame(opcode, key))
        } else {
            Err(
                LcuWebsocketError::Disconnected(
                    String::from_str("Trying to work with closed connection"),
                ),
            )
        }
    }

    /// The frame that subscribes to `key`.
    pub fn subscribe(&self, key: &LcuSubscriptionType) -> (r: Result<String, LcuWebsocketError>)
        ensures
            match self.state() {
                ConnectionState::Open => r matches Ok(frame) && frame@ == control_frame(
                    SUBSCRIBE,
                    key@.wire(),
                ),
                ConnectionState::Closed => r matches Err(error) && error@
                    == LcuWebsocketErrorView::Disconnected(closed_text()),
            },
    {
        self.request(SUBSCRIBE, key)
    }

    /// The frame that unsubscribes from `key`.
    pub fn unsubscribe(&self, key: &LcuSubscriptionType) -> (r: Result<
        String,
        LcuWebsocketError,
    >)
        ensures
            match self.state() {
                ConnectionState::Open => r matches Ok(frame) && frame@ == control_frame(
                    UNSUBSCRIBE,
                    key@.wire(),
                ),
                ConnectionState::Closed => r matches Err(error) && error@
                    == LcuWebsocketErrorView::Disconnected(closed_text()),
            },
    {
        self.request(UNSUBSCRIBE, key)
    }

    /// The error for a frame that could not be sent, and its effect on the engine.
    ///
    /// `closed` says whether the socket reported that the connection is closed, `reason` is
    /// the socket's message. A closed connection closes the engine and is reported as
    /// `Disconnected` with the reason; anything else is a `SendError` and changes nothing.
    pub fn send_failed(&mut self, closed: bool, reason: String) -> (r: LcuWebsocketError)
        ensures
            closed ==> final(self).state() is Closed && r@
                == LcuWebsocketErrorView::Disconnected(reason@),
            !closed ==> final(self).state() == old(self).state() && r@
                == LcuWebsocketErrorView::SendError,
    {
        if closed {
            self.state = ConnectionState::Closed;
            LcuWebsocketError::Disconnected(reason)
        } else {
            LcuWebsocketError::SendError
        }
    }

    /// The error for a frame that the socket refused, by `send_failed`: the kinds
    /// `ConnectionClosed` and `AlreadyClosed` say that the connection is closed.
    pub fn on_send_error(&mut self, failure: &Error) -> (r: LcuWebsocketError)
        ensures
            failure_kind(*failure).closed() ==> final(self).state() is Closed && r@
                == LcuWebsocketErrorView::Disconnected(failure_message(*failure)),
            !failure_kind(*failure).closed() ==> final(self).state() == old(self).state() && r@
                == LcuWebsocketErrorView::SendError,
    {
        let closed = kind_of(failure).is_closed();
        self.send_failed(closed, message_of(failure))
    }
}

/// The control frame for a key whose path holds no double quote, backslash or control
/// character is the opcode and the wire string as it is, between double quotes.
pub proof fn lemma_plain_key_is_written_as_it_is(opcode: u8, key: LcuSubscriptionView)
    requires
        match key {
            LcuSubscriptionView::JsonApiEvent(path) => all_plain(path),
            LcuSubscriptionView::LcdsEvent(path) => all_plain(path),
            _ => true,
        },
    ensures
        control_frame(opcode, key.wire()) == "["@ + decimal(opcode as nat) + ", \""@ + key.wire()
            + "\"]"@,
{
    reveal_strlit("OnJsonApiEvent");
    reveal_strlit("OnJsonApiEvent_");
    reveal_strlit("OnLcdsEvent_");
    reveal_strlit(", ");
    reveal_strlit(", \"");
    reveal_strlit("]");
    reveal_strlit("\"]");
    let wire = key.wire();
    assert(all_plain(wire)) by {
        match key {
            LcuSubscriptionView::JsonApiEvent(path) => {
                lemma_plain_stays_plain(path, '/', '/', '_');
            },
            LcuSubscriptionView::LcdsEvent(path) => {
                lemma_plain_stays_plain(path, '/', '/', '_');
            },
            _ => {},
        }
    }
    lemma_plain_text_is_unescaped(wire);
    let head = "["@ + decimal(opcode as nat);
    assert(head + ", "@ + (seq!['"'] + wire + seq!['"']) + "]"@ =~= head + ", \""@ + wire
        + "\"]"@);
}

/// A text message that is no push event leaves no trace: the run goes on as if it had not
/// come.
pub proof fn lemma_malformed_frame_is_skipped(
    state: ConnectionState,
    frame: Seq<char>,
    rest: Seq<InboundView>,
)
    requires
        !text_fits::<LcuEvent>(frame),
    ensures
        PushEngine::run_yields(state, seq![InboundView::Text(frame)] + rest)
            == PushEngine::run_yields(state, rest),
        PushEngine::run_after(state, seq![InboundView::Text(frame)] + rest)
            == PushEngine::run_after(state, rest),
{
    let items = seq![InboundView::Text(frame)] + rest;
    assert(items.drop_first() == rest);
    if state is Closed {
        lemma_closed_is_terminal(rest);
    }
}

/// A closed engine is closed for good and yields nothing, whatever comes.
pub proof fn lemma_closed_is_terminal(items: Seq<InboundView>)
    ensures
        PushEngine::run_yields(ConnectionState::Closed, items) == Seq::<serde_json::Value>::empty(),
        PushEngine::run_after(ConnectionState::Closed, items) == ConnectionState::Closed,
    decreases items.len(),
{
    if items.len() > 0 {
        lemma_closed_is_terminal(items.drop_first());
    }
}

/// An open engine that gets a malformed text message, a push event and a close message
/// yields that one event and is closed.
pub proof fn lemma_one_event_then_close(malformed: Seq<char>, event: Seq<char>)
    requires
        !text_fits::<LcuEvent>(malformed),
        text_fits::<LcuEvent>(event),
    ensures
        PushEngine::run_yields(
            ConnectionState::Open,
            seq![InboundView::Text(malformed), InboundView::Text(event), InboundView::Close],
        ) == seq![json_document(event)->0],
        PushEngine::run_after(
            ConnectionState::Open,
            seq![InboundView::Text(malformed), InboundView::Text(event), InboundView::Close],
        ) == ConnectionState::Closed,
{
    let tail = seq![InboundView::Text(event), InboundView::Close];
    let last = seq![InboundView::Close];
    let items = seq![InboundView::Text(malformed), InboundView::Text(event), InboundView::Close];
    assert(items == seq![InboundView::Text(malformed)] + tail);
    lemma_malformed_frame_is_skipped(ConnectionState::Open, malformed, tail);
    assert(tail.drop_first() == last);
    assert(last.drop_first() == Seq::<InboundView>::empty());
    lemma_closed_is_terminal(last.drop_first());
    assert(PushEngine::run_yields(ConnectionState::Open, last) == Seq::<
        serde_json::Value,
    >::empty());
    assert(seq![json_document(event)->0] + Seq::<serde_json::Value>::empty()
        == seq![json_document(event)->0]);
    assert(PushEngine::run_after(ConnectionState::Open, last) == ConnectionState::Closed);
    assert(PushEngine::run_after(ConnectionState::Open, tail) == ConnectionState::Closed);
}

} // verus!
