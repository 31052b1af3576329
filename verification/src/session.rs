//! The per-connection session: a state machine that takes what arrives from
//! the client and from the bus, one event at a time, and says what has to be
//! sent where.
//!
//! A session starts `Unregistered`, becomes `Active` once the client has
//! registered a display name, and ends `Terminated`. It never goes back.
//! Nothing here performs I/O: every step returns a [`Reaction`] that the
//! caller carries out.

use crate::error::DecodeError;
use crate::message::{chat, notice, ChatMessage, ChatMessageView};
use crate::notices::{
    confirmation_notice, confirmation_text, decode_failure_notice, decode_failure_text,
    rejection_notice, rejection_text, welcome_notice, welcome_text,
};
use crate::registration::{check_display_name, is_display_name, name_fault};
use crate::text::{lemma_trimmed_is_tight, trim, trimmed};
use vstd::prelude::*;

verus! {

/// Where a session stands in its life.
#[derive(Debug, PartialEq, Eq)]
pub enum SessionState {
    /// No display name yet: client texts are proposals for one.
    Unregistered,
    /// Registered: client texts are chat messages.
    Active { display_name: String },
    /// The session is over.
    Terminated,
}

/// Mathematical model of a [`SessionState`].
pub enum SessionStateView {
    Unregistered,
    Active { display_name: Seq<char> },
    Terminated,
}

impl View for SessionState {
    type V = SessionStateView;

    open spec fn view(&self) -> SessionStateView {
        match self {
            SessionState::Unregistered => SessionStateView::Unregistered,
            SessionState::Active { display_name } => SessionStateView::Active {
                display_name: display_name@,
            },
            SessionState::Terminated => SessionStateView::Terminated,
        }
    }
}

/// One session, bound to one connection.
#[derive(Debug)]
pub struct Session {
    connection_id: String,
    state: SessionState,
}

/// Mathematical model of a [`Session`].
pub struct SessionView {
    pub connection_id: Seq<char>,
    pub state: SessionStateView,
}

impl View for Session {
    type V = SessionView;

    closed spec fn view(&self) -> SessionView {
        SessionView { connection_id: self.connection_id@, state: self.state@ }
    }
}

/// Whether `s` is a state that a session can be in: an active session goes
/// by a display name that meets the rules.
pub open spec fn well_formed(s: SessionView) -> bool {
    s.state matches SessionStateView::Active { display_name } ==> is_display_name(display_name)
}

/// What a text sent to the client is for. It decides whether a failure to
/// deliver the text ends the session.
#[derive(Clone, Copy, Debug, PartialEq, Eq, Structural)]
pub enum Delivery {
    /// The greeting of a new client.
    Welcome,
    /// The notice that a display name was turned down.
    Rejection,
    /// The notice that a display name was accepted.
    Confirmation,
    /// The notice that a payload could not be read.
    DecodeFailure,
    /// An envelope of another session, passed on from the bus.
    Relay,
    /// The answer to a transport-level ping.
    Pong,
}

/// One unit of input from the client, a text payload already decoded.
#[derive(Debug, PartialEq, Eq)]
pub enum ClientInput {
    /// A text payload, and what decoding it gave.
    Payload(Result<String, DecodeError>),
    /// A transport-level ping with its payload.
    Ping(Vec<u8>),
    /// A transport-level pong.
    Pong,
    /// The client closed the connection.
    Close,
    /// Reading from the connection failed for good.
    Failed,
    /// A binary payload or another frame the relay does not handle.
    Unsupported,
}

/// Mathematical model of a [`ClientInput`].
pub enum ClientInputView {
    Payload(Result<Seq<char>, DecodeError>),
    Ping(Seq<u8>),
    Pong,
    Close,
    Failed,
    Unsupported,
}

/// The model of what decoding a payload gave.
pub open spec fn decoding_view(decoded: Result<String, DecodeError>) -> Result<
    Seq<char>,
    DecodeError,
> {
    match decoded {
        Ok(content) => Ok(content@),
        Err(e) => Err(e),
    }
}

impl View for ClientInput {
    type V = ClientInputView;

    open spec fn view(&self) -> ClientInputView {
        match self {
            ClientInput::Payload(decoded) => ClientInputView::Payload(decoding_view(*decoded)),
            ClientInput::Ping(payload) => ClientInputView::Ping(payload@),
            ClientInput::Pong => ClientInputView::Pong,
            ClientInput::Close => ClientInputView::Close,
            ClientInput::Failed => ClientInputView::Failed,
            ClientInput::Unsupported => ClientInputView::Unsupported,
        }
    }
}

/// What a session's subscription to the bus yields.
#[derive(Debug, PartialEq, Eq)]
pub enum BusEvent {
    /// An envelope that some session has published.
    Envelope(ChatMessage),
    /// The subscription fell behind and this many envelopes were dropped.
    Lagged(u64),
    /// The bus has been shut down.
    Closed,
}

/// Mathematical model of a [`BusEvent`].
pub enum BusEventView {
    Envelope(ChatMessageView),
    Lagged(u64),
    Closed,
}

impl View for BusEvent {
    type V = BusEventView;

    open spec fn view(&self) -> BusEventView {
        match self {
            BusEvent::Envelope(envelope) => BusEventView::Envelope(envelope@),
            BusEvent::Lagged(missed) => BusEventView::Lagged(*missed),
            BusEvent::Closed => BusEventView::Closed,
        }
    }
}

/// What a session wants done after an event.
#[derive(Debug, PartialEq, Eq)]
pub enum Reaction {
    /// Nothing.
    Nothing,
    /// Send `envelope` to this session's own client.
    Deliver { envelope: ChatMessage, purpose: Delivery },
    /// Answer a ping with a pong that carries the same payload.
    Pong { payload: Vec<u8> },
    /// Publish `envelope` on the bus.
    Publish { envelope: ChatMessage },
}

/// Mathematical model of a [`Reaction`].
pub enum ReactionView {
    Nothing,
    Deliver { envelope: ChatMessageView, purpose: Delivery },
    Pong { payload: Seq<u8> },
    Publish { envelope: ChatMessageView },
}

impl View for Reaction {
    type V = ReactionView;

    open spec fn view(&self) -> ReactionView {
        match self {
            Reaction::Nothing => ReactionView::Nothing,
            Reaction::Deliver { envelope, purpose } => ReactionView::Deliver {
                envelope: envelope@,
                purpose: *purpose,
            },
            Reaction::Pong { payload } => ReactionView::Pong { payload: payload@ },
            Reaction::Publish { envelope } => ReactionView::Publish { envelope: envelope@ },
        }
    }
}

/// Anything that can happen to a session, tagged by where it comes from.
#[derive(Debug, PartialEq, Eq)]
pub enum Event {
    /// The client sent something.
    FromClient(ClientInput),
    /// The bus subscription yielded something.
    FromBus(BusEvent),
    /// A text for the client could not be delivered.
    Undelivered(Delivery),
}

/// Mathematical model of an [`Event`].
pub enum EventView {
    FromClient(ClientInputView),
    FromBus(BusEventView),
    Undelivered(Delivery),
}

impl View for Event {
    type V = EventView;

    open spec fn view(&self) -> EventView {
        match self {
            Event::FromClient(input) => EventView::FromClient(input@),
            Event::FromBus(event) => EventView::FromBus(event@),
            Event::Undelivered(purpose) => EventView::Undelivered(*purpose),
        }
    }
}

/// The session `s`, terminated.
pub open spec fn terminated(s: SessionView) -> SessionView {
    SessionView { connection_id: s.connection_id, state: SessionStateView::Terminated }
}

/// The session `s`, active under `display_name`.
pub open spec fn activated(s: SessionView, display_name: Seq<char>) -> SessionView {
    SessionView { connection_id: s.connection_id, state: SessionStateView::Active { display_name } }
}

/// A new session on the connection `connection_id`.
pub open spec fn fresh(connection_id: Seq<char>) -> SessionView {
    SessionView { connection_id, state: SessionStateView::Unregistered }
}

/// The greeting a new client is sent.
pub open spec fn greeting() -> ReactionView {
    ReactionView::Deliver { envelope: notice(welcome_text()), purpose: Delivery::Welcome }
}

/// How a session takes a text payload, given what decoding it gave.
pub open spec fn payload_step(s: SessionView, decoded: Result<Seq<char>, DecodeError>) -> (
    SessionView,
    ReactionView,
) {
    match (s.state, decoded) {
        (SessionStateView::Terminated, _) => (s, ReactionView::Nothing),
        (_, Err(_)) => (
            s,
            ReactionView::Deliver {
                envelope: notice(decode_failure_text()),
                purpose: Delivery::DecodeFailure,
            },
        ),
        (SessionStateView::Unregistered, Ok(content)) => {
            let name = trimmed(content);
            if name_fault(name) is Some {
                (
                    s,
                    ReactionView::Deliver {
                        envelope: notice(rejection_text(name)),
                        purpose: Delivery::Rejection,
                    },
                )
            } else {
                (
                    activated(s, name),
                    ReactionView::Deliver {
                        envelope: notice(confirmation_text(name)),
                        purpose: Delivery::Confirmation,
                    },
                )
            }
        },
        (SessionStateView::Active { display_name }, Ok(content)) => (
            s,
            ReactionView::Publish { envelope: chat(s.connection_id, display_name, content) },
        ),
    }
}

/// How a session takes one unit of client input.
pub open spec fn client_step(s: SessionView, input: ClientInputView) -> (
    SessionView,
    ReactionView,
) {
    if s.state is Terminated {
        (s, ReactionView::Nothing)
    } else {
        match input {
            ClientInputView::Payload(decoded) => payload_step(s, decoded),
            ClientInputView::Ping(payload) => (s, ReactionView::Pong { payload }),
            ClientInputView::Pong => (s, ReactionView::Nothing),
            ClientInputView::Close => (terminated(s), ReactionView::Nothing),
            ClientInputView::Failed => (terminated(s), ReactionView::Nothing),
            ClientInputView::Unsupported => (s, ReactionView::Nothing),
        }
    }
}

/// Whether `envelope` was published by the session on `connection_id`.
pub open spec fn is_own_echo(connection_id: Seq<char>, envelope: ChatMessageView) -> bool {
    envelope.sender_addr == Some(connection_id)
}

/// How a session takes what its bus subscription yields.
pub open spec fn bus_step(s: SessionView, event: BusEventView) -> (SessionView, ReactionView) {
    if s.state is Terminated {
        (s, ReactionView::Nothing)
    } else {
        match event {
            BusEventView::Envelope(envelope) => if is_own_echo(s.connection_id, envelope) {
                (s, ReactionView::Nothing)
            } else {
                (s, ReactionView::Deliver { envelope, purpose: Delivery::Relay })
            },
            BusEventView::Lagged(_) => (s, ReactionView::Nothing),
            BusEventView::Closed => (terminated(s), ReactionView::Nothing),
        }
    }
}

/// How a session takes the news that a text for its client could not be
/// delivered: only a lost greeting is survived.
pub open spec fn failure_step(s: SessionView, purpose: Delivery) -> SessionView {
    if purpose is Welcome {
        s
    } else {
        terminated(s)
    }
}

/// How a session takes one event of any kind.
pub open spec fn step(s: SessionView, event: EventView) -> (SessionView, ReactionView) {
    match event {
        EventView::FromClient(input) => client_step(s, input),
        EventView::FromBus(event) => bus_step(s, event),
        EventView::Undelivered(purpose) => (failure_step(s, purpose), ReactionView::Nothing),
    }
}

impl Session {
    /// Every session is well formed, at all times.
    #[verifier::type_invariant]
    pub open spec fn inv(&self) -> bool {
        well_formed(self@)
    }

    /// A new session on the connection `connection_id`.
    pub fn new(connection_id: String) -> (r: Session)
        ensures
            r@ == fresh(connection_id@),
            well_formed(r@),
    {
        Session { connection_id, state: SessionState::Unregistered }
    }

    /// The identifier of the connection this session is bound to.
    pub fn connection_id(&self) -> (r: &str)
        ensures
            r@ == self@.connection_id,
    {
        self.connection_id.as_str()
    }

    /// Where the session stands.
    pub fn state(&self) -> (r: &SessionState)
        ensures
            r@ == self@.state,
            well_formed(self@),
    {
        proof {
            use_type_invariant(self);
        }
        &self.state
    }

    /// The registered display name, while the session is active.
    pub fn display_name(&self) -> (r: Option<&str>)
        ensures
            match r {
                Some(name) => self@.state == (SessionStateView::Active { display_name: name@ }),
                None => !(self@.state is Active),
            },
    {
        match &self.state {
            SessionState::Active { display_name } => Some(display_name.as_str()),
            _ => None,
        }
    }

    /// Whether the session is over.
    pub fn is_terminated(&self) -> (r: bool)
        ensures
            r == (self@.state is Terminated),
    {
        match &self.state {
            SessionState::Terminated => true,
            _ => false,
        }
    }

    /// The greeting to send before the first event is taken.
    pub fn greet(&self) -> (r: Reaction)
        ensures
            r@ == greeting(),
    {
        Reaction::Deliver { envelope: welcome_notice(), purpose: Delivery::Welcome }
    }

    /// Takes a text payload of the client, given what decoding it gave.
    pub fn on_payload(&mut self, decoded: Result<String, DecodeError>) -> (r: Reaction)
        ensures
            (final(self)@, r@) == payload_step(old(self)@, decoding_view(decoded)),
            well_formed(old(self)@),
            well_formed(final(self)@),
    {
        proof {
            use_type_invariant(&*self);
        }
        if self.is_terminated() {
            return Reaction::Nothing;
        }
        let content = match decoded {
            Ok(content) => content,
            Err(_) => {
                return Reaction::Deliver {
                    envelope: decode_failure_notice(),
                    purpose: Delivery::DecodeFailure,
                };
            },
        };
        match &self.state {
            SessionState::Active { display_name } => Reaction::Publish {
                envelope: ChatMessage {
                    sender_addr: Some(self.connection_id.clone()),
                    username: Some(display_name.clone()),
                    content,
                },
            },
            _ => {
                let name = trim(content.as_str());
                if check_display_name(name).is_some() {
                    Reaction::Deliver {
                        envelope: rejection_notice(name),
                        purpose: Delivery::Rejection,
                    }
                } else {
                    let envelope = confirmation_notice(name);
                    proof {
                        lemma_trimmed_is_tight(content@);
                    }
                    self.state = SessionState::Active { display_name: name.to_string() };
                    Reaction::Deliver { envelope, purpose: Delivery::Confirmation }
                }
            },
        }
    }

    /// Takes one unit of client input.
    pub fn on_client_input(&mut self, input: ClientInput) -> (r: Reaction)
        ensures
            (final(self)@, r@) == client_step(old(self)@, input@),
            well_formed(old(self)@),
            well_formed(final(self)@),
    {
        proof {
            use_type_invariant(&*self);
        }
        if self.is_terminated() {
            return Reaction::Nothing;
        }
        match input {
            ClientInput::Payload(decoded) => self.on_payload(decoded),
            ClientInput::Ping(payload) => Reaction::Pong { payload },
            ClientInput::Pong => Reaction::Nothing,
            ClientInput::Close => {
                self.state = SessionState::Terminated;
                Reaction::Nothing
            },
            ClientInput::Failed => {
                self.state = SessionState::Terminated;
                Reaction::Nothing
            },
            ClientInput::Unsupported => Reaction::Nothing,
        }
    }

    /// Takes what the bus subscription yields.
    pub fn on_bus_event(&mut self, event: BusEvent) -> (r: Reaction)
        ensures
            (final(self)@, r@) == bus_step(old(self)@, event@),
            well_formed(old(self)@),
            well_formed(final(self)@),
    {
        proof {
            use_type_invariant(&*self);
        }
        if self.is_terminated() {
            return Reaction::Nothing;
        }
        match event {
            BusEvent::Envelope(envelope) => {
                let own = match &envelope.sender_addr {
                    Some(sender) => *sender == self.connection_id,
                    None => false,
                };
                if own {
                    Reaction::Nothing
                } else {
                    Reaction::Deliver { envelope, purpose: Delivery::Relay }
                }
            },
            BusEvent::Lagged(_) => Reaction::Nothing,
            BusEvent::Closed => {
                self.state = SessionState::Terminated;
                Reaction::Nothing
            },
        }
    }

    /// Takes the news that a text for the client could not be delivered.
    pub fn on_delivery_failure(&mut self, purpose: Delivery)
        ensures
            final(self)@ == failure_step(old(self)@, purpose),
            well_formed(old(self)@),
            well_formed(final(self)@),
    {
        proof {
            use_type_invariant(&*self);
        }
        match purpose {
            Delivery::Welcome => {},
            _ => {
                self.state = SessionState::Terminated;
            },
        }
    }

    /// Takes one event of any kind.
    pub fn step(&mut self, event: Event) -> (r: Reaction)
        ensures
            (final(self)@, r@) == step(old(self)@, event@),
            well_formed(old(self)@),
            well_formed(final(self)@),
    {
        match event {
            Event::FromClient(input) => self.on_client_input(input),
            Event::FromBus(event) => self.on_bus_event(event),
            Event::Undelivered(purpose) => {
                self.on_delivery_failure(purpose);
                Reaction::Nothing
            },
        }
    }
}

} // verus!
