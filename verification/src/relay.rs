//! What stands between a session and the outside: frames as the transport
//! hands them over, wire texts as the client gets them, and the bus on which
//! envelopes are published.

use crate::message::{
    client_content, decode_client_payload, wire_text, ChatMessage, ChatMessageView,
};
use crate::notices::welcome_notice;
use crate::session::{
    bus_step, client_step, greeting, well_formed, BusEvent, ClientInput, ClientInputView,
    Delivery, Reaction, ReactionView, Session,
};
use tokio::sync::broadcast::Sender;
use vstd::prelude::*;

verus! {

/// The sending half of `tokio`'s broadcast channel, on which sessions publish.
#[verifier::external_type_specification]
#[verifier::external_body]
#[verifier::reject_recursive_types(T)]
pub struct ExSender<T>(tokio::sync::broadcast::Sender<T>);

/// Hands `envelope` to `tokio::sync::broadcast::Sender::send`, which queues
/// it for every current subscriber without waiting for any of them, and
/// returns the number of subscribers, or `None` where the call fails because
/// there is none.
///
/// Trusted: a number that is returned is at least one. Nothing else can be
/// said here of the result, which depends on who is subscribed at the time.
#[verifier::external_body]
pub(crate) fn send_on_bus(bus: &Sender<ChatMessage>, envelope: ChatMessage) -> (receivers:
    Option<usize>)
    ensures
        receivers matches Some(n) ==> n > 0,
{
    bus.send(envelope).ok()
}

/// One frame from the client, as the transport hands it over.
#[derive(Debug, PartialEq, Eq)]
pub enum ClientFrame {
    /// A text frame with its raw payload.
    Text(String),
    /// A transport-level ping with its payload.
    Ping(Vec<u8>),
    /// A transport-level pong.
    Pong,
    /// The client closed the connection.
    Close,
    /// Reading from the connection failed for good.
    Failed,
    /// A binary payload or another frame the relay does not handle.
    Unsupported,
}

/// Mathematical model of a [`ClientFrame`].
pub enum ClientFrameView {
    Text(Seq<char>),
    Ping(Seq<u8>),
    Pong,
    Close,
    Failed,
    Unsupported,
}

impl View for ClientFrame {
    type V = ClientFrameView;

    open spec fn view(&self) -> ClientFrameView {
        match self {
            ClientFrame::Text(raw) => ClientFrameView::Text(raw@),
            ClientFrame::Ping(payload) => ClientFrameView::Ping(payload@),
            ClientFrame::Pong => ClientFrameView::Pong,
            ClientFrame::Close => ClientFrameView::Close,
            ClientFrame::Failed => ClientFrameView::Failed,
            ClientFrame::Unsupported => ClientFrameView::Unsupported,
        }
    }
}

/// What is left for the caller to do once a session has taken an event.
#[derive(Debug, PartialEq, Eq)]
pub enum Action {
    /// Nothing.
    Nothing,
    /// Send `text` to the client as one text frame, and report a failure to
    /// do so with `purpose`.
    SendText { text: String, purpose: Delivery },
    /// Send a transport-level pong with `payload`, and report a failure to do
    /// so with [`Delivery::Pong`].
    SendPong { payload: Vec<u8> },
    /// Nothing more: an envelope was handed to the bus, which had `receivers`
    /// subscribers, or none at all.
    Published { receivers: Option<usize> },
}

/// Mathematical model of an [`Action`].
pub enum ActionView {
    Nothing,
    SendText { text: Seq<char>, purpose: Delivery },
    SendPong { payload: Seq<u8> },
    Published { receivers: Option<usize> },
}

impl View for Action {
    type V = ActionView;

    open spec fn view(&self) -> ActionView {
        match self {
            Action::Nothing => ActionView::Nothing,
            Action::SendText { text, purpose } => ActionView::SendText {
                text: text@,
                purpose: *purpose,
            },
            Action::SendPong { payload } => ActionView::SendPong { payload: payload@ },
            Action::Published { receivers } => ActionView::Published { receivers: *receivers },
        }
    }
}

/// The input that a frame stands for: a text frame is decoded, every other
/// frame is taken as it is.
pub open spec fn input_of(frame: ClientFrameView) -> ClientInputView {
    match frame {
        ClientFrameView::Text(raw) => ClientInputView::Payload(client_content(raw)),
        ClientFrameView::Ping(payload) => ClientInputView::Ping(payload),
        ClientFrameView::Pong => ClientInputView::Pong,
        ClientFrameView::Close => ClientInputView::Close,
        ClientFrameView::Failed => ClientInputView::Failed,
        ClientFrameView::Unsupported => ClientInputView::Unsupported,
    }
}

/// The action that delivers `envelope` to the client: its wire text is sent,
/// and where the envelope has none, nothing is.
pub open spec fn delivery_of(envelope: ChatMessageView, purpose: Delivery) -> ActionView {
    match wire_text(envelope) {
        Some(text) => ActionView::SendText { text, purpose },
        None => ActionView::Nothing,
    }
}

/// Whether `action` is what carrying out `reaction` leaves to the caller.
pub open spec fn carries_out(reaction: ReactionView, action: ActionView) -> bool {
    match reaction {
        ReactionView::Nothing => action is Nothing,
        ReactionView::Deliver { envelope, purpose } => action == delivery_of(envelope, purpose),
        ReactionView::Pong { payload } => action == (ActionView::SendPong { payload }),
        ReactionView::Publish { envelope } => action matches ActionView::Published { receivers }
            && (receivers matches Some(n) ==> n > 0),
    }
}

/// Decodes a frame into the input that a session takes.
pub fn read_frame(frame: ClientFrame) -> (input: ClientInput)
    ensures
        input@ == input_of(frame@),
{
    match frame {
        ClientFrame::Text(raw) => ClientInput::Payload(decode_client_payload(raw.as_str())),
        ClientFrame::Ping(payload) => ClientInput::Ping(payload),
        ClientFrame::Pong => ClientInput::Pong,
        ClientFrame::Close => ClientInput::Close,
        ClientFrame::Failed => ClientInput::Failed,
        ClientFrame::Unsupported => ClientInput::Unsupported,
    }
}

/// The action that sends `text`, where there is one, to the client.
pub fn send_if_some(text: Option<String>, purpose: Delivery) -> (action: Action)
    ensures
        action@ == match text {
            Some(text) => ActionView::SendText { text: text@, purpose },
            None => ActionView::Nothing,
        },
{
    match text {
        Some(text) => Action::SendText { text, purpose },
        None => Action::Nothing,
    }
}

/// The action that delivers `envelope` to the client.
pub fn deliver(envelope: &ChatMessage, purpose: Delivery) -> (action: Action)
    ensures
        action@ == delivery_of(envelope@, purpose),
{
    send_if_some(envelope.encode(), purpose)
}

/// Carries out `reaction` as far as that takes no waiting: an envelope to
/// publish goes to `bus` at once, whether or not anyone is subscribed; what
/// has to be sent to the client is returned.
pub fn carry_out(reaction: Reaction, bus: &Sender<ChatMessage>) -> (action: Action)
    ensures
        carries_out(reaction@, action@),
{
    match reaction {
        Reaction::Nothing => Action::Nothing,
        Reaction::Deliver { envelope, purpose } => deliver(&envelope, purpose),
        Reaction::Pong { payload } => Action::SendPong { payload },
        Reaction::Publish { envelope } => Action::Published {
            receivers: send_on_bus(bus, envelope),
        },
    }
}

impl Session {
    /// The greeting, ready to send.
    pub fn welcome(&self) -> (action: Action)
        ensures
            carries_out(greeting(), action@),
    {
        deliver(&welcome_notice(), Delivery::Welcome)
    }

    /// Takes one frame from the client: decodes it, lets the session react,
    /// and carries the reaction out.
    pub fn handle_client_frame(
        &mut self,
        frame: ClientFrame,
        bus: &Sender<ChatMessage>,
    ) -> (action: Action)
        ensures
            final(self)@ == client_step(old(self)@, input_of(frame@)).0,
            carries_out(client_step(old(self)@, input_of(frame@)).1, action@),
            well_formed(final(self)@),
    {
        let input = read_frame(frame);
        let reaction = self.on_client_input(input);
        carry_out(reaction, bus)
    }

    /// Takes what the bus subscription yields, lets the session react, and
    /// returns what has to be sent to the client.
    pub fn handle_bus_event(&mut self, event: BusEvent) -> (action: Action)
        ensures
            final(self)@ == bus_step(old(self)@, event@).0,
            carries_out(bus_step(old(self)@, event@).1, action@),
            well_formed(final(self)@),
    {
        match self.on_bus_event(event) {
            Reaction::Deliver { envelope, purpose } => deliver(&envelope, purpose),
            _ => Action::Nothing,
        }
    }
}

} // verus!
