//! Messages that arrive on a relay connection, and what the relay makes of them.

use vstd::prelude::*;
use vstd::utf8::*;

verus! {

/// The control frames of the streaming protocol.
#[derive(Clone, Copy, Debug, PartialEq, Eq, Structural)]
pub enum ControlKind {
    Ping,
    Pong,
    Close,
}

/// One discrete unit received from a connection, by its class.
///
/// Only `Text` and `Binary` carry a payload that the relay forwards.
#[derive(Clone, Debug, PartialEq, Eq)]
pub enum InboundMessage {
    Text(String),
    Binary(Vec<u8>),
    Control(ControlKind),
    /// A frame that is no complete message of the protocol.
    Invalid,
}

/// The mathematical content of an [`InboundMessage`].
pub enum MessageView {
    Text(Seq<char>),
    Binary(Seq<u8>),
    Control(ControlKind),
    Invalid,
}

impl View for InboundMessage {
    type V = MessageView;

    open spec fn view(&self) -> MessageView {
        match self {
            InboundMessage::Text(text) => MessageView::Text(text@),
            InboundMessage::Binary(bytes) => MessageView::Binary(bytes@),
            InboundMessage::Control(kind) => MessageView::Control(*kind),
            InboundMessage::Invalid => MessageView::Invalid,
        }
    }
}

/// The event handed to the application's event bus for one forwarded message.
#[derive(Clone, Debug, PartialEq, Eq)]
pub struct RelayEvent {
    payload: String,
}

/// The mathematical content of a [`RelayEvent`]: a topic and a payload.
pub struct RelayEventView {
    pub topic: Seq<char>,
    pub payload: Seq<char>,
}

impl View for RelayEvent {
    type V = RelayEventView;

    closed spec fn view(&self) -> RelayEventView {
        relay_event(self.payload@)
    }
}

/// The topic under which every relay event is published.
pub open spec fn relay_topic() -> Seq<char> {
    "relay-message"@
}

/// The fixed text sent back once for each forwarded message.
pub open spec fn acknowledgment_text() -> Seq<char> {
    "Received"@
}

/// The relay event that carries `payload`.
pub open spec fn relay_event(payload: Seq<char>) -> RelayEventView {
    RelayEventView { topic: relay_topic(), payload }
}

/// The text that `String::from_utf8_lossy` makes of `bytes`.
pub uninterp spec fn lossy_utf8_text(bytes: Seq<u8>) -> Seq<char>;

/// Whether the relay forwards a message of this class to the event bus.
pub open spec fn is_forwarded(message: MessageView) -> bool {
    message is Text || message is Binary
}

/// The payload, as text, that a forwarded message carries to the event bus.
///
/// Text goes through unchanged. Binary data is read as UTF-8, with each
/// malformed sequence replaced by U+FFFD.
pub open spec fn payload_text(message: MessageView) -> Seq<char> {
    match message {
        MessageView::Text(text) => text,
        MessageView::Binary(bytes) => lossy_utf8_text(bytes),
        _ => Seq::empty(),
    }
}

/// Turns bytes into text with `String::from_utf8_lossy`.
///
/// Trusted: the result is named `lossy_utf8_text`; for well-formed UTF-8 it
/// is the decoding of the bytes, as the standard library documents.
#[verifier::external_body]
fn lossy_text(bytes: &Vec<u8>) -> (text: String)
    ensures
        text@ == lossy_utf8_text(bytes@),
        valid_utf8(bytes@) ==> text@ == decode_utf8(bytes@),
{
    String::from_utf8_lossy(bytes).into_owned()
}

/// The topic of every relay event.
pub fn topic() -> (name: &'static str)
    ensures
        name@ == relay_topic(),
{
    "relay-message"
}

/// The acknowledgment sent on a connection after a message was forwarded.
pub fn acknowledgment() -> (text: &'static str)
    ensures
        text@ == acknowledgment_text(),
{
    "Received"
}

impl RelayEvent {
    /// The event that carries `payload` under the relay's topic.
    pub fn new(payload: String) -> (event: RelayEvent)
        ensures
            event@ == relay_event(payload@),
    {
        RelayEvent { payload }
    }

    /// The topic of this event, which is the relay's topic.
    pub fn topic(&self) -> (name: &'static str)
        ensures
            name@ == self@.topic,
            name@ == relay_topic(),
    {
        topic()
    }

    /// The payload of this event.
    pub fn payload(&self) -> (text: &str)
        ensures
            text@ == self@.payload,
    {
        self.payload.as_str()
    }

    /// Gives up the event for its payload.
    pub fn into_payload(self) -> (text: String)
        ensures
            text@ == self@.payload,
    {
        self.payload
    }
}

impl InboundMessage {
    /// Whether this message is forwarded to the event bus and acknowledged.
    pub fn is_forwarded(&self) -> (forwarded: bool)
        ensures
            forwarded == is_forwarded(self@),
    {
        match self {
            InboundMessage::Text(_) => true,
            InboundMessage::Binary(_) => true,
            InboundMessage::Control(_) => false,
            InboundMessage::Invalid => false,
        }
    }

    /// The event to publish for this message: one for text and binary
    /// messages, none for control frames and invalid frames.
    pub fn into_event(self) -> (event: Option<RelayEvent>)
        ensures
            event is Some <==> is_forwarded(self@),
            event is Some ==> event->0@ == relay_event(payload_text(self@)),
            self@ matches MessageView::Binary(bytes) ==> (valid_utf8(bytes)
                ==> event->0@.payload == decode_utf8(bytes)),
    {
        match self {
            InboundMessage::Text(text) => Some(RelayEvent::new(text)),
            InboundMessage::Binary(bytes) => Some(RelayEvent::new(lossy_text(&bytes))),
            InboundMessage::Control(_) => None,
            InboundMessage::Invalid => None,
        }
    }
}

} // verus!
