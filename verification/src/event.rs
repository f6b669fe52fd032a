//! The events that travel between the participants of a chat.

use vstd::prelude::*;
use crate::ids::{ChannelUri, MessageUri, ParticipantId, SenderUri, Timestamp};

verus! {

/// Where, by whom and when a message is sent, and by which name it is known.
#[derive(Debug, PartialEq, Eq)]
pub struct MessageHeader {
    pub channel_uri: ChannelUri,
    pub sender_uri: SenderUri,
    pub date_time: Timestamp,
    pub message_uri: MessageUri,
}

/// The model of a [`MessageHeader`].
pub struct MessageHeaderView {
    pub channel_uri: Seq<char>,
    pub sender_uri: Seq<char>,
    pub date_time: Timestamp,
    pub message_uri: Seq<char>,
}

impl View for MessageHeader {
    type V = MessageHeaderView;

    open spec fn view(&self) -> MessageHeaderView {
        MessageHeaderView {
            channel_uri: self.channel_uri@,
            sender_uri: self.sender_uri@,
            date_time: self.date_time,
            message_uri: self.message_uri@,
        }
    }
}

impl Clone for MessageHeader {
    fn clone(&self) -> (result: Self)
        ensures
            result@ == self@,
    {
        MessageHeader {
            channel_uri: self.channel_uri.clone(),
            sender_uri: self.sender_uri.clone(),
            date_time: self.date_time,
            message_uri: self.message_uri.clone(),
        }
    }
}

/// A message whose parts have all arrived.
#[derive(Debug, PartialEq, Eq)]
pub struct CompleteMessage {
    pub message_header: MessageHeader,
    pub content: String,
}

/// The model of a [`CompleteMessage`].
pub struct CompleteMessageView {
    pub message_header: MessageHeaderView,
    pub content: Seq<char>,
}

impl View for CompleteMessage {
    type V = CompleteMessageView;

    open spec fn view(&self) -> CompleteMessageView {
        CompleteMessageView { message_header: self.message_header@, content: self.content@ }
    }
}

/// The model of a message that may be missing.
pub open spec fn opt_message(message: Option<CompleteMessage>) -> Option<CompleteMessageView> {
    match message {
        Some(message) => Some(message@),
        None => None,
    }
}

/// An event that every participant understands. The metadata that such events may carry play
/// no part in what is decided about them, and those that originate here carry none.
#[derive(Debug, PartialEq, Eq)]
pub enum CoreEvent {
    /// A part of a message has arrived.
    MessageStreamChunk { message_header: MessageHeader, content: String },
    /// All parts of a message have arrived.
    MessageStreamCompleted { message_header: MessageHeader },
    /// A message will not be completed.
    MessageDeliveryFailed { message_header: MessageHeader },
    /// The name of a sender has become known.
    SenderDiscovered { sender_uri: SenderUri, display_name: String },
    /// The name of a channel has become known.
    ChannelDiscovered { channel_uri: ChannelUri, display_name: String },
    /// Any other event.
    Other,
}

/// The model of a [`CoreEvent`].
pub enum CoreEventView {
    MessageStreamChunk { message_header: MessageHeaderView, content: Seq<char> },
    MessageStreamCompleted { message_header: MessageHeaderView },
    MessageDeliveryFailed { message_header: MessageHeaderView },
    SenderDiscovered { sender_uri: Seq<char>, display_name: Seq<char> },
    ChannelDiscovered { channel_uri: Seq<char>, display_name: Seq<char> },
    Other,
}

impl View for CoreEvent {
    type V = CoreEventView;

    open spec fn view(&self) -> CoreEventView {
        match self {
            CoreEvent::MessageStreamChunk { message_header, content } =>
                CoreEventView::MessageStreamChunk {
                message_header: message_header@,
                content: content@,
            },
            CoreEvent::MessageStreamCompleted { message_header } =>
                CoreEventView::MessageStreamCompleted { message_header: message_header@ },
            CoreEvent::MessageDeliveryFailed { message_header } =>
                CoreEventView::MessageDeliveryFailed { message_header: message_header@ },
            CoreEvent::SenderDiscovered { sender_uri, display_name } =>
                CoreEventView::SenderDiscovered {
                sender_uri: sender_uri@,
                display_name: display_name@,
            },
            CoreEvent::ChannelDiscovered { channel_uri, display_name } =>
                CoreEventView::ChannelDiscovered {
                channel_uri: channel_uri@,
                display_name: display_name@,
            },
            CoreEvent::Other => CoreEventView::Other,
        }
    }
}

/// What an event is about: something that every participant understands, or a foreign payload.
#[derive(Debug, PartialEq, Eq)]
pub enum Payload<P> {
    Core(CoreEvent),
    Custom(P),
}

/// The model of a [`Payload`].
pub enum PayloadView<P> {
    Core(CoreEventView),
    Custom(P),
}

impl<P> View for Payload<P> {
    type V = PayloadView<P>;

    open spec fn view(&self) -> PayloadView<P> {
        match self {
            Payload::Core(event) => PayloadView::Core(event@),
            Payload::Custom(payload) => PayloadView::Custom(*payload),
        }
    }
}

/// Something that a participant tells the others.
#[derive(Debug, PartialEq, Eq)]
pub struct Event<P> {
    pub origin: ParticipantId,
    pub payload: Payload<P>,
}

/// The model of an [`Event`].
pub struct EventView<P> {
    pub origin: Seq<char>,
    pub payload: PayloadView<P>,
}

impl<P> View for Event<P> {
    type V = EventView<P>;

    open spec fn view(&self) -> EventView<P> {
        EventView { origin: self.origin@, payload: self.payload@ }
    }
}

/// The event that tells `event` from `origin`.
pub open spec fn core_event<P>(origin: Seq<char>, event: CoreEventView) -> EventView<P> {
    EventView { origin, payload: PayloadView::Core(event) }
}

/// The event that tells a foreign `payload` from `origin`.
pub open spec fn custom_event<P>(origin: Seq<char>, payload: P) -> EventView<P> {
    EventView { origin, payload: PayloadView::Custom(payload) }
}

impl<P> Event<P> {
    /// An event that every participant understands.
    pub fn new(origin: ParticipantId, event: CoreEvent) -> (result: Self)
        ensures
            result@ == core_event::<P>(origin@, event@),
    {
        Event { origin, payload: Payload::Core(event) }
    }

    /// An event with a foreign payload.
    pub fn from_payload(origin: ParticipantId, payload: P) -> (result: Self)
        ensures
            result@ == custom_event(origin@, payload),
    {
        Event { origin, payload: Payload::Custom(payload) }
    }
}

/// The models of a list of events.
pub open spec fn event_views<P>(events: Seq<Event<P>>) -> Seq<EventView<P>> {
    events.map_values(|event: Event<P>| event@)
}

} // verus!
