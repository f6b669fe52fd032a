//! An agent as a participant of a chat: what it learns from the events that it hears, which
//! messages it answers, and the events that its answers become.

use vstd::hash_map::StringHashMap;
use vstd::prelude::*;
use crate::agent::{AgentEvent, AgentEventView, Channel, ChannelView, Sender, SenderView};
use crate::event::{
    self, CompleteMessage, CompleteMessageView, CoreEvent, CoreEventView, Event, EventView,
    MessageHeader, MessageHeaderView, Payload, PayloadView,
};
use crate::ids::{ChannelUri, MessageUri, ParticipantId, SenderUri, Timestamp};
use crate::text;

verus! {

/// What an agent's participant knows: who it is, and the names it has learned.
pub struct AgentState<A> {
    participant_id: ParticipantId,
    agent: A,
    senders: StringHashMap<String>,
    channels: StringHashMap<String>,
}

/// The model of an [`AgentState`]: the names that it has learned, by the address they belong to.
#[verifier::ext_equal]
pub struct AgentStateView {
    pub participant_id: Seq<char>,
    pub senders: Map<Seq<char>, Seq<char>>,
    pub channels: Map<Seq<char>, Seq<char>>,
}

/// The model of a table of names.
pub open spec fn names_view(names: Map<Seq<char>, String>) -> Map<Seq<char>, Seq<char>> {
    names.map_values(|name: String| name@)
}

impl<A> View for AgentState<A> {
    type V = AgentStateView;

    closed spec fn view(&self) -> AgentStateView {
        AgentStateView {
            participant_id: self.participant_id@,
            senders: names_view(self.senders@),
            channels: names_view(self.channels@),
        }
    }
}

/// The name learned for an address, or the address itself where none was.
pub open spec fn name_of(names: Map<Seq<char>, Seq<char>>, uri: Seq<char>) -> Seq<char> {
    if names.contains_key(uri) {
        names[uri]
    } else {
        uri
    }
}

fn known_name(names: &StringHashMap<String>, uri: &str) -> (name: String)
    ensures
        name@ == name_of(names_view(names@), uri@),
{
    match names.get(uri) {
        Some(name) => name.clone(),
        None => uri.to_owned(),
    }
}

/// What is known after an event: a discovered name takes the place of what was known before.
pub open spec fn learned(state: AgentStateView, event: CoreEventView) -> AgentStateView {
    match event {
        CoreEventView::SenderDiscovered { sender_uri, display_name } => AgentStateView {
            senders: state.senders.insert(sender_uri, display_name),
            ..state
        },
        CoreEventView::ChannelDiscovered { channel_uri, display_name } => AgentStateView {
            channels: state.channels.insert(channel_uri, display_name),
            ..state
        },
        _ => state,
    }
}

/// What is known after an event of any kind: a foreign one teaches nothing.
pub open spec fn learned_from<P>(state: AgentStateView, event: EventView<P>) -> AgentStateView {
    match event.payload {
        PayloadView::Core(told) => learned(state, told),
        PayloadView::Custom(_) => state,
    }
}

/// Whether an event is part of a message, so that it has to be applied to the messages of which
/// parts came before.
pub open spec fn message_part(event: CoreEventView) -> bool {
    event is MessageStreamChunk || event is MessageStreamCompleted
}

/// Tells whether an event is part of a message.
pub fn is_message_part(event: &CoreEvent) -> (answer: bool)
    ensures
        answer == message_part(event@),
{
    match event {
        CoreEvent::MessageStreamChunk { .. } => true,
        CoreEvent::MessageStreamCompleted { .. } => true,
        _ => false,
    }
}

/// The message that an event completes, given what came of applying it to the messages: only
/// the last part of a message completes one.
pub open spec fn assembled(
    event: CoreEventView,
    applied: Option<CompleteMessageView>,
) -> Option<CompleteMessageView> {
    if event is MessageStreamCompleted {
        applied
    } else {
        None
    }
}

/// The message that a participant has to answer after an event: one that the event completes
/// and that did not come from the participant itself.
pub open spec fn to_answer<P>(
    participant_id: Seq<char>,
    event: EventView<P>,
    applied: Option<CompleteMessageView>,
) -> Option<CompleteMessageView> {
    match event.payload {
        PayloadView::Core(told) => if event.origin == participant_id {
            None
        } else {
            assembled(told, applied)
        },
        PayloadView::Custom(_) => None,
    }
}

/// A message out of the past, as an agent is told of it.
#[derive(Debug, PartialEq, Eq)]
pub struct ReplayedMessage {
    pub channel: Channel,
    pub sender: Sender,
    pub is_self: bool,
    pub timestamp: Timestamp,
    pub content: String,
}

/// The model of a [`ReplayedMessage`].
pub struct ReplayedMessageView {
    pub channel: ChannelView,
    pub sender: SenderView,
    pub is_self: bool,
    pub timestamp: Timestamp,
    pub content: Seq<char>,
}

impl View for ReplayedMessage {
    type V = ReplayedMessageView;

    open spec fn view(&self) -> ReplayedMessageView {
        ReplayedMessageView {
            channel: self.channel@,
            sender: self.sender@,
            is_self: self.is_self,
            timestamp: self.timestamp,
            content: self.content@,
        }
    }
}

/// The model of a replayed message that may be missing.
pub open spec fn opt_replayed(message: Option<ReplayedMessage>) -> Option<ReplayedMessageView> {
    match message {
        Some(message) => Some(message@),
        None => None,
    }
}

/// What an agent is told of a past message that came from `origin`.
pub open spec fn replayed_message(
    state: AgentStateView,
    origin: Seq<char>,
    message: CompleteMessageView,
) -> ReplayedMessageView {
    ReplayedMessageView {
        channel: state.channel(message.message_header.channel_uri),
        sender: state.sender(message.message_header.sender_uri),
        is_self: origin == state.participant_id,
        timestamp: message.message_header.date_time,
        content: message.content,
    }
}

/// What an agent is told of a past event: the message that it completes, if it does.
pub open spec fn replayed<P>(
    state: AgentStateView,
    event: EventView<P>,
    applied: Option<CompleteMessageView>,
) -> Option<ReplayedMessageView> {
    match event.payload {
        PayloadView::Core(told) => match assembled(told, applied) {
            Some(message) => Some(replayed_message(learned(state, told), event.origin, message)),
            None => None,
        },
        PayloadView::Custom(_) => None,
    }
}

/// What an agent is asked to answer.
#[derive(Debug, PartialEq, Eq)]
pub struct AgentRequest {
    pub channel: Channel,
    pub sender: Sender,
    pub timestamp: Timestamp,
    pub input: String,
    pub response_uri: MessageUri,
}

/// The model of an [`AgentRequest`].
pub struct AgentRequestView {
    pub channel: ChannelView,
    pub sender: SenderView,
    pub timestamp: Timestamp,
    pub input: Seq<char>,
    pub response_uri: Seq<char>,
}

impl View for AgentRequest {
    type V = AgentRequestView;

    open spec fn view(&self) -> AgentRequestView {
        AgentRequestView {
            channel: self.channel@,
            sender: self.sender@,
            timestamp: self.timestamp,
            input: self.input@,
            response_uri: self.response_uri@,
        }
    }
}

/// The name of the message with which a participant answers another.
pub open spec fn response_uri(participant_id: Seq<char>, message_uri: Seq<char>) -> Seq<char> {
    participant_id + ":"@ + message_uri
}

/// The header of the message with which a participant answers another.
pub open spec fn response_header(
    participant_id: Seq<char>,
    message: MessageHeaderView,
    now: Timestamp,
) -> MessageHeaderView {
    MessageHeaderView {
        channel_uri: message.channel_uri,
        sender_uri: participant_id,
        date_time: now,
        message_uri: response_uri(participant_id, message.message_uri),
    }
}

/// What an agent is asked when a message has to be answered.
pub open spec fn request_of(state: AgentStateView, message: CompleteMessageView) -> AgentRequestView {
    AgentRequestView {
        channel: state.channel(message.message_header.channel_uri),
        sender: state.sender(message.message_header.sender_uri),
        timestamp: message.message_header.date_time,
        input: message.content,
        response_uri: response_uri(state.participant_id, message.message_header.message_uri),
    }
}

impl AgentStateView {
    /// A channel under the name that is known for it.
    pub open spec fn channel(self, uri: Seq<char>) -> ChannelView {
        ChannelView { uri, name: name_of(self.channels, uri) }
    }

    /// A sender under the name that is known for it.
    pub open spec fn sender(self, uri: Seq<char>) -> SenderView {
        SenderView { uri, name: name_of(self.senders, uri) }
    }
}

impl<A> AgentState<A> {
    /// The agent that answers for the participant.
    pub closed spec fn its_agent(self) -> A {
        self.agent
    }

    /// A participant that has heard nothing yet.
    pub fn new(participant_id: ParticipantId, agent: A) -> (state: Self)
        ensures
            state@ == (AgentStateView {
                participant_id: participant_id@,
                senders: Map::empty(),
                channels: Map::empty(),
            }),
            state.its_agent() == agent,
    {
        let state = AgentState {
            participant_id,
            agent,
            senders: StringHashMap::new(),
            channels: StringHashMap::new(),
        };
        assert(state@.senders =~= Map::empty());
        assert(state@.channels =~= Map::empty());
        state
    }

    /// The agent that answers for the participant.
    pub fn agent(&self) -> (agent: &A)
        ensures
            *agent == self.its_agent(),
    {
        &self.agent
    }

    /// The channel at an address, under the name that is known for it.
    pub fn channel_for(&self, channel_uri: &ChannelUri) -> (channel: Channel)
        ensures
            channel@ == self@.channel(channel_uri@),
    {
        Channel {
            uri: channel_uri.clone(),
            name: known_name(&self.channels, channel_uri.as_str()),
        }
    }

    /// The sender at an address, under the name that is known for it.
    pub fn sender_for(&self, sender_uri: &SenderUri) -> (sender: Sender)
        ensures
            sender@ == self@.sender(sender_uri@),
    {
        Sender { uri: sender_uri.clone(), name: known_name(&self.senders, sender_uri.as_str()) }
    }

    /// Learns from an event and hands on the message that it completes. `applied` is what came
    /// of applying the event to the messages, where it is part of one.
    pub fn project(&mut self, event: &CoreEvent, applied: Option<CompleteMessage>) -> (completed:
        Option<CompleteMessage>)
        ensures
            final(self)@ == learned(old(self)@, event@),
            final(self).its_agent() == old(self).its_agent(),
            event::opt_message(completed) == assembled(event@, event::opt_message(applied)),
    {
        match event {
            CoreEvent::MessageStreamCompleted { .. } => applied,
            CoreEvent::SenderDiscovered { sender_uri, display_name } => {
                self.senders.insert(sender_uri.as_str().to_owned(), display_name.clone());
                assert(self@.senders =~= old(self)@.senders.insert(sender_uri@, display_name@));
                None
            },
            CoreEvent::ChannelDiscovered { channel_uri, display_name } => {
                self.channels.insert(channel_uri.as_str().to_owned(), display_name.clone());
                assert(self@.channels =~= old(self)@.channels.insert(channel_uri@, display_name@));
                None
            },
            _ => None,
        }
    }

    /// Takes in an event and hands on the message that has to be answered, if there is one.
    /// `applied` is what came of applying the event to the messages, where it is part of one.
    pub fn receive<P>(&mut self, event: &Event<P>, applied: Option<CompleteMessage>) -> (message:
        Option<CompleteMessage>)
        ensures
            final(self)@ == learned_from(old(self)@, event@),
            final(self).its_agent() == old(self).its_agent(),
            event::opt_message(message) == to_answer(
                old(self)@.participant_id,
                event@,
                event::opt_message(applied),
            ),
    {
        match &event.payload {
            Payload::Core(told) => {
                let completed = self.project(told, applied);
                if event.origin.same(&self.participant_id) {
                    None
                } else {
                    completed
                }
            },
            Payload::Custom(_) => None,
        }
    }

    /// Takes in an event of the past and hands on what the agent is told of it, if it is told
    /// anything. `applied` is what came of applying the event to the messages, where it is part
    /// of one.
    pub fn replay<P>(&mut self, event: &Event<P>, applied: Option<CompleteMessage>) -> (message:
        Option<ReplayedMessage>)
        ensures
            final(self)@ == learned_from(old(self)@, event@),
            final(self).its_agent() == old(self).its_agent(),
            opt_replayed(message) == replayed(old(self)@, event@, event::opt_message(applied)),
            message is Some ==> applied is Some && {
                let told = message->Some_0;
                let header = applied->Some_0.message_header;
                &&& told.content@ == applied->Some_0.content@
                &&& told.timestamp == header.date_time
                &&& told.channel.uri@ == header.channel_uri@
                &&& told.sender.uri@ == header.sender_uri@
                &&& told.is_self <==> event.origin@ == old(self)@.participant_id
            },
    {
        match &event.payload {
            Payload::Core(told) => {
                let message = match self.project(told, applied) {
                    Some(message) => message,
                    None => {
                        return None;
                    },
                };
                let sender = self.sender_for(&message.message_header.sender_uri);
                let channel = self.channel_for(&message.message_header.channel_uri);
                Some(
                    ReplayedMessage {
                        channel,
                        sender,
                        is_self: event.origin.same(&self.participant_id),
                        timestamp: message.message_header.date_time,
                        content: message.content,
                    },
                )
            },
            Payload::Custom(_) => None,
        }
    }

    /// Begins the answer to a message: what the agent is asked, and what becomes of its answer.
    pub fn begin_response(&self, message: CompleteMessage, now: Timestamp) -> (begun: (
        Response,
        AgentRequest,
    ))
        ensures
            begun.0@ == begun_response(self@.participant_id, message@.message_header, now),
            begun.1@ == request_of(self@, message@),
    {
        let header = message.message_header;
        let sender = self.sender_for(&header.sender_uri);
        let channel = self.channel_for(&header.channel_uri);
        let mut uri = self.participant_id.as_str().to_owned();
        uri.append(":");
        uri.append(header.message_uri.as_str());
        let uri = MessageUri::new(uri.as_str());
        let response_header = MessageHeader {
            channel_uri: header.channel_uri,
            sender_uri: SenderUri::new(self.participant_id.as_str()),
            date_time: now,
            message_uri: uri.clone(),
        };
        let emitter = EventEmitter { participant_id: self.participant_id.clone() };
        let request = AgentRequest {
            channel,
            sender,
            timestamp: header.date_time,
            input: message.content,
            response_uri: uri,
        };
        (Response { emitter, header: response_header, tool_counter: 0, finished: false }, request)
    }
}

/// The event that carries a part of a message.
pub open spec fn chunk_event<P>(
    origin: Seq<char>,
    message_header: MessageHeaderView,
    content: Seq<char>,
) -> EventView<P> {
    event::core_event(origin, CoreEventView::MessageStreamChunk { message_header, content })
}

/// The event that says that a message is complete.
pub open spec fn completed_event<P>(
    origin: Seq<char>,
    message_header: MessageHeaderView,
) -> EventView<P> {
    event::core_event(origin, CoreEventView::MessageStreamCompleted { message_header })
}

/// The event that says that a message will not be completed.
pub open spec fn failed_event<P>(
    origin: Seq<char>,
    message_header: MessageHeaderView,
) -> EventView<P> {
    event::core_event(origin, CoreEventView::MessageDeliveryFailed { message_header })
}

/// The name of the message that tells of a response's `counter`-th step with tools.
pub open spec fn tool_uri(response_uri: Seq<char>, counter: nat) -> Seq<char> {
    response_uri + ":tool:"@ + text::decimal(counter)
}

/// The header of the message that tells of a response's `counter`-th step with tools.
pub open spec fn tool_message_header(
    response: MessageHeaderView,
    counter: nat,
    now: Timestamp,
) -> MessageHeaderView {
    MessageHeaderView {
        date_time: now,
        message_uri: tool_uri(response.message_uri, counter),
        ..response
    }
}

/// Makes the header of the message that tells of a response's `counter`-th step with tools.
pub fn tool_header(response_header: &MessageHeader, counter: u64, now: Timestamp) -> (header:
    MessageHeader)
    ensures
        header@ == tool_message_header(response_header@, counter as nat, now),
{
    let mut uri = response_header.message_uri.as_str().to_owned();
    uri.append(":tool:");
    uri.append(text::decimal_text(counter).as_str());
    MessageHeader {
        channel_uri: response_header.channel_uri.clone(),
        sender_uri: response_header.sender_uri.clone(),
        date_time: now,
        message_uri: MessageUri::new(uri.as_str()),
    }
}

/// The events with which a message that tells of a step with tools is sent: all of it, and that
/// it is complete.
pub open spec fn tool_chunk_events<P>(
    origin: Seq<char>,
    message_header: MessageHeaderView,
    content: Seq<char>,
) -> Seq<EventView<P>> {
    seq![
        chunk_event(origin, message_header, content),
        completed_event(origin, message_header),
    ]
}

/// Makes the events of one participant.
pub struct EventEmitter {
    pub participant_id: ParticipantId,
}

impl EventEmitter {
    /// Makes an event that every participant understands.
    pub fn shared<P>(&self, event: CoreEvent) -> (result: Event<P>)
        ensures
            result@ == event::core_event::<P>(self.participant_id@, event@),
    {
        Event::new(self.participant_id.clone(), event)
    }

    /// Makes an event with a foreign payload.
    pub fn custom<P>(&self, payload: P) -> (result: Event<P>)
        ensures
            result@ == event::custom_event(self.participant_id@, payload),
    {
        Event::from_payload(self.participant_id.clone(), payload)
    }

    /// Makes the event that carries a part of a message.
    pub fn chunk<P>(&self, message_header: MessageHeader, content: String) -> (result: Event<P>)
        ensures
            result@ == chunk_event::<P>(self.participant_id@, message_header@, content@),
    {
        self.shared(CoreEvent::MessageStreamChunk { message_header, content })
    }

    /// Makes the event that says that a message is complete.
    pub fn completed<P>(&self, message_header: MessageHeader) -> (result: Event<P>)
        ensures
            result@ == completed_event::<P>(self.participant_id@, message_header@),
    {
        self.shared(CoreEvent::MessageStreamCompleted { message_header })
    }

    /// Makes the event that says that a message will not be completed.
    pub fn failed<P>(&self, message_header: MessageHeader) -> (result: Event<P>)
        ensures
            result@ == failed_event::<P>(self.participant_id@, message_header@),
    {
        self.shared(CoreEvent::MessageDeliveryFailed { message_header })
    }

    /// Makes the events of the message that tells of a response's `counter`-th step with tools.
    pub fn tool_chunk<P>(
        &self,
        response_header: &MessageHeader,
        counter: u64,
        content: String,
        now: Timestamp,
    ) -> (events: Vec<Event<P>>)
        ensures
            event::event_views(events@) == tool_chunk_events::<P>(
                self.participant_id@,
                tool_message_header(response_header@, counter as nat, now),
                content@,
            ),
    {
        let header = tool_header(response_header, counter, now);
        let mut events: Vec<Event<P>> = Vec::new();
        events.push(self.chunk(header.clone(), content));
        events.push(self.completed(header));
        assert(event::event_views(events@) =~= tool_chunk_events::<P>(
            self.participant_id@,
            header@,
            content@,
        ));
        events
    }
}

/// What a chat is told of an agent's step with tools; nothing where an event is no such step.
pub open spec fn tool_event_text<P>(event: AgentEventView<P>) -> Option<Seq<char>> {
    match event {
        AgentEventView::TextDelta(_) => None,
        AgentEventView::Custom(_) => None,
        AgentEventView::ToolCallStarted { name, .. } => Some("[tool] "@ + name),
        AgentEventView::ToolCallReady { name, arguments, .. } => Some(
            "[tool] running "@ + name + " with "@ + arguments,
        ),
        AgentEventView::ToolCallFinished { name, summary, .. } => Some(
            "[tool] "@ + name + " returned "@ + summary,
        ),
        AgentEventView::ToolCallFailed { name, error, .. } => Some(
            "[tool] "@ + name + " failed: "@ + error,
        ),
    }
}

fn joined(head: &str, name: &str, middle: &str, tail: &str) -> (text: String)
    ensures
        text@ == head@ + name@ + middle@ + tail@,
{
    let mut text = head.to_owned();
    text.append(name);
    text.append(middle);
    text.append(tail);
    text
}

/// Says what a chat is told of an agent's step with tools.
pub fn format_tool_event<P>(event: &AgentEvent<P>) -> (content: Option<String>)
    ensures
        text::opt_text(content) == tool_event_text(event@),
        match event {
            AgentEvent::ToolCallStarted { name, .. } => content is Some && content->Some_0@
                == "[tool] "@ + name@,
            AgentEvent::ToolCallReady { name, arguments, .. } => content is Some
                && content->Some_0@ == "[tool] running "@ + name@ + " with "@ + arguments@,
            AgentEvent::ToolCallFinished { name, summary, .. } => content is Some
                && content->Some_0@ == "[tool] "@ + name@ + " returned "@ + summary@,
            AgentEvent::ToolCallFailed { name, error, .. } => content is Some && content->Some_0@
                == "[tool] "@ + name@ + " failed: "@ + error@,
            _ => content is None,
        },
{
    match event {
        AgentEvent::TextDelta(_) => None,
        AgentEvent::Custom(_) => None,
        AgentEvent::ToolCallStarted { name, .. } => {
            let mut text = "[tool] ".to_owned();
            text.append(name.as_str());
            Some(text)
        },
        AgentEvent::ToolCallReady { name, arguments, .. } => Some(
            joined("[tool] running ", name.as_str(), " with ", arguments.as_str()),
        ),
        AgentEvent::ToolCallFinished { name, summary, .. } => Some(
            joined("[tool] ", name.as_str(), " returned ", summary.as_str()),
        ),
        AgentEvent::ToolCallFailed { name, error, .. } => Some(
            joined("[tool] ", name.as_str(), " failed: ", error.as_str()),
        ),
    }
}

/// What comes of asking an agent.
pub enum AnswerInput<P> {
    /// The agent refused, or its answer broke off.
    Failed,
    /// The agent told something.
    Told(AgentEvent<P>),
    /// The agent has told everything.
    Ended,
}

/// The model of an [`AnswerInput`].
pub enum AnswerInputView<P> {
    Failed,
    Told(AgentEventView<P>),
    Ended,
}

impl<P> View for AnswerInput<P> {
    type V = AnswerInputView<P>;

    open spec fn view(&self) -> AnswerInputView<P> {
        match self {
            AnswerInput::Failed => AnswerInputView::Failed,
            AnswerInput::Told(event) => AnswerInputView::Told(event@),
            AnswerInput::Ended => AnswerInputView::Ended,
        }
    }
}

/// A message with which a participant answers another, while it is being made.
pub struct Response {
    emitter: EventEmitter,
    header: MessageHeader,
    tool_counter: u64,
    finished: bool,
}

/// The model of a [`Response`].
pub struct ResponseView {
    /// Who answers.
    pub participant_id: Seq<char>,
    /// The header of the answer.
    pub header: MessageHeaderView,
    /// How many steps with tools were told.
    pub tool_counter: nat,
    /// Whether the answer is over.
    pub finished: bool,
}

impl View for Response {
    type V = ResponseView;

    closed spec fn view(&self) -> ResponseView {
        ResponseView {
            participant_id: self.emitter.participant_id@,
            header: self.header@,
            tool_counter: self.tool_counter as nat,
            finished: self.finished,
        }
    }
}

/// An answer of which nothing was told yet.
pub open spec fn begun_response(
    participant_id: Seq<char>,
    message: MessageHeaderView,
    now: Timestamp,
) -> ResponseView {
    ResponseView {
        participant_id,
        header: response_header(participant_id, message, now),
        tool_counter: 0,
        finished: false,
    }
}

/// Whether an input is a step with tools.
pub open spec fn tells_tool_step<P>(input: AnswerInputView<P>) -> bool {
    match input {
        AnswerInputView::Told(event) => tool_event_text(event) is Some,
        _ => false,
    }
}

/// Whether an answer can take an input: it is not over, and it can still count its steps with
/// tools.
pub open spec fn accepts<P>(response: ResponseView, input: AnswerInputView<P>) -> bool {
    !response.finished && (tells_tool_step(input) ==> response.tool_counter < u64::MAX)
}

/// What becomes of an answer.
pub open spec fn after_input<P>(response: ResponseView, input: AnswerInputView<P>) -> ResponseView {
    match input {
        AnswerInputView::Told(_) => if tells_tool_step(input) {
            ResponseView { tool_counter: response.tool_counter + 1, ..response }
        } else {
            response
        },
        _ => ResponseView { finished: true, ..response },
    }
}

/// The events that an answer sends for what comes of asking the agent.
pub open spec fn sent_events<P>(
    response: ResponseView,
    input: AnswerInputView<P>,
    now: Timestamp,
) -> Seq<EventView<P>> {
    let origin = response.participant_id;
    match input {
        AnswerInputView::Failed => seq![failed_event(origin, response.header)],
        AnswerInputView::Ended => seq![completed_event(origin, response.header)],
        AnswerInputView::Told(event) => match event {
            AgentEventView::TextDelta(content) => seq![
                chunk_event(origin, response.header, content),
            ],
            AgentEventView::Custom(payload) => seq![event::custom_event(origin, payload)],
            _ => tool_chunk_events(
                origin,
                tool_message_header(response.header, response.tool_counter + 1, now),
                tool_event_text(event)->Some_0,
            ),
        },
    }
}

impl Response {
    /// Tells whether the answer can take an input.
    pub fn accepts<P>(&self, input: &AnswerInput<P>) -> (answer: bool)
        ensures
            answer == accepts(self@, input@),
    {
        if self.finished {
            return false;
        }
        match input {
            AnswerInput::Told(event) => match event {
                AgentEvent::TextDelta(_) => true,
                AgentEvent::Custom(_) => true,
                _ => self.tool_counter < u64::MAX,
            },
            _ => true,
        }
    }

    /// Takes what comes of asking the agent, and makes the events that have to be sent for it,
    /// in their order.
    pub fn step<P>(&mut self, input: AnswerInput<P>, now: Timestamp) -> (events: Vec<Event<P>>)
        requires
            accepts(old(self)@, input@),
        ensures
            final(self)@ == after_input(old(self)@, input@),
            event::event_views(events@) == sent_events(old(self)@, input@, now),
    {
        let ghost before = self@;
        let ghost given = input@;
        let mut events: Vec<Event<P>> = Vec::new();
        match input {
            AnswerInput::Failed => {
                self.finished = true;
                events.push(self.emitter.failed(self.header.clone()));
            },
            AnswerInput::Ended => {
                self.finished = true;
                events.push(self.emitter.completed(self.header.clone()));
            },
            AnswerInput::Told(event) => match event {
                AgentEvent::TextDelta(content) => {
                    events.push(self.emitter.chunk(self.header.clone(), content));
                },
                AgentEvent::Custom(payload) => {
                    events.push(self.emitter.custom(payload));
                },
                event => {
                    if let Some(content) = format_tool_event(&event) {
                        self.tool_counter = self.tool_counter + 1;
                        events = self.emitter.tool_chunk(
                            &self.header,
                            self.tool_counter,
                            content,
                            now,
                        );
                    }
                },
            },
        }
        assert(event::event_views(events@) =~= sent_events(before, given, now));
        events
    }
}

/// A participant that is being prepared: it can be told of the past before it joins a chat.
pub struct AgentParticipantBuilder<A> {
    state: AgentState<A>,
}

impl<A> AgentParticipantBuilder<A> {
    /// What the participant knows.
    pub closed spec fn state(self) -> AgentState<A> {
        self.state
    }

    /// A participant that has heard nothing yet.
    pub fn new(participant_id: ParticipantId, agent: A) -> (builder: Self)
        ensures
            builder.state()@ == (AgentStateView {
                participant_id: participant_id@,
                senders: Map::empty(),
                channels: Map::empty(),
            }),
            builder.state().its_agent() == agent,
    {
        AgentParticipantBuilder { state: AgentState::new(participant_id, agent) }
    }

    /// Takes in an event of the past and hands on what the agent is told of it, if it is told
    /// anything. `applied` is what came of applying the event to the messages, where it is part
    /// of one.
    pub fn catch_up<P>(&mut self, event: &Event<P>, applied: Option<CompleteMessage>) -> (message:
        Option<ReplayedMessage>)
        ensures
            final(self).state()@ == learned_from(old(self).state()@, event@),
            final(self).state().its_agent() == old(self).state().its_agent(),
            opt_replayed(message) == replayed(
                old(self).state()@,
                event@,
                event::opt_message(applied),
            ),
    {
        self.state.replay(event, applied)
    }

    /// The agent that answers for the participant.
    pub fn agent(&self) -> (agent: &A)
        ensures
            *agent == self.state().its_agent(),
    {
        self.state.agent()
    }

    /// The participant, ready to join a chat.
    pub fn into_state(self) -> (state: AgentState<A>)
        ensures
            state == self.state(),
    {
        self.state
    }
}

} // verus!
