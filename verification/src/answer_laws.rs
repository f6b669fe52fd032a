//! What a participant makes of each thing that it hears, and of each thing that its agent tells.

use vstd::prelude::*;
use crate::agent::AgentEventView;
use crate::event::{CompleteMessageView, CoreEventView, EventView, MessageHeaderView, PayloadView};
use crate::ids::Timestamp;
use crate::participant::{self, AgentStateView, AnswerInputView, ResponseView};
use crate::text;

verus! {

/// Whether an event is a part of a message, with this sender's origin, header and content.
pub open spec fn is_chunk<P>(
    event: EventView<P>,
    origin: Seq<char>,
    header: MessageHeaderView,
    content: Seq<char>,
) -> bool {
    &&& event.origin == origin
    &&& event.payload is Core
    &&& event.payload->Core_0 is MessageStreamChunk
    &&& event.payload->Core_0->MessageStreamChunk_message_header == header
    &&& event.payload->Core_0->content == content
}

/// Whether an event says that a message is complete.
pub open spec fn is_completion<P>(
    event: EventView<P>,
    origin: Seq<char>,
    header: MessageHeaderView,
) -> bool {
    &&& event.origin == origin
    &&& event.payload is Core
    &&& event.payload->Core_0 is MessageStreamCompleted
    &&& event.payload->Core_0->MessageStreamCompleted_message_header == header
}

/// Whether an event says that a message will not be completed.
pub open spec fn is_failure<P>(
    event: EventView<P>,
    origin: Seq<char>,
    header: MessageHeaderView,
) -> bool {
    &&& event.origin == origin
    &&& event.payload is Core
    &&& event.payload->Core_0 is MessageDeliveryFailed
    &&& event.payload->Core_0->MessageDeliveryFailed_message_header == header
}

/// Whether an agent's event is a step with tools.
pub open spec fn is_tool_step<P>(event: AgentEventView<P>) -> bool {
    event is ToolCallStarted || event is ToolCallReady || event is ToolCallFinished
        || event is ToolCallFailed
}

/// A text that the agent tells is sent as it is, as one part of the answer.
pub proof fn law_told_text_is_sent<P>(response: ResponseView, content: Seq<char>, now: Timestamp)
    ensures
        ({
            let input = AnswerInputView::<P>::Told(AgentEventView::TextDelta(content));
            let events = participant::sent_events(response, input, now);
            &&& events.len() == 1
            &&& is_chunk(events[0], response.participant_id, response.header, content)
            &&& participant::after_input(response, input) == response
        }),
{
}

/// A foreign payload that the agent tells is sent as it is, in the participant's name.
pub proof fn law_told_payload_is_sent<P>(response: ResponseView, payload: P, now: Timestamp)
    ensures
        ({
            let input = AnswerInputView::Told(AgentEventView::Custom(payload));
            let events = participant::sent_events(response, input, now);
            &&& events.len() == 1
            &&& events[0].origin == response.participant_id
            &&& events[0].payload is Custom
            &&& events[0].payload->Custom_0 == payload
            &&& participant::after_input(response, input) == response
        }),
{
}

/// An answer that the agent finished is completed, one that broke off fails, and nothing is
/// expected after either.
pub proof fn law_end_is_sent<P>(response: ResponseView, now: Timestamp)
    ensures
        ({
            let events = participant::sent_events(response, AnswerInputView::<P>::Ended, now);
            &&& events.len() == 1
            &&& is_completion(events[0], response.participant_id, response.header)
        }),
        ({
            let events = participant::sent_events(response, AnswerInputView::<P>::Failed, now);
            &&& events.len() == 1
            &&& is_failure(events[0], response.participant_id, response.header)
        }),
        ({
            let ended = participant::after_input(response, AnswerInputView::<P>::Ended);
            let failed = participant::after_input(response, AnswerInputView::<P>::Failed);
            &&& ended == failed
            &&& ended.finished
            &&& ended.participant_id == response.participant_id
            &&& ended.header == response.header
            &&& ended.tool_counter == response.tool_counter
            &&& forall|input: AnswerInputView<P>| !participant::accepts(ended, input)
        }),
{
}

/// An answer takes everything that comes until it is over, but for more steps with tools than
/// it can count.
pub proof fn law_answer_takes_what_comes<P>(response: ResponseView, input: AnswerInputView<P>)
    ensures
        participant::accepts(response, input) <==> (!response.finished && (match input {
            AnswerInputView::Told(event) => !is_tool_step(event) || response.tool_counter
                < u64::MAX,
            _ => true,
        })),
{
}

/// A step with tools is told in a message of its own, which is complete at once. The message
/// goes where the answer goes, under the answer's sender, at the time of the step, and its name
/// is the answer's with the number of the step behind it. Its words tell the tool, and what the
/// step brings, in full.
pub proof fn law_tool_step_is_sent<P>(
    response: ResponseView,
    event: AgentEventView<P>,
    now: Timestamp,
)
    requires
        is_tool_step(event),
    ensures
        ({
            let input = AnswerInputView::Told(event);
            let events = participant::sent_events(response, input, now);
            let origin = response.participant_id;
            let header = events[1].payload->Core_0->MessageStreamCompleted_message_header;
            let content = events[0].payload->Core_0->content;
            let after = participant::after_input(response, input);
            &&& events.len() == 2
            &&& is_chunk(events[0], origin, header, content)
            &&& is_completion(events[1], origin, header)
            &&& header.channel_uri == response.header.channel_uri
            &&& header.sender_uri == response.header.sender_uri
            &&& header.date_time == now
            &&& header.message_uri == response.header.message_uri + ":tool:"@ + text::decimal(
                response.tool_counter + 1,
            )
            &&& after.tool_counter == response.tool_counter + 1
            &&& after.participant_id == response.participant_id
            &&& after.header == response.header
            &&& after.finished == response.finished
            &&& tells_step(content, event)
        }),
{
    lemma_words(event);
}

/// Whether `words` begins with `head`, and `tail` is all that follows.
pub open spec fn reads(words: Seq<char>, head: Seq<char>, tail: Seq<char>) -> bool {
    &&& words.len() == head.len() + tail.len()
    &&& words.take(head.len() as int) == head
    &&& words.skip(head.len() as int) == tail
}

/// Whether words tell of a step with tools: which tool, and all that the step brings.
pub open spec fn tells_step<P>(words: Seq<char>, event: AgentEventView<P>) -> bool {
    match event {
        AgentEventView::ToolCallStarted { name, .. } => reads(words, "[tool] "@, name),
        AgentEventView::ToolCallReady { name, arguments, .. } => reads(
            words,
            "[tool] running "@ + name + " with "@,
            arguments,
        ),
        AgentEventView::ToolCallFinished { name, summary, .. } => reads(
            words,
            "[tool] "@ + name + " returned "@,
            summary,
        ),
        AgentEventView::ToolCallFailed { name, error, .. } => reads(
            words,
            "[tool] "@ + name + " failed: "@,
            error,
        ),
        _ => false,
    }
}

proof fn lemma_reads(head: Seq<char>, tail: Seq<char>)
    ensures
        reads(head + tail, head, tail),
{
    assert((head + tail).take(head.len() as int) =~= head);
    assert((head + tail).skip(head.len() as int) =~= tail);
}

proof fn lemma_words<P>(event: AgentEventView<P>)
    requires
        is_tool_step(event),
    ensures
        participant::tool_event_text(event) is Some,
        tells_step(participant::tool_event_text(event)->Some_0, event),
{
    match event {
        AgentEventView::ToolCallStarted { name, .. } => {
            lemma_reads("[tool] "@, name);
        },
        AgentEventView::ToolCallReady { name, arguments, .. } => {
            lemma_reads("[tool] running "@ + name + " with "@, arguments);
        },
        AgentEventView::ToolCallFinished { name, summary, .. } => {
            lemma_reads("[tool] "@ + name + " returned "@, summary);
        },
        AgentEventView::ToolCallFailed { name, error, .. } => {
            lemma_reads("[tool] "@ + name + " failed: "@, error);
        },
        _ => {},
    }
}

/// There are words for an event exactly if it is a step with tools, and they tell the tool and
/// all that the step brings.
pub proof fn law_words_tell_the_step<P>(event: AgentEventView<P>)
    ensures
        participant::tool_event_text(event) is Some <==> is_tool_step(event),
        is_tool_step(event) ==> tells_step(participant::tool_event_text(event)->Some_0, event),
{
    if is_tool_step(event) {
        lemma_words(event);
    }
}

/// The words for two calls of one tool differ where the calls' arguments do; so do those for
/// two results, and for two errors.
pub proof fn law_words_tell_steps_apart<P>(
    name: Seq<char>,
    id: Seq<char>,
    other_id: Seq<char>,
    a: Seq<char>,
    b: Seq<char>,
)
    requires
        a != b,
    ensures
        participant::tool_event_text(
            AgentEventView::<P>::ToolCallReady { id, name, arguments: a },
        ) != participant::tool_event_text(
            AgentEventView::<P>::ToolCallReady { id: other_id, name, arguments: b },
        ),
        participant::tool_event_text(AgentEventView::<P>::ToolCallFinished { id, name, summary: a })
            != participant::tool_event_text(
            AgentEventView::<P>::ToolCallFinished { id: other_id, name, summary: b },
        ),
        participant::tool_event_text(AgentEventView::<P>::ToolCallFailed { id, name, error: a })
            != participant::tool_event_text(
            AgentEventView::<P>::ToolCallFailed { id: other_id, name, error: b },
        ),
        participant::tool_event_text(AgentEventView::<P>::ToolCallStarted { id, name: a })
            != participant::tool_event_text(
            AgentEventView::<P>::ToolCallStarted { id: other_id, name: b },
        ),
{
    lemma_words(AgentEventView::<P>::ToolCallReady { id, name, arguments: a });
    lemma_words(AgentEventView::<P>::ToolCallReady { id: other_id, name, arguments: b });
    lemma_words(AgentEventView::<P>::ToolCallFinished { id, name, summary: a });
    lemma_words(AgentEventView::<P>::ToolCallFinished { id: other_id, name, summary: b });
    lemma_words(AgentEventView::<P>::ToolCallFailed { id, name, error: a });
    lemma_words(AgentEventView::<P>::ToolCallFailed { id: other_id, name, error: b });
    lemma_words(AgentEventView::<P>::ToolCallStarted { id, name: a });
    lemma_words(AgentEventView::<P>::ToolCallStarted { id: other_id, name: b });
}

/// An answer is begun in the channel of the message, under the participant's own id as its
/// sender, at the time at which it is begun. Its name is the participant's id, a colon and the
/// name of the message. Nothing was told of it, and it is not over.
pub proof fn law_answer_is_begun_for_its_message(
    participant_id: Seq<char>,
    message: MessageHeaderView,
    now: Timestamp,
)
    ensures
        ({
            let response = participant::begun_response(participant_id, message, now);
            let uri = response.header.message_uri;
            &&& response.participant_id == participant_id
            &&& response.header.channel_uri == message.channel_uri
            &&& response.header.sender_uri == participant_id
            &&& response.header.date_time == now
            &&& reads(uri, participant_id + ":"@, message.message_uri)
            &&& response.tool_counter == 0
            &&& !response.finished
        }),
{
    lemma_reads(participant_id + ":"@, message.message_uri);
}

/// The agent is asked what the message says, at the message's own time, with the channel and
/// the sender of the message; and it is told the name under which the answer is begun.
pub proof fn law_agent_is_asked_the_message(
    state: AgentStateView,
    message: CompleteMessageView,
    now: Timestamp,
)
    ensures
        ({
            let request = participant::request_of(state, message);
            let header = message.message_header;
            &&& request.input == message.content
            &&& request.timestamp == header.date_time
            &&& request.channel.uri == header.channel_uri
            &&& request.channel.name == known_as(state.channels, header.channel_uri)
            &&& request.sender.uri == header.sender_uri
            &&& request.sender.name == known_as(state.senders, header.sender_uri)
            &&& request.response_uri == participant::begun_response(
                state.participant_id,
                header,
                now,
            ).header.message_uri
        }),
{
}

/// The name in a table for an address, or the address where the table has none.
pub open spec fn known_as(names: Map<Seq<char>, Seq<char>>, uri: Seq<char>) -> Seq<char> {
    if names.dom().contains(uri) {
        names[uri]
    } else {
        uri
    }
}

/// A channel or a sender is shown at its own address, under the name in the table for it.
pub proof fn law_names_come_from_the_tables(state: AgentStateView, uri: Seq<char>)
    ensures
        state.channel(uri).uri == uri,
        state.channel(uri).name == known_as(state.channels, uri),
        state.sender(uri).uri == uri,
        state.sender(uri).name == known_as(state.senders, uri),
{
}

/// What an event completes is answered exactly if another participant sent the event, and it
/// is answered as it was completed.
pub proof fn law_messages_of_others_are_answered<P>(
    participant_id: Seq<char>,
    event: EventView<P>,
    applied: Option<CompleteMessageView>,
)
    ensures
        ({
            let answered = participant::to_answer(participant_id, event, applied);
            let completes = event.payload is Core
                && event.payload->Core_0 is MessageStreamCompleted;
            &&& completes && event.origin != participant_id ==> answered == applied
            &&& !completes || event.origin == participant_id ==> answered is None
        }),
{
}

/// An event completes a message exactly if it says so, and then the one that came of applying
/// it, unchanged.
pub proof fn law_last_part_completes_the_message(
    event: CoreEventView,
    applied: Option<CompleteMessageView>,
)
    ensures
        event is MessageStreamCompleted ==> participant::assembled(event, applied) == applied,
        !(event is MessageStreamCompleted) ==> participant::assembled(event, applied) is None,
        participant::message_part(event) <==> event is MessageStreamChunk
            || event is MessageStreamCompleted,
{
}

/// Whenever an agent is told of a past message, it is told what the message says and when it
/// was sent, and the addresses of its channel and its sender, under the names known for them,
/// whoever sent it; and that it is its own exactly if the event came from its participant. It
/// is told of every message that an event completes.
pub proof fn law_past_message_is_told_as_it_was<P>(
    state: AgentStateView,
    event: EventView<P>,
    applied: Option<CompleteMessageView>,
)
    ensures
        participant::replayed(state, event, applied) is Some <==> event.payload is Core
            && event.payload->Core_0 is MessageStreamCompleted && applied is Some,
        participant::replayed(state, event, applied) is Some ==> {
            let told = participant::replayed(state, event, applied)->Some_0;
            let message = applied->Some_0;
            let header = message.message_header;
            &&& told.content == message.content
            &&& told.timestamp == header.date_time
            &&& told.channel.uri == header.channel_uri
            &&& told.channel.name == known_as(state.channels, header.channel_uri)
            &&& told.sender.uri == header.sender_uri
            &&& told.sender.name == known_as(state.senders, header.sender_uri)
            &&& told.is_self <==> event.origin == state.participant_id
        },
{
}

/// An event teaches the name that it discovers, and nothing else: all other names stay, and so
/// does who the participant is.
pub proof fn law_only_discoveries_teach<P>(
    state: AgentStateView,
    event: EventView<P>,
    uri: Seq<char>,
)
    ensures
        ({
            let after = participant::learned_from(state, event);
            &&& after.participant_id == state.participant_id
            &&& match event.payload {
                PayloadView::Core(
                    CoreEventView::ChannelDiscovered { channel_uri, display_name },
                ) => {
                    &&& after.senders == state.senders
                    &&& known_as(after.channels, channel_uri) == display_name
                    &&& uri != channel_uri ==> known_as(after.channels, uri) == known_as(
                        state.channels,
                        uri,
                    )
                },
                PayloadView::Core(
                    CoreEventView::SenderDiscovered { sender_uri, display_name },
                ) => {
                    &&& after.channels == state.channels
                    &&& known_as(after.senders, sender_uri) == display_name
                    &&& uri != sender_uri ==> known_as(after.senders, uri) == known_as(
                        state.senders,
                        uri,
                    )
                },
                _ => after == state,
            }
        }),
{
}

/// What an emitter makes carries the participant's id, and the header and the content that it was
/// given; and what it makes of a step with tools is the whole message and its completion.
pub proof fn law_emitted_events_carry_what_they_are_given<P>(
    origin: Seq<char>,
    header: MessageHeaderView,
    content: Seq<char>,
)
    ensures
        is_chunk(participant::chunk_event::<P>(origin, header, content), origin, header, content),
        is_completion(participant::completed_event::<P>(origin, header), origin, header),
        is_failure(participant::failed_event::<P>(origin, header), origin, header),
        ({
            let events = participant::tool_chunk_events::<P>(origin, header, content);
            &&& events.len() == 2
            &&& is_chunk(events[0], origin, header, content)
            &&& is_completion(events[1], origin, header)
        }),
{
}

/// The message for a step with tools goes where the answer goes, under the answer's sender, at
/// the time of the step, and its name is the answer's with the number of the step behind it.
pub proof fn law_tool_message_belongs_to_its_answer(
    answer: MessageHeaderView,
    counter: nat,
    now: Timestamp,
)
    ensures
        ({
            let header = participant::tool_message_header(answer, counter, now);
            &&& header.channel_uri == answer.channel_uri
            &&& header.sender_uri == answer.sender_uri
            &&& header.date_time == now
            &&& reads(header.message_uri, answer.message_uri + ":tool:"@, text::decimal(counter))
        }),
{
    lemma_reads(answer.message_uri + ":tool:"@, text::decimal(counter));
}

} // verus!
