//! What holds of a participant over any number of events.

use vstd::prelude::*;
use crate::agent::AgentEventView;
use crate::event::{CompleteMessageView, CoreEventView, EventView, MessageHeaderView, PayloadView};
use crate::ids::Timestamp;
use crate::participant::{self, AgentStateView, AnswerInputView, ResponseView};
use crate::text;

verus! {

/// The names of the messages of one answer: no two of its steps with tools are told under the
/// same name.
pub proof fn law_tool_messages_have_names_of_their_own(
    response_uri: Seq<char>,
    m: nat,
    n: nat,
)
    ensures
        participant::tool_uri(response_uri, m) == participant::tool_uri(response_uri, n) ==> m == n,
        participant::tool_uri(response_uri, n) != response_uri,
{
    reveal_strlit(":tool:");
    let a = participant::tool_uri(response_uri, m);
    let b = participant::tool_uri(response_uri, n);
    let head = response_uri + ":tool:"@;
    assert(b.len() == head.len() + text::decimal(n).len());
    if a == b {
        assert(text::decimal(m) =~= a.skip(head.len() as int));
        assert(text::decimal(n) =~= b.skip(head.len() as int));
        text::lemma_decimal_injective(m, n);
    }
}

/// A participant answers different messages under different names.
pub proof fn law_answers_have_names_of_their_own(
    participant_id: Seq<char>,
    a: Seq<char>,
    b: Seq<char>,
)
    ensures
        participant::response_uri(participant_id, a) == participant::response_uri(participant_id, b)
            ==> a == b,
{
    let head = participant_id + ":"@;
    assert(a =~= (head + a).skip(head.len() as int));
    assert(b =~= (head + b).skip(head.len() as int));
}

/// An answer after a number of inputs, each with the time at which it came.
pub open spec fn response_after<P>(
    response: ResponseView,
    inputs: Seq<(AnswerInputView<P>, Timestamp)>,
) -> ResponseView
    decreases inputs.len(),
{
    if inputs.len() == 0 {
        response
    } else {
        participant::after_input(
            response_after(response, inputs.drop_last()),
            inputs.last().0,
        )
    }
}

/// Everything that an answer sends over a number of inputs.
pub open spec fn answer_events<P>(
    response: ResponseView,
    inputs: Seq<(AnswerInputView<P>, Timestamp)>,
) -> Seq<EventView<P>>
    decreases inputs.len(),
{
    if inputs.len() == 0 {
        Seq::empty()
    } else {
        answer_events(response, inputs.drop_last()) + participant::sent_events(
            response_after(response, inputs.drop_last()),
            inputs.last().0,
            inputs.last().1,
        )
    }
}

/// Whether an answer can take all of a number of inputs, one after the other.
pub open spec fn accepts_all<P>(
    response: ResponseView,
    inputs: Seq<(AnswerInputView<P>, Timestamp)>,
) -> bool
    decreases inputs.len(),
{
    inputs.len() > 0 ==> {
        &&& accepts_all(response, inputs.drop_last())
        &&& participant::accepts(
            response_after(response, inputs.drop_last()),
            inputs.last().0,
        )
    }
}

/// The header of the message that an event is about, where it is about one.
pub open spec fn header_of<P>(event: EventView<P>) -> Option<MessageHeaderView> {
    match event.payload {
        PayloadView::Core(CoreEventView::MessageStreamChunk { message_header, .. }) => Some(
            message_header,
        ),
        PayloadView::Core(CoreEventView::MessageStreamCompleted { message_header }) => Some(
            message_header,
        ),
        PayloadView::Core(CoreEventView::MessageDeliveryFailed { message_header }) => Some(
            message_header,
        ),
        _ => None,
    }
}

/// Those of a number of events that are about the message of a given name, in their order.
pub open spec fn events_about<P>(events: Seq<EventView<P>>, uri: Seq<char>) -> Seq<EventView<P>>
    decreases events.len(),
{
    if events.len() == 0 {
        Seq::empty()
    } else {
        let earlier = events_about(events.drop_last(), uri);
        match header_of(events.last()) {
            Some(header) => if header.message_uri == uri {
                earlier.push(events.last())
            } else {
                earlier
            },
            None => earlier,
        }
    }
}

proof fn lemma_events_about_concat<P>(
    a: Seq<EventView<P>>,
    b: Seq<EventView<P>>,
    uri: Seq<char>,
)
    ensures
        events_about(a + b, uri) == events_about(a, uri) + events_about(b, uri),
    decreases b.len(),
{
    if b.len() == 0 {
        assert(a + b =~= a);
        assert(events_about(a, uri) + events_about(b, uri) =~= events_about(a, uri));
    } else {
        assert((a + b).drop_last() =~= a + b.drop_last());
        lemma_events_about_concat(a, b.drop_last(), uri);
        assert(events_about(a + b, uri) =~= events_about(a, uri) + events_about(b, uri));
    }
}

/// The texts of the steps with tools among a number of inputs, each with the time at which it
/// came.
pub open spec fn tool_steps<P>(inputs: Seq<(AnswerInputView<P>, Timestamp)>) -> Seq<
    (Seq<char>, Timestamp),
>
    decreases inputs.len(),
{
    if inputs.len() == 0 {
        Seq::empty()
    } else {
        let earlier = tool_steps(inputs.drop_last());
        match inputs.last().0 {
            AnswerInputView::Told(event) => match participant::tool_event_text(event) {
                Some(content) => earlier.push((content, inputs.last().1)),
                None => earlier,
            },
            _ => earlier,
        }
    }
}

/// What an answer itself consists of: the texts that the agent told, part by part, and whether
/// it was completed or failed.
pub open spec fn spoken<P>(
    response: ResponseView,
    inputs: Seq<(AnswerInputView<P>, Timestamp)>,
) -> Seq<EventView<P>>
    decreases inputs.len(),
{
    if inputs.len() == 0 {
        Seq::empty()
    } else {
        let earlier = spoken(response, inputs.drop_last());
        let origin = response.participant_id;
        match inputs.last().0 {
            AnswerInputView::Told(AgentEventView::TextDelta(content)) => earlier.push(
                participant::chunk_event(origin, response.header, content),
            ),
            AnswerInputView::Told(_) => earlier,
            AnswerInputView::Ended => earlier.push(
                participant::completed_event(origin, response.header),
            ),
            AnswerInputView::Failed => earlier.push(
                participant::failed_event(origin, response.header),
            ),
        }
    }
}

proof fn lemma_response_keeps<P>(
    response: ResponseView,
    inputs: Seq<(AnswerInputView<P>, Timestamp)>,
)
    ensures
        response_after(response, inputs).participant_id == response.participant_id,
        response_after(response, inputs).header == response.header,
        response_after(response, inputs).tool_counter == response.tool_counter + tool_steps(
            inputs,
        ).len(),
    decreases inputs.len(),
{
    if inputs.len() > 0 {
        lemma_response_keeps(response, inputs.drop_last());
    }
}

/// What one input sends about a message of a given name.
proof fn lemma_sent_about<P>(
    response: ResponseView,
    input: AnswerInputView<P>,
    now: Timestamp,
    uri: Seq<char>,
)
    ensures
        events_about(participant::sent_events(response, input, now), uri) == (
        if participant::tells_tool_step(input) {
            if uri == participant::tool_uri(
                response.header.message_uri,
                response.tool_counter + 1,
            ) {
                participant::sent_events(response, input, now)
            } else {
                Seq::empty()
            }
        } else if input is Told && input->Told_0 is Custom {
            Seq::empty()
        } else if uri == response.header.message_uri {
            participant::sent_events(response, input, now)
        } else {
            Seq::empty()
        }),
{
    reveal_with_fuel(events_about, 3);
    let sent = participant::sent_events(response, input, now);
    if participant::tells_tool_step(input) {
        assert(sent.len() == 2);
        assert(sent.drop_last().drop_last() =~= Seq::empty());
        assert(sent =~= Seq::empty().push(sent[0]).push(sent[1]));
    } else {
        assert(sent.len() == 1);
        assert(sent.drop_last() =~= Seq::empty());
        assert(sent =~= Seq::empty().push(sent[0]));
    }
}

/// The message with which a participant answers consists of the texts that the agent told, in
/// their order, and of the way in which the answer came to its end; neither tools nor foreign
/// payloads show in it.
pub proof fn law_answer_is_what_was_told<P>(
    participant_id: Seq<char>,
    message: MessageHeaderView,
    now: Timestamp,
    inputs: Seq<(AnswerInputView<P>, Timestamp)>,
)
    ensures
        ({
            let response = participant::begun_response(participant_id, message, now);
            events_about(answer_events(response, inputs), response.header.message_uri) == spoken(
                response,
                inputs,
            )
        }),
    decreases inputs.len(),
{
    let response = participant::begun_response(participant_id, message, now);
    let uri = response.header.message_uri;
    if inputs.len() > 0 {
        let before = inputs.drop_last();
        let at = response_after(response, before);
        let (input, time) = inputs.last();
        law_answer_is_what_was_told(participant_id, message, now, before);
        lemma_response_keeps(response, before);
        lemma_events_about_concat(
            answer_events(response, before),
            participant::sent_events(at, input, time),
            uri,
        );
        lemma_sent_about(at, input, time, uri);
        law_tool_messages_have_names_of_their_own(uri, 0, at.tool_counter + 1);
        assert(events_about(answer_events(response, inputs), uri) =~= spoken(response, inputs));
    }
}

/// Each step with tools is told in a message of its own, whole and once, in the order of the
/// steps.
pub proof fn law_tool_steps_are_told<P>(
    participant_id: Seq<char>,
    message: MessageHeaderView,
    now: Timestamp,
    inputs: Seq<(AnswerInputView<P>, Timestamp)>,
    n: nat,
)
    ensures
        ({
            let response = participant::begun_response(participant_id, message, now);
            let steps = tool_steps(inputs);
            events_about(
                answer_events(response, inputs),
                participant::tool_uri(response.header.message_uri, n),
            ) == (if 1 <= n <= steps.len() {
                participant::tool_chunk_events::<P>(
                    participant_id,
                    participant::tool_message_header(response.header, n, steps[n - 1].1),
                    steps[n - 1].0,
                )
            } else {
                Seq::empty()
            })
        }),
    decreases inputs.len(),
{
    let response = participant::begun_response(participant_id, message, now);
    let uri = participant::tool_uri(response.header.message_uri, n);
    if inputs.len() > 0 {
        let before = inputs.drop_last();
        let at = response_after(response, before);
        let (input, time) = inputs.last();
        law_tool_steps_are_told(participant_id, message, now, before, n);
        lemma_response_keeps(response, before);
        lemma_events_about_concat(
            answer_events(response, before),
            participant::sent_events(at, input, time),
            uri,
        );
        lemma_sent_about(at, input, time, uri);
        law_tool_messages_have_names_of_their_own(
            response.header.message_uri,
            n,
            at.tool_counter + 1,
        );
        let kept = events_about(answer_events(response, before), uri);
        let sent = participant::sent_events(at, input, time);
        assert(kept + Seq::empty() =~= kept);
        assert(Seq::<EventView<P>>::empty() + sent =~= sent);
        law_tool_messages_have_names_of_their_own(response.header.message_uri, 0, n);
    }
}

/// The foreign payloads among a number of inputs.
pub open spec fn told_payloads<P>(inputs: Seq<(AnswerInputView<P>, Timestamp)>) -> Seq<P>
    decreases inputs.len(),
{
    if inputs.len() == 0 {
        Seq::empty()
    } else {
        let earlier = told_payloads(inputs.drop_last());
        match inputs.last().0 {
            AnswerInputView::Told(AgentEventView::Custom(payload)) => earlier.push(payload),
            _ => earlier,
        }
    }
}

/// The foreign payloads among a number of events.
pub open spec fn sent_payloads<P>(events: Seq<EventView<P>>) -> Seq<P>
    decreases events.len(),
{
    if events.len() == 0 {
        Seq::empty()
    } else {
        let earlier = sent_payloads(events.drop_last());
        match events.last().payload {
            PayloadView::Custom(payload) => earlier.push(payload),
            PayloadView::Core(_) => earlier,
        }
    }
}

proof fn lemma_sent_payloads_concat<P>(a: Seq<EventView<P>>, b: Seq<EventView<P>>)
    ensures
        sent_payloads(a + b) == sent_payloads(a) + sent_payloads(b),
    decreases b.len(),
{
    if b.len() == 0 {
        assert(a + b =~= a);
        assert(sent_payloads(a) + sent_payloads(b) =~= sent_payloads(a));
    } else {
        assert((a + b).drop_last() =~= a + b.drop_last());
        lemma_sent_payloads_concat(a, b.drop_last());
        assert(sent_payloads(a + b) =~= sent_payloads(a) + sent_payloads(b));
    }
}

/// The foreign payloads that an agent tells are sent on as they are, each once, in their order.
pub proof fn law_payloads_are_forwarded<P>(
    response: ResponseView,
    inputs: Seq<(AnswerInputView<P>, Timestamp)>,
)
    ensures
        sent_payloads(answer_events(response, inputs)) == told_payloads(inputs),
    decreases inputs.len(),
{
    if inputs.len() > 0 {
        let before = inputs.drop_last();
        let at = response_after(response, before);
        let (input, time) = inputs.last();
        let sent = participant::sent_events(at, input, time);
        law_payloads_are_forwarded(response, before);
        lemma_sent_payloads_concat(answer_events(response, before), sent);
        reveal_with_fuel(sent_payloads, 3);
        if sent.len() == 2 {
            assert(sent.drop_last().drop_last() =~= Seq::empty());
        } else {
            assert(sent.drop_last() =~= Seq::empty());
        }
        assert(sent_payloads(answer_events(response, inputs)) =~= told_payloads(inputs));
    }
}

/// Whether an event says that the message of a given name came to its end.
pub open spec fn ends<P>(event: EventView<P>, uri: Seq<char>) -> bool {
    match event.payload {
        PayloadView::Core(CoreEventView::MessageStreamCompleted { message_header }) =>
            message_header.message_uri == uri,
        PayloadView::Core(CoreEventView::MessageDeliveryFailed { message_header }) =>
            message_header.message_uri == uri,
        _ => false,
    }
}

/// An answer that the agent finished ends with its completion, one that broke off ends with its
/// failure, and neither says so earlier; an answer that is not over says nothing of an end.
pub proof fn law_answer_ends_once<P>(
    participant_id: Seq<char>,
    message: MessageHeaderView,
    now: Timestamp,
    inputs: Seq<(AnswerInputView<P>, Timestamp)>,
)
    requires
        accepts_all(participant::begun_response(participant_id, message, now), inputs),
    ensures
        ({
            let response = participant::begun_response(participant_id, message, now);
            let header = response.header;
            let events = answer_events(response, inputs);
            let over = response_after(response, inputs).finished;
            &&& forall|i: int|
                0 <= i < events.len() && #[trigger] ends(events[i], header.message_uri) ==> over && i
                    == events.len() - 1
            &&& over ==> events.len() > 0
            &&& over ==> events.last() == (if inputs.last().0 is Ended {
                participant::completed_event::<P>(participant_id, header)
            } else {
                participant::failed_event(participant_id, header)
            })
            &&& over <==> inputs.len() > 0 && !(inputs.last().0 is Told)
        }),
    decreases inputs.len(),
{
    let response = participant::begun_response(participant_id, message, now);
    let uri = response.header.message_uri;
    if inputs.len() > 0 {
        let before = inputs.drop_last();
        let at = response_after(response, before);
        let (input, time) = inputs.last();
        let earlier = answer_events(response, before);
        let sent = participant::sent_events(at, input, time);
        law_answer_ends_once(participant_id, message, now, before);
        lemma_response_keeps(response, before);
        law_tool_messages_have_names_of_their_own(uri, 0, at.tool_counter + 1);
        assert forall|i: int| 0 <= i < (earlier + sent).len() && #[trigger] ends(
            (earlier + sent)[i],
            uri,
        ) implies !(input is Told) && i == (earlier + sent).len() - 1 by {
            if i < earlier.len() {
                assert(ends(earlier[i], uri));
            } else {
                assert((earlier + sent)[i] == sent[i - earlier.len()]);
            }
        }
    }
}

/// Everything that an answer sends comes from the participant, and every message in it is sent
/// in the channel of the message that it answers, with the participant as its sender, under the
/// name of the answer or of one of its steps with tools.
pub proof fn law_answer_is_signed<P>(
    participant_id: Seq<char>,
    message: MessageHeaderView,
    now: Timestamp,
    inputs: Seq<(AnswerInputView<P>, Timestamp)>,
)
    ensures
        ({
            let response = participant::begun_response(participant_id, message, now);
            let events = answer_events(response, inputs);
            forall|i: int|
                #![trigger events[i]]
                0 <= i < events.len() ==> {
                    &&& events[i].origin == participant_id
                    &&& events[i].payload is Core ==> {
                        &&& header_of(events[i]) is Some
                        &&& signed(
                            header_of(events[i])->Some_0,
                            response,
                            tool_steps(inputs).len(),
                        )
                    }
                }
        }),
    decreases inputs.len(),
{
    let response = participant::begun_response(participant_id, message, now);
    if inputs.len() > 0 {
        let before = inputs.drop_last();
        let at = response_after(response, before);
        let (input, time) = inputs.last();
        let earlier = answer_events(response, before);
        let sent = participant::sent_events(at, input, time);
        let events = answer_events(response, inputs);
        law_answer_is_signed(participant_id, message, now, before);
        lemma_response_keeps(response, before);
        assert forall|i: int| #![trigger events[i]] 0 <= i < events.len() implies {
            &&& events[i].origin == participant_id
            &&& events[i].payload is Core ==> {
                &&& header_of(events[i]) is Some
                &&& signed(header_of(events[i])->Some_0, response, tool_steps(inputs).len())
            }
        } by {
            if i < earlier.len() {
                assert(events[i] == earlier[i]);
                if events[i].payload is Core {
                    let header = header_of(events[i])->Some_0;
                    if header.message_uri != response.header.message_uri {
                        let n = choose|n: nat|
                            1 <= n <= tool_steps(before).len() && header.message_uri
                                == #[trigger] participant::tool_uri(
                                response.header.message_uri,
                                n,
                            );
                        assert(header.message_uri == participant::tool_uri(
                            response.header.message_uri,
                            n,
                        ));
                    }
                }
            } else {
                assert(events[i] == sent[i - earlier.len()]);
                if participant::tells_tool_step(input) {
                    assert(tool_steps(inputs).len() == at.tool_counter + 1);
                    assert(header_of(events[i])->Some_0.message_uri == participant::tool_uri(
                        response.header.message_uri,
                        tool_steps(inputs).len(),
                    ));
                }
            }
        }
    }
}

/// Whether a message belongs to an answer that told a number of steps with tools.
pub open spec fn signed(header: MessageHeaderView, response: ResponseView, steps: nat) -> bool {
    &&& header.channel_uri == response.header.channel_uri
    &&& header.sender_uri == response.participant_id
    &&& header.message_uri == response.header.message_uri || exists|n: nat|
        1 <= n <= steps && header.message_uri == #[trigger] participant::tool_uri(
            response.header.message_uri,
            n,
        )
}

/// A participant that hears its own answer does not answer it, whatever message it completes.
pub proof fn law_own_answers_are_not_answered<P>(
    participant_id: Seq<char>,
    message: MessageHeaderView,
    now: Timestamp,
    inputs: Seq<(AnswerInputView<P>, Timestamp)>,
    i: int,
    applied: Option<CompleteMessageView>,
)
    requires
        0 <= i < answer_events(
            participant::begun_response(participant_id, message, now),
            inputs,
        ).len(),
    ensures
        participant::to_answer(
            participant_id,
            answer_events(participant::begun_response(participant_id, message, now), inputs)[i],
            applied,
        ) is None,
{
    law_answer_is_signed(participant_id, message, now, inputs);
}

/// A message is answered when it is heard exactly if an agent that is told of it as past is told
/// that it is not its own.
pub proof fn law_answers_are_to_others<P>(
    state: AgentStateView,
    event: EventView<P>,
    applied: Option<CompleteMessageView>,
)
    ensures
        participant::to_answer(state.participant_id, event, applied) is Some <==> (
        participant::replayed(state, event, applied) is Some && !participant::replayed(
            state,
            event,
            applied,
        )->Some_0.is_self),
{
}

/// What a participant knows after a number of events.
pub open spec fn learned_all<P>(state: AgentStateView, events: Seq<EventView<P>>) -> AgentStateView
    decreases events.len(),
{
    if events.len() == 0 {
        state
    } else {
        participant::learned_from(learned_all(state, events.drop_last()), events.last())
    }
}

/// The name that the last discovery of a channel among a number of events gave it.
pub open spec fn last_channel_name<P>(events: Seq<EventView<P>>, uri: Seq<char>) -> Option<
    Seq<char>,
>
    decreases events.len(),
{
    if events.len() == 0 {
        None
    } else {
        match events.last().payload {
            PayloadView::Core(CoreEventView::ChannelDiscovered { channel_uri, display_name })
                if channel_uri == uri => Some(display_name),
            _ => last_channel_name(events.drop_last(), uri),
        }
    }
}

/// The name that the last discovery of a sender among a number of events gave it.
pub open spec fn last_sender_name<P>(events: Seq<EventView<P>>, uri: Seq<char>) -> Option<
    Seq<char>,
>
    decreases events.len(),
{
    if events.len() == 0 {
        None
    } else {
        match events.last().payload {
            PayloadView::Core(CoreEventView::SenderDiscovered { sender_uri, display_name })
                if sender_uri == uri => Some(display_name),
            _ => last_sender_name(events.drop_last(), uri),
        }
    }
}

/// A participant knows each channel and each sender by the name that was last discovered, or by
/// the address where none was, and never takes itself for another.
pub proof fn law_last_discovered_name_is_used<P>(
    participant_id: Seq<char>,
    events: Seq<EventView<P>>,
    uri: Seq<char>,
)
    ensures
        ({
            let unknowing = AgentStateView {
                participant_id,
                senders: Map::empty(),
                channels: Map::empty(),
            };
            let state = learned_all(unknowing, events);
            &&& state.participant_id == participant_id
            &&& state.channel(uri).name == (match last_channel_name(events, uri) {
                Some(name) => name,
                None => uri,
            })
            &&& state.sender(uri).name == (match last_sender_name(events, uri) {
                Some(name) => name,
                None => uri,
            })
        }),
    decreases events.len(),
{
    if events.len() > 0 {
        law_last_discovered_name_is_used(participant_id, events.drop_last(), uri);
    }
}

} // verus!
