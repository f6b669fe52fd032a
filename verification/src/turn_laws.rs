//! What each step of a turn does, told by what was known before it and by what happened.

use vstd::prelude::*;
use crate::agent::AgentEventView;
use crate::agent_loop::{
    self, LoopActionView, LoopInputView, LoopView, PhaseView, MAX_TOOL_ITERATIONS,
};
use crate::dispatch::{RecordedView, ToolCallResultView};
use crate::ids::Timestamp;
use crate::json;
use crate::llm::{LlmError, LlmEventView};
use crate::message::{MessageView, ToolCallView};
use crate::summary;
use crate::text;
use crate::tool::{self, ToolDefinitionView};
use crate::tool_calls::{self, PartialView};

verus! {

/// Whether a step left everything but the point of the turn as it was.
pub open spec fn only_moved(s: LoopView, t: LoopView) -> bool {
    &&& t.started_at == s.started_at
    &&& t.iterations == s.iterations
    &&& t.tools == s.tools
    &&& t.messages == s.messages
    &&& t.recorded == s.recorded
}

/// A turn begins with the conversation and the tools that it was given, with nothing carried
/// out, and with the model being asked for the first time.
pub proof fn law_turn_begins_with_what_it_was_given(
    messages: Seq<MessageView>,
    tools: Seq<ToolDefinitionView>,
    started_at: Timestamp,
)
    ensures
        ({
            let s = agent_loop::initial(messages, tools, started_at);
            &&& s.messages == messages
            &&& s.tools == tools
            &&& s.started_at == started_at
            &&& s.recorded.len() == 0
            &&& s.iterations == 1
            &&& s.phase is Requesting
        }),
{
}

/// At each point of the turn, exactly the inputs that can come there are expected. Of what a
/// tool returns, every error is, and every content that can be summarized.
pub proof fn law_expected_inputs<E>(phase: PhaseView, input: LoopInputView<E>)
    ensures
        phase is Requesting ==> (agent_loop::expects(phase, input) <==> input is StreamOpened
            || input is RequestFailed),
        phase is Streaming ==> (agent_loop::expects(phase, input) <==> input is Streamed
            || input is StreamFailed || input is StreamEnded),
        phase is Starting || phase is Announcing || phase is Reporting ==> (agent_loop::expects(
            phase,
            input,
        ) <==> input is Delivered),
        phase is Choosing ==> (agent_loop::expects(phase, input) <==> input is ToolNames),
        phase is Calling ==> (agent_loop::expects(phase, input) <==> match input {
            LoopInputView::ToolReturned(ToolCallResultView::Succeeded { content }) =>
                summary::summarizable(content),
            LoopInputView::ToolReturned(ToolCallResultView::Failed { .. }) => true,
            _ => false,
        }),
        phase is Finished ==> !agent_loop::expects(phase, input),
{
}

/// A stream that opens has brought nothing yet, whatever an earlier one brought.
pub proof fn law_stream_opens_empty<P, E>(s: LoopView, t: LoopView, action: LoopActionView<P, E>)
    requires
        s.phase is Requesting,
        agent_loop::steps(s, LoopInputView::StreamOpened, t, action),
    ensures
        action is AwaitStream,
        t.phase is Streaming,
        t.phase->Streaming_text.len() == 0,
        forall|index: usize| !(#[trigger] t.phase->Streaming_partials.contains_key(index)),
        only_moved(s, t),
{
}

/// A piece of text goes to the end of the text so far, and touches nothing else.
pub proof fn law_text_goes_to_the_end<P, E>(
    s: LoopView,
    delta: Seq<char>,
    t: LoopView,
    action: LoopActionView<P, E>,
)
    requires
        s.phase is Streaming,
        agent_loop::steps(s, LoopInputView::Streamed(LlmEventView::TextDelta(delta)), t, action),
    ensures
        action is AwaitStream,
        t.phase is Streaming,
        ({
            let before = s.phase->Streaming_text;
            let after = t.phase->Streaming_text;
            &&& after.len() == before.len() + delta.len()
            &&& before.is_prefix_of(after)
            &&& after.skip(before.len() as int) == delta
        }),
        t.phase->Streaming_partials == s.phase->Streaming_partials,
        only_moved(s, t),
{
    assert(t.phase->Streaming_text.skip(s.phase->Streaming_text.len() as int) =~= delta);
}

/// What is gathered while a stream is open.
pub open spec fn gathered(phase: PhaseView) -> Map<usize, PartialView> {
    match phase {
        PhaseView::Streaming { partials, .. } => partials,
        PhaseView::Starting { partials, .. } => partials,
        _ => Map::empty(),
    }
}

/// The text that has come while a stream is open.
pub open spec fn text_so_far(phase: PhaseView) -> Seq<char> {
    match phase {
        PhaseView::Streaming { text, .. } => text,
        PhaseView::Starting { text, .. } => text,
        _ => Seq::empty(),
    }
}

/// A piece of a tool call belongs to the call of its index and to no other. The arguments that
/// it brings go to the end of that call's arguments; an id or a name that it brings takes the
/// place of the one before, and one that it does not bring stays.
pub proof fn law_piece_belongs_to_its_call<P, E>(
    s: LoopView,
    index: usize,
    id: Option<Seq<char>>,
    name: Option<Seq<char>>,
    delta: Seq<char>,
    t: LoopView,
    action: LoopActionView<P, E>,
)
    requires
        s.phase is Streaming,
        agent_loop::steps(
            s,
            LoopInputView::Streamed(
                LlmEventView::ToolCallDelta { index, id, name, arguments_delta: delta },
            ),
            t,
            action,
        ),
        !(t.phase is Finished),
    ensures
        ({
            let before = s.phase->Streaming_partials;
            let after = gathered(t.phase);
            let known = before.contains_key(index);
            &&& after.contains_key(index)
            &&& after[index].started
            &&& id is Some ==> after[index].id == id
            &&& name is Some ==> after[index].name == name
            &&& id is None ==> after[index].id == (if known {
                before[index].id
            } else {
                None
            })
            &&& name is None ==> after[index].name == (if known {
                before[index].name
            } else {
                None
            })
            &&& known ==> after[index].arguments == before[index].arguments + delta
            &&& !known ==> after[index].arguments == delta
            &&& forall|other: usize|
                other != index ==> (#[trigger] after.contains_key(other) <==> before.contains_key(
                    other,
                ))
            &&& forall|other: usize|
                other != index && before.contains_key(other) ==> #[trigger] after[other]
                    == before[other]
        }),
        text_so_far(t.phase) == s.phase->Streaming_text,
        only_moved(s, t),
{
    assert(Seq::<char>::empty() + delta =~= delta);
}

/// The first piece of a call must bring its id and its name, and then the listener is told that
/// this very call starts. Later pieces are told nobody.
pub proof fn law_first_piece_starts_the_call<P, E>(
    s: LoopView,
    index: usize,
    id: Option<Seq<char>>,
    name: Option<Seq<char>>,
    delta: Seq<char>,
    t: LoopView,
    action: LoopActionView<P, E>,
)
    requires
        s.wf(),
        s.phase is Streaming,
        agent_loop::steps(
            s,
            LoopInputView::Streamed(
                LlmEventView::ToolCallDelta { index, id, name, arguments_delta: delta },
            ),
            t,
            action,
        ),
    ensures
        s.phase->Streaming_partials.contains_key(index) ==> action is AwaitStream
            && t.phase is Streaming,
        !s.phase->Streaming_partials.contains_key(index) ==> match (id, name) {
            (Some(id), Some(name)) => {
                &&& t.phase is Starting
                &&& action == LoopActionView::<P, E>::Emit(
                    AgentEventView::ToolCallStarted { id, name },
                )
            },
            _ => {
                &&& t.phase is Finished
                &&& action == LoopActionView::<P, E>::Fail(LlmError::MissingOnFirstChunk { index })
            },
        },
{
}

/// Whether `calls` are the gathered calls, one for each index in `order` with the id, the name
/// and the arguments gathered there.
pub open spec fn one_for_each(
    partials: Map<usize, PartialView>,
    order: Seq<usize>,
    calls: Seq<ToolCallView>,
) -> bool {
    &&& order.no_duplicates()
    &&& forall|index: usize| #[trigger] order.contains(index) <==> partials.contains_key(index)
    &&& calls.len() == order.len()
    &&& forall|i: int|
        0 <= i < calls.len() ==> {
            &&& partials[order[i]].id == Some((#[trigger] calls[i]).id)
            &&& partials[order[i]].name == Some(calls[i].name)
            &&& partials[order[i]].arguments == calls[i].arguments
        }
}

/// Listed calls are the gathered ones, each once and as it was gathered, and none has an id
/// that comes before that of a call ahead of it.
pub proof fn law_listed_calls_are_the_gathered_ones(
    partials: Map<usize, PartialView>,
    calls: Seq<ToolCallView>,
)
    requires
        tool_calls::lists_calls(partials, calls),
        forall|index: usize| #[trigger]
            partials.contains_key(index) ==> partials[index].id is Some && partials[index].name
                is Some,
    ensures
        exists|order: Seq<usize>| one_for_each(partials, order, calls),
        forall|i: int, j: int|
            0 <= i < j < calls.len() ==> text::text_le(
                (#[trigger] calls[i]).id,
                (#[trigger] calls[j]).id,
            ),
{
    let order = choose|order: Seq<usize>| tool_calls::lists_in_order(partials, order, calls);
    assert forall|index: usize| #[trigger] order.contains(index) <==> partials.contains_key(
        index,
    ) by {
        assert(order.contains(index) <==> order.to_set().contains(index));
    }
    assert forall|i: int| 0 <= i < calls.len() implies {
        &&& partials[order[i]].id == Some((#[trigger] calls[i]).id)
        &&& partials[order[i]].name == Some(calls[i].name)
        &&& partials[order[i]].arguments == calls[i].arguments
    } by {
        assert(order.contains(order[i]));
        assert(calls[i] == tool_calls::completed(partials[order[i]]));
    }
    assert(one_for_each(partials, order, calls));
}

/// At the end of a stream without calls the turn is handed over: with the text that came, the
/// conversation that the model was sent, all calls that were carried out, and both times.
/// At the end of a stream with calls, the text and all of the calls go to the end of the
/// conversation, and the first call is announced with its id, its name and its arguments.
pub proof fn law_end_of_stream<P, E>(
    s: LoopView,
    now: Timestamp,
    t: LoopView,
    action: LoopActionView<P, E>,
)
    requires
        s.wf(),
        s.phase is Streaming,
        agent_loop::steps(s, LoopInputView::StreamEnded { now }, t, action),
    ensures
        s.phase->Streaming_partials.dom().is_empty() ==> {
            &&& t.phase is Finished
            &&& action is HandleTurn
            &&& ({
                let summary = action->HandleTurn_0;
                &&& summary.final_assistant_text == s.phase->Streaming_text
                &&& summary.messages_to_llm == s.messages
                &&& summary.tool_calls == s.recorded
                &&& summary.started_at == s.started_at
                &&& summary.ended_at == now
            })
        },
        !s.phase->Streaming_partials.dom().is_empty() ==> {
            &&& t.messages.len() == s.messages.len() + 1
            &&& s.messages.is_prefix_of(t.messages)
            &&& t.messages.last() is Assistant
            &&& t.messages.last()->text == s.phase->Streaming_text
            &&& ({
                let calls = t.messages.last()->tool_calls;
                &&& calls.len() > 0
                &&& exists|order: Seq<usize>|
                    one_for_each(s.phase->Streaming_partials, order, calls)
                &&& forall|i: int, j: int|
                    0 <= i < j < calls.len() ==> text::text_le(
                        (#[trigger] calls[i]).id,
                        (#[trigger] calls[j]).id,
                    )
                &&& t.phase is Announcing
                &&& t.phase->Announcing_call == calls[0]
                &&& t.phase->Announcing_rest == calls.skip(1)
                &&& action == LoopActionView::<P, E>::Emit(
                    AgentEventView::ToolCallReady {
                        id: calls[0].id,
                        name: calls[0].name,
                        arguments: calls[0].arguments,
                    },
                )
            })
            &&& t.recorded == s.recorded
            &&& t.iterations == s.iterations
            &&& t.tools == s.tools
            &&& t.started_at == s.started_at
        },
{
    let partials = s.phase->Streaming_partials;
    let calls = choose|calls: Seq<ToolCallView>| #[trigger]
        tool_calls::lists_calls(partials, calls) && (t, action) == agent_loop::on_stream_ended::<
            P,
            E,
        >(s, s.phase->Streaming_text, calls, now);
    law_listed_calls_are_the_gathered_ones(partials, calls);
    let order = choose|order: Seq<usize>| one_for_each(partials, order, calls);
    if order.len() > 0 {
        assert(order.contains(order[0]));
        assert(partials.dom().contains(order[0]));
    } else {
        assert(partials.dom() =~= Set::empty()) by {
            assert forall|index: usize| !partials.dom().contains(index) by {
                assert(!order.contains(index));
            }
        }
    }
    assert(calls.drop_first() =~= calls.skip(1));
}

/// News that reached the listener change nothing but that the turn goes on: the stream is
/// awaited again with all that it brought, or the tools are looked up for the announced call.
pub proof fn law_heard_news_change_nothing_else<P, E>(
    s: LoopView,
    t: LoopView,
    action: LoopActionView<P, E>,
)
    requires
        s.phase is Starting || s.phase is Announcing,
        agent_loop::steps(s, LoopInputView::Delivered(true), t, action),
    ensures
        only_moved(s, t),
        s.phase is Starting ==> {
            &&& action is AwaitStream
            &&& t.phase is Streaming
            &&& t.phase->Streaming_partials == s.phase->Starting_partials
            &&& t.phase->Streaming_text == s.phase->Starting_text
        },
        s.phase is Announcing ==> {
            &&& action is ListTools
            &&& t.phase is Choosing
            &&& t.phase->Choosing_call == s.phase->Announcing_call
            &&& t.phase->Choosing_rest == s.phase->Announcing_rest
        },
{
}

/// The tool that runs for a call bears the call's name, and no tool before it in the list does;
/// it runs on what parsing the call's arguments gave.
pub proof fn law_tool_of_the_calls_name_runs<P, E>(
    s: LoopView,
    names: Seq<Seq<char>>,
    t: LoopView,
    action: LoopActionView<P, E>,
)
    requires
        s.phase is Choosing,
        agent_loop::steps(s, LoopInputView::ToolNames(names), t, action),
    ensures
        action is CallTool ==> {
            let call = s.phase->Choosing_call;
            let place = action->tool;
            &&& 0 <= place < names.len()
            &&& names[place] == call.name
            &&& forall|j: int| 0 <= j < place ==> names[j] != call.name
            &&& json::parsed_arguments(call.arguments) == Ok::<serde_json::Value, Seq<char>>(
                action->arguments,
            )
            &&& t.phase is Calling
            &&& t.phase->Calling_call == call
            &&& t.phase->Calling_rest == s.phase->Choosing_rest
        },
        action is CallTool <==> names.contains(s.phase->Choosing_call.name)
            && json::parsed_arguments(s.phase->Choosing_call.arguments) is Ok,
        only_moved(s, t),
{
    tool::law_first_tool_of_a_name_is_found(names, s.phase->Choosing_call.name);
}

/// A call for which no tool runs is told to have failed, under its id and its name: because no
/// tool bears its name, which the error tells, or because its arguments are no JSON, for the
/// reason that the error tells.
pub proof fn law_refused_call_is_told<P, E>(
    s: LoopView,
    names: Seq<Seq<char>>,
    t: LoopView,
    action: LoopActionView<P, E>,
)
    requires
        s.phase is Choosing,
        agent_loop::steps(s, LoopInputView::ToolNames(names), t, action),
        !(action is CallTool),
    ensures
        ({
            let call = s.phase->Choosing_call;
            let error = t.phase->Reporting_result->error;
            &&& t.phase is Reporting
            &&& t.phase->Reporting_call == call
            &&& t.phase->Reporting_rest == s.phase->Choosing_rest
            &&& t.phase->Reporting_result is Failed
            &&& action == LoopActionView::<P, E>::Emit(
                AgentEventView::ToolCallFailed { id: call.id, name: call.name, error },
            )
            &&& !names.contains(call.name) ==> {
                &&& "unknown tool: "@.is_prefix_of(error)
                &&& error.skip("unknown tool: "@.len() as int) == call.name
            }
            &&& names.contains(call.name) ==> {
                &&& json::parsed_arguments(call.arguments) is Err
                &&& "invalid tool arguments JSON: "@.is_prefix_of(error)
                &&& error.skip("invalid tool arguments JSON: "@.len() as int)
                    == json::parsed_arguments(call.arguments)->Err_0
            }
        }),
        only_moved(s, t),
{
    let call = s.phase->Choosing_call;
    tool::law_first_tool_of_a_name_is_found(names, call.name);
    assert(("unknown tool: "@ + call.name).skip("unknown tool: "@.len() as int) =~= call.name);
    if json::parsed_arguments(call.arguments) is Err {
        let reason = json::parsed_arguments(call.arguments)->Err_0;
        assert(("invalid tool arguments JSON: "@ + reason).skip(
            "invalid tool arguments JSON: "@.len() as int,
        ) =~= reason);
    }
}

/// What a tool returned is told under the id and the name of the call that ran: of a content
/// the summary, an error in full. The full result is kept for the answer.
pub proof fn law_returned_result_is_told<P, E>(
    s: LoopView,
    result: ToolCallResultView,
    t: LoopView,
    action: LoopActionView<P, E>,
)
    requires
        s.phase is Calling,
        agent_loop::steps(s, LoopInputView::ToolReturned(result), t, action),
    ensures
        ({
            let call = s.phase->Calling_call;
            &&& t.phase is Reporting
            &&& t.phase->Reporting_call == call
            &&& t.phase->Reporting_result == result
            &&& t.phase->Reporting_rest == s.phase->Calling_rest
            &&& match result {
                ToolCallResultView::Succeeded { content } => action == LoopActionView::<
                    P,
                    E,
                >::Emit(
                    AgentEventView::ToolCallFinished {
                        id: call.id,
                        name: call.name,
                        summary: summary::summary_text(content),
                    },
                ),
                ToolCallResultView::Failed { error } => action == LoopActionView::<P, E>::Emit(
                    AgentEventView::ToolCallFailed { id: call.id, name: call.name, error },
                ),
            }
        }),
        only_moved(s, t),
{
}

/// A reported call is answered at the end of the conversation, by its id and with its full
/// content or error, and recorded with its id, its name, its arguments and its result. Then the
/// next call that waits is announced. Where none waits, the model is asked again with the whole
/// conversation and the turn's tools, unless it was asked as often as is allowed.
pub proof fn law_reported_call_is_answered_and_recorded<P, E>(
    s: LoopView,
    t: LoopView,
    action: LoopActionView<P, E>,
)
    requires
        s.wf(),
        s.phase is Reporting,
        agent_loop::steps(s, LoopInputView::Delivered(true), t, action),
    ensures
        ({
            let call = s.phase->Reporting_call;
            let result = s.phase->Reporting_result;
            let rest = s.phase->Reporting_rest;
            let content = match result {
                ToolCallResultView::Succeeded { content } => content,
                ToolCallResultView::Failed { error } => error,
            };
            &&& !(t.phase is Finished) ==> {
                &&& t.messages == s.messages.push(
                    MessageView::ToolResult { tool_call_id: call.id, content },
                )
                &&& t.recorded == s.recorded.push(
                    RecordedView {
                        id: call.id,
                        name: call.name,
                        arguments: call.arguments,
                        result,
                    },
                )
                &&& t.started_at == s.started_at
                &&& t.tools == s.tools
            }
            &&& rest.len() > 0 ==> {
                &&& t.phase is Announcing
                &&& t.phase->Announcing_call == rest[0]
                &&& t.phase->Announcing_rest == rest.skip(1)
                &&& t.iterations == s.iterations
                &&& action == LoopActionView::<P, E>::Emit(
                    AgentEventView::ToolCallReady {
                        id: rest[0].id,
                        name: rest[0].name,
                        arguments: rest[0].arguments,
                    },
                )
            }
            &&& rest.len() == 0 && s.iterations < 4 ==> {
                &&& t.phase is Requesting
                &&& t.iterations == s.iterations + 1
                &&& action == LoopActionView::<P, E>::SendRequest {
                    messages: t.messages,
                    tools: s.tools,
                }
            }
            &&& rest.len() == 0 && s.iterations == 4 ==> {
                &&& t.phase is Finished
                &&& action == LoopActionView::<P, E>::Fail(LlmError::IterationsExceeded)
            }
        }),
{
    let rest = s.phase->Reporting_rest;
    assert(rest.len() > 0 ==> rest.drop_first() =~= rest.skip(1));
}

/// The model is asked at most four times.
pub proof fn law_limit_of_requests()
    ensures
        MAX_TOOL_ITERATIONS == 4,
{
}

} // verus!
