//! What each request of a turn holds, and what it adds to the one before.

use vstd::prelude::*;
use crate::agent_loop::{self, LoopActionView, LoopInputView, LoopView, PhaseView};
use crate::dispatch::{self, CallDecisionView, ToolCallResultView};
use crate::ids::Timestamp;
use crate::json;
use crate::llm::LlmEventView;
use crate::loop_laws::{self, LoopRun};
use crate::message::{MessageView, ToolCallView};
use crate::tool::ToolDefinitionView;
use crate::tool_calls::{self, PartialView};

verus! {

/// What came of the calls that the latest stream asked for, in the order in which it came: what
/// a tool returned, or why none ran.
pub open spec fn current_results<P, E>(run: LoopRun<P, E>) -> Seq<ToolCallResultView>
    decreases run.inputs.len(),
{
    if run.inputs.len() == 0 {
        Seq::empty()
    } else {
        let earlier = current_results(run.shorter());
        match (run.states[run.inputs.len() - 1].phase, run.inputs.last()) {
            (_, LoopInputView::StreamOpened) => Seq::empty(),
            (PhaseView::Choosing { call, .. }, LoopInputView::ToolNames(names)) =>
                match dispatch::decided(names, call.name, json::parsed_arguments(call.arguments)) {
                CallDecisionView::Refuse { error } => earlier.push(
                    ToolCallResultView::Failed { error },
                ),
                CallDecisionView::Run { .. } => earlier,
            },
            (PhaseView::Calling { .. }, LoopInputView::ToolReturned(result)) => earlier.push(
                result,
            ),
            _ => earlier,
        }
    }
}

/// The messages that answer calls with their results, one for each call.
pub open spec fn answers_to(calls: Seq<ToolCallView>, results: Seq<ToolCallResultView>) -> Seq<
    MessageView,
> {
    Seq::new(calls.len(), |i: int| dispatch::answer_message(calls[i], results[i]))
}

/// A conversation to which the model added a text and calls, followed by the calls' answers.
pub open spec fn continued(
    messages: Seq<MessageView>,
    text: Seq<char>,
    calls: Seq<ToolCallView>,
    results: Seq<ToolCallResultView>,
) -> Seq<MessageView> {
    messages + seq![MessageView::Assistant { text, tool_calls: calls }] + answers_to(calls, results)
}

/// Whether the loop is at work on `calls`, of which so many are done as there are results. What
/// is done is in the conversation, but for the call that is being reported.
spec fn at_work(
    s: LoopView,
    sent: Seq<MessageView>,
    text: Seq<char>,
    partials: Map<usize, PartialView>,
    results: Seq<ToolCallResultView>,
    calls: Seq<ToolCallView>,
) -> bool {
    let asked = sent + seq![MessageView::Assistant { text, tool_calls: calls }];
    let n = results.len() as int;
    &&& tool_calls::lists_calls(partials, calls)
    &&& match s.phase {
        PhaseView::Reporting { call, result, rest } => {
            &&& 1 <= n <= calls.len()
            &&& call == calls[n - 1]
            &&& result == results.last()
            &&& rest == calls.skip(n)
            &&& s.messages == asked + answers_to(calls.take(n - 1), results.drop_last())
        },
        PhaseView::Announcing { call, rest } => waits(s, asked, results, calls, call, rest),
        PhaseView::Choosing { call, rest } => waits(s, asked, results, calls, call, rest),
        PhaseView::Calling { call, rest } => waits(s, asked, results, calls, call, rest),
        _ => false,
    }
}

/// Whether `call` is the first of `calls` without a result, and `rest` the others.
spec fn waits(
    s: LoopView,
    asked: Seq<MessageView>,
    results: Seq<ToolCallResultView>,
    calls: Seq<ToolCallView>,
    call: ToolCallView,
    rest: Seq<ToolCallView>,
) -> bool {
    let n = results.len() as int;
    &&& n < calls.len()
    &&& call == calls[n]
    &&& rest == calls.skip(n + 1)
    &&& s.messages == asked + answers_to(calls.take(n), results)
}

/// Whether the loop is at work on some calls.
spec fn at_work_now<P, E>(run: LoopRun<P, E>, calls: Seq<ToolCallView>) -> bool {
    let stream = loop_laws::current_stream(run.inputs);
    at_work(
        run.states.last(),
        loop_laws::latest_request(run.actions),
        loop_laws::gathered_text(stream),
        loop_laws::gathered_calls(stream),
        current_results(run),
        calls,
    )
}

proof fn lemma_answers_grow(
    calls: Seq<ToolCallView>,
    results: Seq<ToolCallResultView>,
    n: int,
)
    requires
        0 < n <= calls.len(),
        results.len() == n,
    ensures
        answers_to(calls.take(n), results) == answers_to(
            calls.take(n - 1),
            results.drop_last(),
        ).push(dispatch::answer_message(calls[n - 1], results.last())),
{
    assert(answers_to(calls.take(n), results) =~= answers_to(
        calls.take(n - 1),
        results.drop_last(),
    ).push(dispatch::answer_message(calls[n - 1], results.last())));
}

/// Where the loop stands between two requests.
proof fn lemma_between_requests<P, E>(
    run: LoopRun<P, E>,
    messages: Seq<MessageView>,
    tools: Seq<ToolDefinitionView>,
    started_at: Timestamp,
)
    requires
        run.from(messages, tools, started_at),
    ensures
        match run.states.last().phase {
            PhaseView::Requesting => true,
            PhaseView::Streaming { .. } => current_results(run).len() == 0,
            PhaseView::Starting { .. } => current_results(run).len() == 0,
            PhaseView::Finished => true,
            _ => exists|calls: Seq<ToolCallView>| at_work_now(run, calls),
        },
    decreases run.inputs.len(),
{
    if run.inputs.len() > 0 {
        loop_laws::lemma_shorter(run, messages, tools, started_at);
        let cut = run.shorter();
        lemma_between_requests(cut, messages, tools, started_at);
        let s = cut.states.last();
        let t = run.states.last();
        assert(run.actions.drop_last() == cut.actions);
        match (s.phase, run.inputs.last()) {
            (PhaseView::Streaming { partials, text }, LoopInputView::StreamEnded { now }) => {
                loop_laws::law_stream_is_gathered(cut, messages, tools, started_at);
                loop_laws::lemma_latest_request(cut, messages, tools, started_at);
                let calls = choose|calls: Seq<ToolCallView>| #[trigger]
                    tool_calls::lists_calls(partials, calls) && (t, run.actions.last())
                        == agent_loop::on_stream_ended::<P, E>(s, text, calls, now);
                if calls.len() > 0 {
                    let asked = s.messages + seq![
                        MessageView::Assistant { text, tool_calls: calls },
                    ];
                    assert(t.messages =~= asked + answers_to(calls.take(0), Seq::empty()));
                    assert(current_results(run) =~= Seq::empty());
                    assert(calls.drop_first() =~= calls.skip(1));
                    assert(at_work_now(run, calls));
                }
            },
            (PhaseView::Reporting { call, result, rest }, LoopInputView::Delivered(true)) => {
                let calls = choose|calls: Seq<ToolCallView>| at_work_now(cut, calls);
                let results = current_results(cut);
                lemma_answers_grow(calls, results, results.len() as int);
                if rest.len() > 0 {
                    let stream = loop_laws::current_stream(run.inputs);
                    let asked = loop_laws::latest_request(cut.actions) + seq![
                        MessageView::Assistant {
                            text: loop_laws::gathered_text(stream),
                            tool_calls: calls,
                        },
                    ];
                    assert(t.messages =~= asked + answers_to(
                        calls.take(results.len() as int),
                        results,
                    ));
                    assert(rest.drop_first() =~= calls.skip(results.len() as int + 1));
                    assert(at_work_now(run, calls));
                }
            },
            (PhaseView::Announcing { .. }, LoopInputView::Delivered(true)) => {
                let calls = choose|calls: Seq<ToolCallView>| at_work_now(cut, calls);
                assert(at_work_now(run, calls));
            },
            (PhaseView::Choosing { .. }, LoopInputView::ToolNames(_)) => {
                let calls = choose|calls: Seq<ToolCallView>| at_work_now(cut, calls);
                let results = current_results(cut);
                if t.phase is Reporting {
                    assert(current_results(run).drop_last() =~= results);
                }
                assert(at_work_now(run, calls));
            },
            (PhaseView::Calling { .. }, LoopInputView::ToolReturned(_)) => {
                let calls = choose|calls: Seq<ToolCallView>| at_work_now(cut, calls);
                assert(current_results(run).drop_last() =~= current_results(cut));
                assert(at_work_now(run, calls));
            },
            _ => {},
        }
    }
}

/// Whether `next` is what follows `sent`: the text and the calls that the stream in between
/// brought, and an answer for each call with what came of it.
pub open spec fn follows(
    sent: Seq<MessageView>,
    stream: Seq<LlmEventView>,
    results: Seq<ToolCallResultView>,
    calls: Seq<ToolCallView>,
    next: Seq<MessageView>,
) -> bool {
    &&& tool_calls::lists_calls(loop_laws::gathered_calls(stream), calls)
    &&& calls.len() >= 1
    &&& results.len() == calls.len()
    &&& next == continued(sent, loop_laws::gathered_text(stream), calls, results)
}

proof fn lemma_last_request_follows<P, E>(
    run: LoopRun<P, E>,
    messages: Seq<MessageView>,
    tools: Seq<ToolDefinitionView>,
    started_at: Timestamp,
)
    requires
        run.from(messages, tools, started_at),
        run.inputs.len() > 0,
        run.actions.last() is SendRequest,
    ensures
        exists|calls: Seq<ToolCallView>|
            follows(
                loop_laws::latest_request(run.actions.drop_last()),
                loop_laws::current_stream(run.inputs),
                current_results(run),
                calls,
                run.actions.last()->SendRequest_messages,
            ),
{
    loop_laws::lemma_shorter(run, messages, tools, started_at);
    let cut = run.shorter();
    lemma_between_requests(cut, messages, tools, started_at);
    assert(run.actions.drop_last() == cut.actions);
    let s = cut.states.last();
    assert(s.phase is Reporting && run.inputs.last() == LoopInputView::<E>::Delivered(true));
    let calls = choose|calls: Seq<ToolCallView>| at_work_now(cut, calls);
    let results = current_results(cut);
    let sent = loop_laws::latest_request(cut.actions);
    let stream = loop_laws::current_stream(run.inputs);
    assert(s.phase->Reporting_rest.len() == 0);
    assert(results.len() == calls.len());
    assert(calls.take(results.len() as int) =~= calls);
    lemma_answers_grow(calls, results, results.len() as int);
    assert(run.actions.last()->SendRequest_messages =~= continued(
        sent,
        loop_laws::gathered_text(stream),
        calls,
        results,
    ));
    assert(follows(
        sent,
        stream,
        current_results(run),
        calls,
        run.actions.last()->SendRequest_messages,
    ));
}

/// The part of a run up to its state `j`.
pub open spec fn until<P, E>(run: LoopRun<P, E>, j: int) -> LoopRun<P, E> {
    LoopRun {
        states: run.states.take(j + 1),
        inputs: run.inputs.take(j),
        actions: run.actions.take(j + 1),
    }
}

proof fn lemma_until<P, E>(
    run: LoopRun<P, E>,
    messages: Seq<MessageView>,
    tools: Seq<ToolDefinitionView>,
    started_at: Timestamp,
    j: int,
)
    requires
        run.from(messages, tools, started_at),
        0 <= j < run.actions.len(),
    ensures
        until(run, j).from(messages, tools, started_at),
{
    let part = until(run, j);
    assert forall|i: int| #[trigger] part.step_at(i) by {
        assert(run.step_at(i));
    }
}

proof fn lemma_latest_is_the_one_before<P, E>(
    actions: Seq<LoopActionView<P, E>>,
    i: int,
    j: int,
)
    requires
        0 <= i < j <= actions.len(),
        actions[i] is SendRequest,
        forall|k: int| i < k < j ==> !(#[trigger] actions[k] is SendRequest),
    ensures
        loop_laws::latest_request(actions.take(j)) == actions[i]->SendRequest_messages,
    decreases j - i,
{
    assert(actions.take(j).last() == actions[j - 1]);
    if i < j - 1 {
        assert(actions.take(j).drop_last() =~= actions.take(j - 1));
        lemma_latest_is_the_one_before(actions, i, j - 1);
    }
}

/// From one request to the next, exactly this is added to the conversation: one message of the
/// assistant, with the text and the calls that the stream in between brought, in the order of
/// the calls' ids; and behind it one answer for each of the calls, in the same order, with what
/// the tool returned or why none ran. There is at least one call.
pub proof fn law_next_request_adds_the_answered_calls<P, E>(
    run: LoopRun<P, E>,
    messages: Seq<MessageView>,
    tools: Seq<ToolDefinitionView>,
    started_at: Timestamp,
    i: int,
    j: int,
)
    requires
        run.from(messages, tools, started_at),
        0 <= i < j < run.actions.len(),
        run.actions[i] is SendRequest,
        run.actions[j] is SendRequest,
        forall|k: int| i < k < j ==> !(#[trigger] run.actions[k] is SendRequest),
    ensures
        exists|calls: Seq<ToolCallView>| #[trigger]
            follows(
                run.actions[i]->SendRequest_messages,
                loop_laws::current_stream(run.inputs.take(j)),
                current_results(until(run, j)),
                calls,
                run.actions[j]->SendRequest_messages,
            ),
{
    let part = until(run, j);
    lemma_until(run, messages, tools, started_at, j);
    lemma_last_request_follows(part, messages, tools, started_at);
    assert(part.actions.drop_last() =~= run.actions.take(j));
    lemma_latest_is_the_one_before(run.actions, i, j);
}

/// The first request holds the conversation that the turn began with, and every request of the
/// turn offers the same tools, in the same order.
pub proof fn law_every_request_offers_the_same_tools<P, E>(
    run: LoopRun<P, E>,
    messages: Seq<MessageView>,
    tools: Seq<ToolDefinitionView>,
    started_at: Timestamp,
    i: int,
)
    requires
        run.from(messages, tools, started_at),
        0 <= i < run.actions.len(),
        run.actions[i] is SendRequest,
    ensures
        run.actions[i]->SendRequest_tools == tools,
        i == 0 ==> run.actions[i]->SendRequest_messages == messages,
{
    lemma_tools_stay(run, messages, tools, started_at, i);
    if i > 0 {
        lemma_tools_stay(run, messages, tools, started_at, i - 1);
        assert(run.step_at(i - 1));
    }
}

proof fn lemma_tools_stay<P, E>(
    run: LoopRun<P, E>,
    messages: Seq<MessageView>,
    tools: Seq<ToolDefinitionView>,
    started_at: Timestamp,
    i: int,
)
    requires
        run.from(messages, tools, started_at),
        0 <= i < run.states.len(),
    ensures
        run.states[i].tools == tools,
    decreases i,
{
    if i > 0 {
        lemma_tools_stay(run, messages, tools, started_at, i - 1);
        assert(run.step_at(i - 1));
    }
}

/// Where the model does not take a request, or a stream breaks off, the listener is sent the
/// very error that was met; and no other error of the model is ever sent.
pub proof fn law_met_error_is_forwarded<P, E>(
    s: LoopView,
    input: LoopInputView<E>,
    t: LoopView,
    action: LoopActionView<P, E>,
)
    requires
        agent_loop::expects(s.phase, input),
        agent_loop::steps(s, input, t, action),
    ensures
        input matches LoopInputView::RequestFailed(error) ==> action
            == LoopActionView::<P, E>::ForwardError(error),
        input matches LoopInputView::StreamFailed(error) ==> action
            == LoopActionView::<P, E>::ForwardError(error),
        action matches LoopActionView::ForwardError(error) ==> input
            == LoopInputView::RequestFailed(error) || input == LoopInputView::StreamFailed(error),
{
}

} // verus!
