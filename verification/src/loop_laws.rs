//! What holds of every run of the loop, whatever the model, the tools and the listener do.

use vstd::prelude::*;
use crate::agent::AgentEventView;
use crate::agent_loop::{
    self, LoopActionView, LoopInputView, LoopView, PhaseView, MAX_TOOL_ITERATIONS,
};
use crate::dispatch::{self, RecordedView};
use crate::ids::Timestamp;
use crate::llm::LlmEventView;
use crate::message::{MessageView, ToolCallView};
use crate::tool::ToolDefinitionView;
use crate::tool_calls::{self, PartialView};

verus! {

/// A run of the loop: the states it went through, what happened in each but the last, and
/// what was done on entering each.
pub struct LoopRun<P, E> {
    pub states: Seq<LoopView>,
    pub inputs: Seq<LoopInputView<E>>,
    pub actions: Seq<LoopActionView<P, E>>,
}

impl<P, E> LoopRun<P, E> {
    /// Whether this is a run that began with these messages and tools, at this time.
    pub open spec fn from(
        self,
        messages: Seq<MessageView>,
        tools: Seq<ToolDefinitionView>,
        started_at: Timestamp,
    ) -> bool {
        &&& self.states.len() >= 1
        &&& self.states.len() == self.actions.len()
        &&& self.states.len() == self.inputs.len() + 1
        &&& self.states[0] == agent_loop::initial(messages, tools, started_at)
        &&& self.actions[0] == (LoopActionView::<P, E>::SendRequest { messages, tools })
        &&& forall|i: int| #[trigger] self.step_at(i)
    }

    /// Whether the run takes a proper step out of its state `i`, if it goes on from there.
    pub open spec fn step_at(self, i: int) -> bool {
        0 <= i < self.inputs.len() ==> {
            &&& agent_loop::expects(self.states[i].phase, self.inputs[i])
            &&& agent_loop::steps(
                self.states[i],
                self.inputs[i],
                self.states[i + 1],
                self.actions[i + 1],
            )
        }
    }

    /// The run without its last step.
    pub open spec fn shorter(self) -> LoopRun<P, E> {
        LoopRun {
            states: self.states.drop_last(),
            inputs: self.inputs.drop_last(),
            actions: self.actions.drop_last(),
        }
    }
}

pub proof fn lemma_shorter<P, E>(
    run: LoopRun<P, E>,
    messages: Seq<MessageView>,
    tools: Seq<ToolDefinitionView>,
    started_at: Timestamp,
)
    requires
        run.from(messages, tools, started_at),
        run.inputs.len() > 0,
    ensures
        run.shorter().from(messages, tools, started_at),
        run.step_at(run.inputs.len() - 1),
        run.shorter().states.last() == run.states[run.inputs.len() - 1],
        run.shorter().actions.push(run.actions.last()) == run.actions,
{
    let cut = run.shorter();
    assert forall|i: int| #[trigger] cut.step_at(i) by {
        assert(run.step_at(i));
    }
}

/// Every state of a run is well formed.
pub proof fn law_runs_stay_well_formed<P, E>(
    run: LoopRun<P, E>,
    messages: Seq<MessageView>,
    tools: Seq<ToolDefinitionView>,
    started_at: Timestamp,
)
    requires
        run.from(messages, tools, started_at),
    ensures
        run.states.last().wf(),
    decreases run.inputs.len(),
{
    if run.inputs.len() > 0 {
        lemma_shorter(run, messages, tools, started_at);
        law_runs_stay_well_formed(run.shorter(), messages, tools, started_at);
    }
}

/// How many times the model is asked.
pub open spec fn requests<P, E>(actions: Seq<LoopActionView<P, E>>) -> nat
    decreases actions.len(),
{
    if actions.len() == 0 {
        0
    } else {
        requests(actions.drop_last()) + if actions.last() is SendRequest {
            1nat
        } else {
            0nat
        }
    }
}

proof fn lemma_requests_counted<P, E>(
    run: LoopRun<P, E>,
    messages: Seq<MessageView>,
    tools: Seq<ToolDefinitionView>,
    started_at: Timestamp,
)
    requires
        run.from(messages, tools, started_at),
    ensures
        requests(run.actions) == run.states.last().iterations,
    decreases run.inputs.len(),
{
    if run.inputs.len() > 0 {
        lemma_shorter(run, messages, tools, started_at);
        lemma_requests_counted(run.shorter(), messages, tools, started_at);
    } else {
        assert(run.actions.drop_last() =~= Seq::empty());
        assert(requests(run.actions.drop_last()) == 0);
    }
}

/// In one turn the model is asked at most [`MAX_TOOL_ITERATIONS`] times.
pub proof fn law_requests_are_bounded<P, E>(
    run: LoopRun<P, E>,
    messages: Seq<MessageView>,
    tools: Seq<ToolDefinitionView>,
    started_at: Timestamp,
)
    requires
        run.from(messages, tools, started_at),
    ensures
        requests(run.actions) <= MAX_TOOL_ITERATIONS,
{
    lemma_requests_counted(run, messages, tools, started_at);
    law_runs_stay_well_formed(run, messages, tools, started_at);
}

/// Whether an action ends the turn.
pub open spec fn ends_turn<P, E>(action: LoopActionView<P, E>) -> bool {
    action is HandleTurn || action is ForwardError || action is Fail || action is Stop
}

/// A step ends the turn exactly where it leaves the loop finished.
pub proof fn law_end_is_told<P, E>(
    s: LoopView,
    input: LoopInputView<E>,
    t: LoopView,
    action: LoopActionView<P, E>,
)
    requires
        agent_loop::expects(s.phase, input),
        agent_loop::steps(s, input, t, action),
    ensures
        ends_turn(action) <==> t.phase is Finished,
{
}

/// A turn ends once, and nothing is done after its end.
pub proof fn law_turn_ends_once<P, E>(
    run: LoopRun<P, E>,
    messages: Seq<MessageView>,
    tools: Seq<ToolDefinitionView>,
    started_at: Timestamp,
    i: int,
)
    requires
        run.from(messages, tools, started_at),
        0 <= i < run.actions.len(),
        ends_turn(run.actions[i]),
    ensures
        i == run.actions.len() - 1,
{
    if i > 0 {
        assert(run.step_at(i - 1));
        law_end_is_told(run.states[i - 1], run.inputs[i - 1], run.states[i], run.actions[i]);
        assert(run.step_at(i));
    }
}

/// The calls that wait while the loop stands where it does.
pub open spec fn pending(phase: PhaseView) -> Seq<ToolCallView> {
    match phase {
        PhaseView::Announcing { call, rest } => seq![call] + rest,
        PhaseView::Choosing { call, rest } => seq![call] + rest,
        PhaseView::Calling { call, rest } => seq![call] + rest,
        PhaseView::Reporting { call, result, rest } => seq![call] + rest,
        _ => Seq::empty(),
    }
}

/// The tool calls that a piece of conversation leaves unanswered, in the order in which their
/// answers are due. There is no such list where an answer comes that is not due, or where
/// something else comes while one is.
pub open spec fn unanswered(messages: Seq<MessageView>) -> Option<Seq<ToolCallView>>
    decreases messages.len(),
{
    if messages.len() == 0 {
        Some(Seq::empty())
    } else {
        match (unanswered(messages.drop_last()), messages.last()) {
            (Some(due), MessageView::ToolResult { tool_call_id, .. }) => if due.len() > 0
                && due[0].id == tool_call_id {
                Some(due.drop_first())
            } else {
                None
            },
            (Some(due), MessageView::Assistant { tool_calls, .. }) => if due.len() == 0 {
                Some(tool_calls)
            } else {
                None
            },
            (Some(due), _) => if due.len() == 0 {
                Some(due)
            } else {
                None
            },
            (None, _) => None,
        }
    }
}

/// The tool calls that the assistant asked for in a piece of conversation.
pub open spec fn asked_calls(messages: Seq<MessageView>) -> Seq<ToolCallView>
    decreases messages.len(),
{
    if messages.len() == 0 {
        Seq::empty()
    } else {
        match messages.last() {
            MessageView::Assistant { tool_calls, .. } => asked_calls(messages.drop_last())
                + tool_calls,
            _ => asked_calls(messages.drop_last()),
        }
    }
}

/// The answers to tool calls in a piece of conversation.
pub open spec fn answers(messages: Seq<MessageView>) -> Seq<MessageView>
    decreases messages.len(),
{
    if messages.len() == 0 {
        Seq::empty()
    } else if messages.last() is ToolResult {
        answers(messages.drop_last()).push(messages.last())
    } else {
        answers(messages.drop_last())
    }
}

/// The call that a record is of.
pub open spec fn recorded_call(record: RecordedView) -> ToolCallView {
    ToolCallView { id: record.id, name: record.name, arguments: record.arguments }
}

/// The answer that goes with a record.
pub open spec fn recorded_answer(record: RecordedView) -> MessageView {
    dispatch::answer_message(recorded_call(record), record.result)
}

/// Whether the state of a turn that began with `messages` keeps its books: the conversation
/// has only grown, and in what was added every call but the pending ones is answered in turn
/// and recorded with its answer.
pub open spec fn books_kept(s: LoopView, messages: Seq<MessageView>) -> bool {
    let added = s.messages.skip(messages.len() as int);
    &&& messages.is_prefix_of(s.messages)
    &&& unanswered(added) == Some(pending(s.phase))
    &&& asked_calls(added) == s.recorded.map_values(|record: RecordedView| recorded_call(record))
        + pending(s.phase)
    &&& answers(added) == s.recorded.map_values(|record: RecordedView| recorded_answer(record))
}

proof fn lemma_push_added(all: Seq<MessageView>, n: int, message: MessageView)
    requires
        0 <= n <= all.len(),
    ensures
        all.push(message).skip(n) == all.skip(n).push(message),
        all.push(message).skip(n).drop_last() == all.skip(n),
        all.push(message).skip(n).last() == message,
{
    assert(all.push(message).skip(n) =~= all.skip(n).push(message));
    assert(all.push(message).skip(n).drop_last() =~= all.skip(n));
}

/// Every turn keeps its books, until it is over.
pub proof fn law_books_are_kept<P, E>(
    run: LoopRun<P, E>,
    messages: Seq<MessageView>,
    tools: Seq<ToolDefinitionView>,
    started_at: Timestamp,
)
    requires
        run.from(messages, tools, started_at),
        !(run.states.last().phase is Finished),
    ensures
        books_kept(run.states.last(), messages),
    decreases run.inputs.len(),
{
    if run.inputs.len() == 0 {
        let added = messages.skip(messages.len() as int);
        assert(added =~= Seq::empty());
        let s = run.states.last();
        assert(s.recorded.map_values(|record: RecordedView| recorded_call(record)) + pending(
            s.phase,
        ) =~= Seq::empty());
        assert(s.recorded.map_values(|record: RecordedView| recorded_answer(record))
            =~= Seq::empty());
    } else {
        lemma_shorter(run, messages, tools, started_at);
        law_books_are_kept(run.shorter(), messages, tools, started_at);
        lemma_books_step(
            run.shorter().states.last(),
            run.inputs.last(),
            run.states.last(),
            run.actions.last(),
            messages,
        );
    }
}

proof fn lemma_books_step<P, E>(
    s: LoopView,
    input: LoopInputView<E>,
    t: LoopView,
    action: LoopActionView<P, E>,
    messages: Seq<MessageView>,
)
    requires
        agent_loop::expects(s.phase, input),
        agent_loop::steps(s, input, t, action),
        books_kept(s, messages),
        !(t.phase is Finished),
    ensures
        books_kept(t, messages),
{
    let n = messages.len() as int;
    match (s.phase, input) {
        (PhaseView::Streaming { partials, text }, LoopInputView::StreamEnded { now }) => {
            let calls = choose|calls: Seq<ToolCallView>| #[trigger]
                tool_calls::lists_calls(partials, calls) && (t, action)
                    == agent_loop::on_stream_ended::<P, E>(s, text, calls, now);
            lemma_push_added(s.messages, n, MessageView::Assistant { text, tool_calls: calls });
            assert(pending(t.phase) =~= calls);
            assert(asked_calls(s.messages.skip(n)) + calls =~= t.recorded.map_values(
                |record: RecordedView| recorded_call(record),
            ) + pending(t.phase));
        },
        (PhaseView::Reporting { call, result, rest }, LoopInputView::Delivered(true)) => {
            let answer = dispatch::answer_message(call, result);
            let record = dispatch::record_of(call, result);
            lemma_push_added(s.messages, n, answer);
            assert(pending(s.phase).drop_first() =~= rest);
            assert(pending(t.phase) =~= rest);
            assert(recorded_call(record) == call);
            assert(recorded_answer(record) == answer);
            assert(t.recorded.map_values(|record: RecordedView| recorded_call(record))
                =~= s.recorded.map_values(|record: RecordedView| recorded_call(record)).push(call));
            assert(t.recorded.map_values(|record: RecordedView| recorded_answer(record))
                =~= s.recorded.map_values(|record: RecordedView| recorded_answer(record)).push(
                answer,
            ));
            assert(s.recorded.map_values(|record: RecordedView| recorded_call(record)) + pending(
                s.phase,
            ) =~= s.recorded.map_values(|record: RecordedView| recorded_call(record)).push(call)
                + rest);
        },
        _ => {},
    }
}

/// Whenever the model is asked, it gets the conversation that the turn began with, followed by
/// what the turn added; and every tool call in there is answered, each by its own id and in
/// the order in which the calls were asked for.
pub proof fn law_requests_answer_every_call<P, E>(
    run: LoopRun<P, E>,
    messages: Seq<MessageView>,
    tools: Seq<ToolDefinitionView>,
    started_at: Timestamp,
)
    requires
        run.from(messages, tools, started_at),
        run.actions.last() is SendRequest,
    ensures
        ({
            let sent = run.actions.last()->SendRequest_messages;
            &&& messages.is_prefix_of(sent)
            &&& unanswered(sent.skip(messages.len() as int)) == Some(Seq::<ToolCallView>::empty())
        }),
{
    if run.inputs.len() > 0 {
        lemma_shorter(run, messages, tools, started_at);
    }
    law_books_are_kept(run, messages, tools, started_at);
}

/// The messages of the latest request.
pub open spec fn latest_request<P, E>(actions: Seq<LoopActionView<P, E>>) -> Seq<MessageView>
    decreases actions.len(),
{
    if actions.len() == 0 {
        Seq::empty()
    } else {
        match actions.last() {
            LoopActionView::SendRequest { messages, .. } => messages,
            _ => latest_request(actions.drop_last()),
        }
    }
}

/// While the model's answer is awaited or comes in, the conversation is the one it was sent.
pub proof fn lemma_latest_request<P, E>(
    run: LoopRun<P, E>,
    messages: Seq<MessageView>,
    tools: Seq<ToolDefinitionView>,
    started_at: Timestamp,
)
    requires
        run.from(messages, tools, started_at),
    ensures
        ({
            let s = run.states.last();
            &&& s.started_at == started_at
            &&& s.phase is Requesting || s.phase is Streaming || s.phase is Starting
                ==> latest_request(run.actions) == s.messages
        }),
    decreases run.inputs.len(),
{
    if run.inputs.len() > 0 {
        lemma_shorter(run, messages, tools, started_at);
        lemma_latest_request(run.shorter(), messages, tools, started_at);
    }
}

/// The trace of a turn is true: it holds the messages that the model was last sent, the time
/// at which the turn began, and exactly the calls that the turn put into the conversation, each
/// with the result by which the conversation answers it.
pub proof fn law_summary_is_true<P, E>(
    run: LoopRun<P, E>,
    messages: Seq<MessageView>,
    tools: Seq<ToolDefinitionView>,
    started_at: Timestamp,
)
    requires
        run.from(messages, tools, started_at),
        run.actions.last() is HandleTurn,
    ensures
        ({
            let summary = run.actions.last()->HandleTurn_0;
            let added = summary.messages_to_llm.skip(messages.len() as int);
            &&& summary.started_at == started_at
            &&& summary.messages_to_llm == latest_request(run.actions)
            &&& messages.is_prefix_of(summary.messages_to_llm)
            &&& unanswered(added) == Some(Seq::<ToolCallView>::empty())
            &&& asked_calls(added) == summary.tool_calls.map_values(
                |record: RecordedView| recorded_call(record),
            )
            &&& answers(added) == summary.tool_calls.map_values(
                |record: RecordedView| recorded_answer(record),
            )
        }),
{
    lemma_shorter(run, messages, tools, started_at);
    let cut = run.shorter();
    law_books_are_kept(cut, messages, tools, started_at);
    lemma_latest_request(cut, messages, tools, started_at);
    let recorded = cut.states.last().recorded;
    assert(recorded.map_values(|record: RecordedView| recorded_call(record)) + Seq::<
        ToolCallView,
    >::empty() =~= recorded.map_values(|record: RecordedView| recorded_call(record)));
}

/// The id and name of the call that the listener was told to expect a report on, given what it
/// was sent: `Ok(None)` where none is awaited, `Err` where the news do not fit together.
pub open spec fn awaited_report<P, E>(actions: Seq<LoopActionView<P, E>>) -> Result<
    Option<(Seq<char>, Seq<char>)>,
    (),
>
    decreases actions.len(),
{
    if actions.len() == 0 {
        Ok(None)
    } else {
        match (awaited_report(actions.drop_last()), actions.last()) {
            (
                Ok(awaited),
                LoopActionView::Emit(AgentEventView::ToolCallReady { id, name, .. }),
            ) => if awaited is None {
                Ok(Some((id, name)))
            } else {
                Err(())
            },
            (
                Ok(awaited),
                LoopActionView::Emit(AgentEventView::ToolCallFinished { id, name, .. }),
            ) => if awaited == Some((id, name)) {
                Ok(None)
            } else {
                Err(())
            },
            (
                Ok(awaited),
                LoopActionView::Emit(AgentEventView::ToolCallFailed { id, name, .. }),
            ) => if awaited == Some((id, name)) {
                Ok(None)
            } else {
                Err(())
            },
            (awaited, _) => awaited,
        }
    }
}

/// The call on which the loop still owes a report.
pub open spec fn owed_report(phase: PhaseView) -> Option<(Seq<char>, Seq<char>)> {
    match phase {
        PhaseView::Announcing { call, .. } => Some((call.id, call.name)),
        PhaseView::Choosing { call, .. } => Some((call.id, call.name)),
        PhaseView::Calling { call, .. } => Some((call.id, call.name)),
        _ => None,
    }
}

/// The listener's news fit together: no call is announced while the report on another is due,
/// no report comes that is not due, and as long as the turn goes on the report that is due is
/// that on the call at hand.
pub proof fn law_every_announcement_is_reported<P, E>(
    run: LoopRun<P, E>,
    messages: Seq<MessageView>,
    tools: Seq<ToolDefinitionView>,
    started_at: Timestamp,
)
    requires
        run.from(messages, tools, started_at),
    ensures
        awaited_report(run.actions) is Ok,
        !(run.states.last().phase is Finished) ==> awaited_report(run.actions) == Ok::<_, ()>(
            owed_report(run.states.last().phase),
        ),
    decreases run.inputs.len(),
{
    if run.inputs.len() > 0 {
        lemma_shorter(run, messages, tools, started_at);
        law_every_announcement_is_reported(run.shorter(), messages, tools, started_at);
        assert(run.actions.drop_last() == run.shorter().actions);
        let s = run.shorter().states.last();
        if s.phase is Reporting {
            assert(owed_report(s.phase) is None);
        }
    } else {
        assert(run.actions.drop_last() =~= Seq::empty());
        assert(awaited_report(run.actions.drop_last()) == Ok::<
            Option<(Seq<char>, Seq<char>)>,
            (),
        >(None));
    }
}

/// The turn is handed over only where every announced call was reported.
pub proof fn law_complete_turns_leave_no_report_due<P, E>(
    run: LoopRun<P, E>,
    messages: Seq<MessageView>,
    tools: Seq<ToolDefinitionView>,
    started_at: Timestamp,
)
    requires
        run.from(messages, tools, started_at),
        run.actions.last() is HandleTurn,
    ensures
        awaited_report(run.actions) == Ok::<Option<(Seq<char>, Seq<char>)>, ()>(None),
{
    lemma_shorter(run, messages, tools, started_at);
    law_every_announcement_is_reported(run.shorter(), messages, tools, started_at);
    assert(run.actions.drop_last() == run.shorter().actions);
}

/// A turn fails for want of an end exactly after the last request that is allowed, and with
/// that error: before it, calls that were all answered are followed by another request.
pub proof fn law_answered_calls_lead_to_the_next_request<P, E>(
    s: LoopView,
    t: LoopView,
    action: LoopActionView<P, E>,
)
    requires
        s.wf(),
        s.phase is Reporting,
        s.phase->Reporting_rest.len() == 0,
        agent_loop::steps(s, LoopInputView::Delivered(true), t, action),
    ensures
        s.iterations < MAX_TOOL_ITERATIONS ==> action == (LoopActionView::<P, E>::SendRequest {
            messages: t.messages,
            tools: s.tools,
        }) && t.iterations == s.iterations + 1,
        s.iterations == MAX_TOOL_ITERATIONS ==> action == LoopActionView::<P, E>::Fail(
            crate::llm::LlmError::IterationsExceeded,
        ),
{
}

/// Where the listener has gone, the turn stops at once and nothing more is sent.
pub proof fn law_lost_listener_stops_the_turn<P, E>(
    s: LoopView,
    t: LoopView,
    action: LoopActionView<P, E>,
)
    requires
        agent_loop::expects(s.phase, LoopInputView::<E>::Delivered(false)),
        agent_loop::steps(s, LoopInputView::Delivered(false), t, action),
    ensures
        action is Stop,
        t.phase is Finished,
{
}

/// The calls that a sequence of increments leaves gathered.
pub open spec fn gathered_calls(events: Seq<LlmEventView>) -> Map<usize, PartialView>
    decreases events.len(),
{
    if events.len() == 0 {
        Map::empty()
    } else {
        let before = gathered_calls(events.drop_last());
        match events.last() {
            LlmEventView::ToolCallDelta { index, id, name, arguments_delta } =>
                tool_calls::after_delta(before, index, id, name, arguments_delta),
            _ => before,
        }
    }
}

/// The text that a sequence of increments makes up.
pub open spec fn gathered_text(events: Seq<LlmEventView>) -> Seq<char>
    decreases events.len(),
{
    if events.len() == 0 {
        Seq::empty()
    } else {
        match events.last() {
            LlmEventView::TextDelta(delta) => gathered_text(events.drop_last()) + delta,
            _ => gathered_text(events.drop_last()),
        }
    }
}

/// The arguments that a sequence of increments makes up for one index.
pub open spec fn gathered_arguments(events: Seq<LlmEventView>, at: usize) -> Seq<char>
    decreases events.len(),
{
    if events.len() == 0 {
        Seq::empty()
    } else {
        match events.last() {
            LlmEventView::ToolCallDelta { index, arguments_delta, .. } if index == at =>
                gathered_arguments(events.drop_last(), at) + arguments_delta,
            _ => gathered_arguments(events.drop_last(), at),
        }
    }
}

/// The pieces of the arguments of one call come together in their order, however the deltas of
/// several calls are interleaved.
pub proof fn law_arguments_come_together(events: Seq<LlmEventView>, at: usize)
    ensures
        tool_calls::partial_at(gathered_calls(events), at).arguments == gathered_arguments(
            events,
            at,
        ),
    decreases events.len(),
{
    if events.len() > 0 {
        law_arguments_come_together(events.drop_last(), at);
    }
}

/// The increments of the stream that is open.
pub open spec fn current_stream<E>(inputs: Seq<LoopInputView<E>>) -> Seq<LlmEventView>
    decreases inputs.len(),
{
    if inputs.len() == 0 {
        Seq::empty()
    } else {
        match inputs.last() {
            LoopInputView::StreamOpened => Seq::empty(),
            LoopInputView::Streamed(event) => current_stream(inputs.drop_last()).push(event),
            _ => current_stream(inputs.drop_last()),
        }
    }
}

/// While a stream is open, the loop holds exactly what the stream has brought so far: nothing
/// of an earlier request, and nothing lost.
pub proof fn law_stream_is_gathered<P, E>(
    run: LoopRun<P, E>,
    messages: Seq<MessageView>,
    tools: Seq<ToolDefinitionView>,
    started_at: Timestamp,
)
    requires
        run.from(messages, tools, started_at),
    ensures
        match run.states.last().phase {
            PhaseView::Streaming { partials, text } => {
                &&& partials == gathered_calls(current_stream(run.inputs))
                &&& text == gathered_text(current_stream(run.inputs))
            },
            PhaseView::Starting { partials, text } => {
                &&& partials == gathered_calls(current_stream(run.inputs))
                &&& text == gathered_text(current_stream(run.inputs))
            },
            _ => true,
        },
    decreases run.inputs.len(),
{
    if run.inputs.len() > 0 {
        lemma_shorter(run, messages, tools, started_at);
        law_stream_is_gathered(run.shorter(), messages, tools, started_at);
        let before = current_stream(run.inputs.drop_last());
        match run.inputs.last() {
            LoopInputView::Streamed(event) => {
                assert(before.push(event).drop_last() =~= before);
            },
            _ => {},
        }
    }
}

/// At the end of a stream the turn is handed over exactly if the stream brought no tool calls.
pub proof fn law_turn_is_handed_over_without_calls<P, E>(
    s: LoopView,
    now: Timestamp,
    t: LoopView,
    action: LoopActionView<P, E>,
)
    requires
        s.phase is Streaming,
        agent_loop::steps(s, LoopInputView::StreamEnded { now }, t, action),
    ensures
        action is HandleTurn <==> s.phase->Streaming_partials == Map::<usize, PartialView>::empty(),
{
    let partials = s.phase->Streaming_partials;
    let text = s.phase->Streaming_text;
    let calls = choose|calls: Seq<ToolCallView>| #[trigger]
        tool_calls::lists_calls(partials, calls) && (t, action) == agent_loop::on_stream_ended::<P, E>(s, text, calls, now);
    let order = choose|order: Seq<usize>| tool_calls::lists_in_order(partials, order, calls);
    assert(order.len() == calls.len());
    if order.len() == 0 {
        assert(order.to_set() =~= Set::empty());
        assert(partials =~= Map::empty());
    } else {
        assert(order.to_set().contains(order[0]));
        assert(partials.contains_key(order[0]));
    }
}

/// The turn is handed over at the end of a stream that brought no tool calls, with the text
/// that this stream brought and the time at which it ended.
pub proof fn law_final_text_is_the_last_answer<P, E>(
    run: LoopRun<P, E>,
    messages: Seq<MessageView>,
    tools: Seq<ToolDefinitionView>,
    started_at: Timestamp,
)
    requires
        run.from(messages, tools, started_at),
        run.actions.last() is HandleTurn,
    ensures
        ({
            let summary = run.actions.last()->HandleTurn_0;
            let stream = current_stream(run.inputs);
            &&& run.inputs.len() > 0
            &&& run.inputs.last() == (LoopInputView::<E>::StreamEnded { now: summary.ended_at })
            &&& gathered_calls(stream) == Map::<usize, PartialView>::empty()
            &&& summary.final_assistant_text == gathered_text(stream)
        }),
{
    lemma_shorter(run, messages, tools, started_at);
    let cut = run.shorter();
    law_stream_is_gathered(cut, messages, tools, started_at);
    let s = cut.states.last();
    assert(s.phase is Streaming && run.inputs.last() is StreamEnded);
    law_turn_is_handed_over_without_calls(
        s,
        run.inputs.last()->now,
        run.states.last(),
        run.actions.last(),
    );
}

} // verus!
