//! The loop of an agent's turn, as a machine that is told what happened and says what to do.
//!
//! The caller owns the model, the tools and the channel to the listener. It carries out each
//! [`LoopAction`], and hands what came of it to [`AgentLoop::step`] as a [`LoopInput`].

use std::collections::HashMap;
use vstd::prelude::*;
use crate::agent::{AgentEvent, AgentEventView};
use crate::dispatch::{
    self, CallDecision, CallDecisionView, RecordedToolCall, RecordedView, ToolCallResult,
    ToolCallResultView,
};
use crate::ids::Timestamp;
use crate::json;
use crate::llm::{LlmError, LlmEvent, LlmEventView};
use crate::message::{self, Message, MessageView, ToolCallView};
use crate::summary;
use crate::tool::{self, ToolDefinition, ToolDefinitionView};
use crate::tool_calls::{self, CompletedToolCall, PartialToolCall, PartialView};

verus! {

/// How many times the model is asked in one turn.
pub const MAX_TOOL_ITERATIONS: usize = 4;

/// The complete trace of one turn.
#[derive(Debug)]
pub struct TurnSummary {
    pub final_assistant_text: String,
    pub messages_to_llm: Vec<Message>,
    pub tool_calls: Vec<RecordedToolCall>,
    pub started_at: Timestamp,
    pub ended_at: Timestamp,
}

/// The model of a [`TurnSummary`].
pub struct TurnSummaryView {
    pub final_assistant_text: Seq<char>,
    pub messages_to_llm: Seq<MessageView>,
    pub tool_calls: Seq<RecordedView>,
    pub started_at: Timestamp,
    pub ended_at: Timestamp,
}

impl View for TurnSummary {
    type V = TurnSummaryView;

    open spec fn view(&self) -> TurnSummaryView {
        TurnSummaryView {
            final_assistant_text: self.final_assistant_text@,
            messages_to_llm: message::message_views(self.messages_to_llm@),
            tool_calls: dispatch::recorded_views(self.tool_calls@),
            started_at: self.started_at,
            ended_at: self.ended_at,
        }
    }
}

/// What happened since the last step.
pub enum LoopInput<E> {
    /// The model took the request and opened a stream.
    StreamOpened,
    /// The model did not take the request, for this reason.
    RequestFailed(E),
    /// The stream brought an increment.
    Streamed(LlmEvent),
    /// The stream broke off, for this reason.
    StreamFailed(E),
    /// The stream ended, at this time.
    StreamEnded { now: Timestamp },
    /// An event was sent, and the listener was there to take it, or not.
    Delivered(bool),
    /// The names of the tools, in their order.
    ToolNames(Vec<String>),
    /// A tool returned its result, or the text of its error.
    ToolReturned(Result<String, String>),
}

/// The model of a [`LoopInput`].
pub enum LoopInputView<E> {
    StreamOpened,
    RequestFailed(E),
    Streamed(LlmEventView),
    StreamFailed(E),
    StreamEnded { now: Timestamp },
    Delivered(bool),
    ToolNames(Seq<Seq<char>>),
    ToolReturned(ToolCallResultView),
}

/// What a tool returned, as a result of its call.
pub open spec fn returned_view(returned: Result<String, String>) -> ToolCallResultView {
    match returned {
        Ok(content) => ToolCallResultView::Succeeded { content: content@ },
        Err(error) => ToolCallResultView::Failed { error: error@ },
    }
}

impl<E> View for LoopInput<E> {
    type V = LoopInputView<E>;

    open spec fn view(&self) -> LoopInputView<E> {
        match self {
            LoopInput::StreamOpened => LoopInputView::StreamOpened,
            LoopInput::RequestFailed(error) => LoopInputView::RequestFailed(*error),
            LoopInput::Streamed(event) => LoopInputView::Streamed(event@),
            LoopInput::StreamFailed(error) => LoopInputView::StreamFailed(*error),
            LoopInput::StreamEnded { now } => LoopInputView::StreamEnded { now: *now },
            LoopInput::Delivered(taken) => LoopInputView::Delivered(*taken),
            LoopInput::ToolNames(names) => LoopInputView::ToolNames(tool::texts(names@)),
            LoopInput::ToolReturned(returned) => LoopInputView::ToolReturned(
                returned_view(*returned),
            ),
        }
    }
}

/// What to do next.
pub enum LoopAction<P, E> {
    /// Ask the model, offering it these tools.
    SendRequest { messages: Vec<Message>, tools: Vec<ToolDefinition> },
    /// Wait for the stream.
    AwaitStream,
    /// Send an event to the listener.
    Emit(AgentEvent<P>),
    /// Tell the names of the tools.
    ListTools,
    /// Run the tool at this place of the list.
    CallTool { tool: usize, arguments: serde_json::Value },
    /// Hand the turn over: it is complete.
    HandleTurn(TurnSummary),
    /// Send the listener this error, which was just met: the turn is over.
    ForwardError(E),
    /// Send the listener this error: the turn is over.
    Fail(LlmError),
    /// Do nothing more: the listener has gone.
    Stop,
}

/// The model of a [`LoopAction`].
pub enum LoopActionView<P, E> {
    SendRequest { messages: Seq<MessageView>, tools: Seq<ToolDefinitionView> },
    AwaitStream,
    Emit(AgentEventView<P>),
    ListTools,
    CallTool { tool: int, arguments: serde_json::Value },
    HandleTurn(TurnSummaryView),
    ForwardError(E),
    Fail(LlmError),
    Stop,
}

impl<P, E> View for LoopAction<P, E> {
    type V = LoopActionView<P, E>;

    open spec fn view(&self) -> LoopActionView<P, E> {
        match self {
            LoopAction::SendRequest { messages, tools } => LoopActionView::SendRequest {
                messages: message::message_views(messages@),
                tools: tool::definition_views(tools@),
            },
            LoopAction::AwaitStream => LoopActionView::AwaitStream,
            LoopAction::Emit(event) => LoopActionView::Emit(event@),
            LoopAction::ListTools => LoopActionView::ListTools,
            LoopAction::CallTool { tool, arguments } => LoopActionView::CallTool {
                tool: *tool as int,
                arguments: *arguments,
            },
            LoopAction::HandleTurn(summary) => LoopActionView::HandleTurn(summary@),
            LoopAction::ForwardError(error) => LoopActionView::ForwardError(*error),
            LoopAction::Fail(error) => LoopActionView::Fail(*error),
            LoopAction::Stop => LoopActionView::Stop,
        }
    }
}

/// Where in the turn the loop stands, and what it waits for there.
enum LoopPhase {
    Requesting,
    Streaming { partials: HashMap<usize, PartialToolCall>, text: String },
    Starting { partials: HashMap<usize, PartialToolCall>, text: String },
    Announcing { call: CompletedToolCall, rest: Vec<CompletedToolCall> },
    Choosing { call: CompletedToolCall, rest: Vec<CompletedToolCall> },
    Calling { call: CompletedToolCall, rest: Vec<CompletedToolCall> },
    Reporting { call: CompletedToolCall, result: ToolCallResult, rest: Vec<CompletedToolCall> },
    Finished,
}

/// Where in the turn the loop stands.
pub enum PhaseView {
    /// A request is on its way to the model.
    Requesting,
    /// The answer streams in: the calls and the text that have come.
    Streaming { partials: Map<usize, PartialView>, text: Seq<char> },
    /// As before, while the listener is told that a call starts.
    Starting { partials: Map<usize, PartialView>, text: Seq<char> },
    /// The listener is told that `call` is about to be carried out; `rest` waits.
    Announcing { call: ToolCallView, rest: Seq<ToolCallView> },
    /// The tool for `call` is being looked up.
    Choosing { call: ToolCallView, rest: Seq<ToolCallView> },
    /// The tool for `call` runs.
    Calling { call: ToolCallView, rest: Seq<ToolCallView> },
    /// The listener is told what came of `call`.
    Reporting { call: ToolCallView, result: ToolCallResultView, rest: Seq<ToolCallView> },
    /// The turn is over.
    Finished,
}

impl View for LoopPhase {
    type V = PhaseView;

    closed spec fn view(&self) -> PhaseView {
        match self {
            LoopPhase::Requesting => PhaseView::Requesting,
            LoopPhase::Streaming { partials, text } => PhaseView::Streaming {
                partials: tool_calls::partial_views(partials@),
                text: text@,
            },
            LoopPhase::Starting { partials, text } => PhaseView::Starting {
                partials: tool_calls::partial_views(partials@),
                text: text@,
            },
            LoopPhase::Announcing { call, rest } => PhaseView::Announcing {
                call: call@,
                rest: tool_calls::completed_views(rest@),
            },
            LoopPhase::Choosing { call, rest } => PhaseView::Choosing {
                call: call@,
                rest: tool_calls::completed_views(rest@),
            },
            LoopPhase::Calling { call, rest } => PhaseView::Calling {
                call: call@,
                rest: tool_calls::completed_views(rest@),
            },
            LoopPhase::Reporting { call, result, rest } => PhaseView::Reporting {
                call: call@,
                result: result@,
                rest: tool_calls::completed_views(rest@),
            },
            LoopPhase::Finished => PhaseView::Finished,
        }
    }
}

/// What a turn keeps from one request to the next.
struct Turn {
    started_at: Timestamp,
    iterations: usize,
    tools: Vec<ToolDefinition>,
    messages: Vec<Message>,
    recorded: Vec<RecordedToolCall>,
}

impl Turn {
    /// The turn at this point of the loop.
    spec fn with(self, phase: PhaseView) -> LoopView {
        LoopView {
            started_at: self.started_at,
            iterations: self.iterations as nat,
            tools: tool::definition_views(self.tools@),
            messages: message::message_views(self.messages@),
            recorded: dispatch::recorded_views(self.recorded@),
            phase,
        }
    }
}

/// The loop of one turn.
pub struct AgentLoop {
    turn: Turn,
    phase: LoopPhase,
}

/// The model of an [`AgentLoop`].
pub struct LoopView {
    pub started_at: Timestamp,
    /// How many times the model was asked.
    pub iterations: nat,
    /// The tools that the model is offered.
    pub tools: Seq<ToolDefinitionView>,
    /// The conversation so far.
    pub messages: Seq<MessageView>,
    /// The calls that were carried out.
    pub recorded: Seq<RecordedView>,
    pub phase: PhaseView,
}

impl View for AgentLoop {
    type V = LoopView;

    closed spec fn view(&self) -> LoopView {
        self.turn.with(self.phase@)
    }
}

/// Whether every gathered call was started, and so has its id and its name.
pub open spec fn all_started(partials: Map<usize, PartialView>) -> bool {
    forall|index: usize| #[trigger]
        partials.contains_key(index) ==> partials[index].started && tool_calls::is_complete(
            partials[index],
        )
}

impl LoopView {
    /// The invariant of the loop: the model was asked at least once and not too often, and
    /// every gathered call can be carried out.
    pub open spec fn wf(self) -> bool {
        &&& 1 <= self.iterations <= MAX_TOOL_ITERATIONS
        &&& match self.phase {
            PhaseView::Streaming { partials, .. } => all_started(partials),
            PhaseView::Starting { partials, .. } => all_started(partials),
            _ => true,
        }
    }

    /// The loop at another point of the turn.
    pub open spec fn at(self, phase: PhaseView) -> LoopView {
        LoopView { phase, ..self }
    }

    /// The loop after the turn: nothing is kept of the conversation.
    pub open spec fn finished(self) -> LoopView {
        LoopView {
            messages: Seq::empty(),
            recorded: Seq::empty(),
            phase: PhaseView::Finished,
            ..self
        }
    }
}

/// What can happen while the loop stands where it does. A tool's result must be one that can
/// be summarized.
pub open spec fn expects<E>(phase: PhaseView, input: LoopInputView<E>) -> bool {
    match phase {
        PhaseView::Requesting => input is StreamOpened || input is RequestFailed,
        PhaseView::Streaming { .. } => input is Streamed || input is StreamFailed
            || input is StreamEnded,
        PhaseView::Starting { .. } => input is Delivered,
        PhaseView::Announcing { .. } => input is Delivered,
        PhaseView::Choosing { .. } => input is ToolNames,
        PhaseView::Calling { .. } => input is ToolReturned && dispatch::reportable(
            input->ToolReturned_0,
        ),
        PhaseView::Reporting { .. } => input is Delivered,
        PhaseView::Finished => false,
    }
}

/// The loop of a turn that begins, which asks the model for the first time.
pub open spec fn initial(
    messages: Seq<MessageView>,
    tools: Seq<ToolDefinitionView>,
    started_at: Timestamp,
) -> LoopView {
    LoopView {
        started_at,
        iterations: 1,
        tools,
        messages,
        recorded: Seq::empty(),
        phase: PhaseView::Requesting,
    }
}

/// The step on an increment of the stream.
pub open spec fn on_streamed<P, E>(
    s: LoopView,
    partials: Map<usize, PartialView>,
    text: Seq<char>,
    event: LlmEventView,
) -> (LoopView, LoopActionView<P, E>) {
    match event {
        LlmEventView::TextDelta(delta) => (
            s.at(PhaseView::Streaming { partials, text: text + delta }),
            LoopActionView::AwaitStream,
        ),
        LlmEventView::ToolCallDelta { index, id, name, arguments_delta } => {
            let after = tool_calls::after_delta(partials, index, id, name, arguments_delta);
            match tool_calls::delta_news::<P>(partials, index, id, name) {
                None => (
                    s.at(PhaseView::Streaming { partials: after, text }),
                    LoopActionView::AwaitStream,
                ),
                Some(Ok(event)) => (
                    s.at(PhaseView::Starting { partials: after, text }),
                    LoopActionView::Emit(event),
                ),
                Some(Err(error)) => (s.finished(), LoopActionView::Fail(error)),
            }
        },
    }
}

/// The step that turns to the first of the calls that wait.
pub open spec fn on_next_call<P, E>(s: LoopView, calls: Seq<ToolCallView>) -> (
    LoopView,
    LoopActionView<P, E>,
) {
    (
        s.at(PhaseView::Announcing { call: calls[0], rest: calls.drop_first() }),
        LoopActionView::Emit(dispatch::ready_event(calls[0])),
    )
}

/// The step at the end of a stream that brought `text` and `calls`: without calls the turn is
/// complete, else they go into the conversation and the first is turned to.
pub open spec fn on_stream_ended<P, E>(
    s: LoopView,
    text: Seq<char>,
    calls: Seq<ToolCallView>,
    now: Timestamp,
) -> (LoopView, LoopActionView<P, E>) {
    if calls.len() == 0 {
        (
            s.finished(),
            LoopActionView::HandleTurn(
                TurnSummaryView {
                    final_assistant_text: text,
                    messages_to_llm: s.messages,
                    tool_calls: s.recorded,
                    started_at: s.started_at,
                    ended_at: now,
                },
            ),
        )
    } else {
        on_next_call(
            LoopView {
                messages: s.messages.push(MessageView::Assistant { text, tool_calls: calls }),
                ..s
            },
            calls,
        )
    }
}

/// The step on a decision about a call.
pub open spec fn on_decided<P, E>(
    s: LoopView,
    call: ToolCallView,
    rest: Seq<ToolCallView>,
    decision: CallDecisionView,
) -> (LoopView, LoopActionView<P, E>) {
    match decision {
        CallDecisionView::Run { tool, arguments } => (
            s.at(PhaseView::Calling { call, rest }),
            LoopActionView::CallTool { tool, arguments },
        ),
        CallDecisionView::Refuse { error } => on_result(
            s,
            call,
            rest,
            ToolCallResultView::Failed { error },
        ),
    }
}

/// The step on the result of a call.
pub open spec fn on_result<P, E>(
    s: LoopView,
    call: ToolCallView,
    rest: Seq<ToolCallView>,
    result: ToolCallResultView,
) -> (LoopView, LoopActionView<P, E>) {
    (
        s.at(PhaseView::Reporting { call, result, rest }),
        LoopActionView::Emit(dispatch::report_event(call, result)),
    )
}

/// The step after a call was reported: it is answered and recorded. Then comes the next call,
/// or the model is asked again, or, if it was asked often enough, the turn fails.
pub open spec fn on_reported<P, E>(
    s: LoopView,
    call: ToolCallView,
    result: ToolCallResultView,
    rest: Seq<ToolCallView>,
) -> (LoopView, LoopActionView<P, E>) {
    let answered = LoopView {
        messages: s.messages.push(dispatch::answer_message(call, result)),
        recorded: s.recorded.push(dispatch::record_of(call, result)),
        ..s
    };
    if rest.len() > 0 {
        on_next_call(answered, rest)
    } else if s.iterations < MAX_TOOL_ITERATIONS {
        (
            LoopView {
                iterations: s.iterations + 1,
                phase: PhaseView::Requesting,
                ..answered
            },
            LoopActionView::SendRequest { messages: answered.messages, tools: s.tools },
        )
    } else {
        (answered.finished(), LoopActionView::Fail(LlmError::IterationsExceeded))
    }
}

/// The step on every input but the end of a stream.
pub open spec fn next<P, E>(s: LoopView, input: LoopInputView<E>) -> (LoopView, LoopActionView<P, E>) {
    match (s.phase, input) {
        (PhaseView::Requesting, LoopInputView::StreamOpened) => (
            s.at(PhaseView::Streaming { partials: Map::empty(), text: Seq::empty() }),
            LoopActionView::AwaitStream,
        ),
        (PhaseView::Requesting, LoopInputView::RequestFailed(error)) => (
            s.finished(),
            LoopActionView::ForwardError(error),
        ),
        (PhaseView::Streaming { partials, text }, LoopInputView::Streamed(event)) => on_streamed(
            s,
            partials,
            text,
            event,
        ),
        (PhaseView::Streaming { .. }, LoopInputView::StreamFailed(error)) => (
            s.finished(),
            LoopActionView::ForwardError(error),
        ),
        (PhaseView::Starting { partials, text }, LoopInputView::Delivered(true)) => (
            s.at(PhaseView::Streaming { partials, text }),
            LoopActionView::AwaitStream,
        ),
        (PhaseView::Announcing { call, rest }, LoopInputView::Delivered(true)) => (
            s.at(PhaseView::Choosing { call, rest }),
            LoopActionView::ListTools,
        ),
        (PhaseView::Choosing { call, rest }, LoopInputView::ToolNames(names)) => on_decided(
            s,
            call,
            rest,
            dispatch::decided(names, call.name, json::parsed_arguments(call.arguments)),
        ),
        (PhaseView::Calling { call, rest }, LoopInputView::ToolReturned(result)) => on_result(
            s,
            call,
            rest,
            result,
        ),
        (PhaseView::Reporting { call, result, rest }, LoopInputView::Delivered(true)) =>
            on_reported(s, call, result, rest),
        _ => (s.finished(), LoopActionView::Stop),
    }
}

/// Whether a step may lead from `s` to `t` with this action. Only the order of calls with the
/// same id is open, at the end of a stream.
pub open spec fn steps<P, E>(
    s: LoopView,
    input: LoopInputView<E>,
    t: LoopView,
    action: LoopActionView<P, E>,
) -> bool {
    match (s.phase, input) {
        (PhaseView::Streaming { partials, text }, LoopInputView::StreamEnded { now }) =>
            exists|calls: Seq<ToolCallView>| #[trigger]
                tool_calls::lists_calls(partials, calls) && (t, action) == on_stream_ended::<P, E>(
                    s,
                    text,
                    calls,
                    now,
                ),
        _ => (t, action) == next::<P, E>(s, input),
    }
}

impl AgentLoop {
    #[verifier::type_invariant]
    spec fn invariant_holds(self) -> bool {
        self@.wf()
    }

    /// Begins a turn with the conversation so far and the tools that the model is offered.
    pub fn new<P, E>(
        messages: Vec<Message>,
        tools: Vec<ToolDefinition>,
        started_at: Timestamp,
    ) -> (begun: (
        AgentLoop,
        LoopAction<P, E>,
    ))
        ensures
            begun.0@ == initial(
                message::message_views(messages@),
                tool::definition_views(tools@),
                started_at,
            ),
            begun.0@.wf(),
            begun.1@ == (LoopActionView::<P, E>::SendRequest {
                messages: message::message_views(messages@),
                tools: tool::definition_views(tools@),
            }),
    {
        let request = message::copy_messages(&messages);
        let offered = tool::copy_definitions(&tools);
        let recorded: Vec<RecordedToolCall> = Vec::new();
        assert(dispatch::recorded_views(recorded@) =~= Seq::empty());
        let turn = Turn { started_at, iterations: 1, tools, messages, recorded };
        (
            AgentLoop { turn, phase: LoopPhase::Requesting },
            LoopAction::SendRequest { messages: request, tools: offered },
        )
    }

    /// The loop after the turn.
    fn finished(turn: Turn) -> (done: AgentLoop)
        requires
            1 <= turn.iterations <= MAX_TOOL_ITERATIONS,
        ensures
            done@ == turn.with(PhaseView::Finished).finished(),
            done@.wf(),
    {
        let messages: Vec<Message> = Vec::new();
        let recorded: Vec<RecordedToolCall> = Vec::new();
        assert(message::message_views(messages@) =~= Seq::empty());
        assert(dispatch::recorded_views(recorded@) =~= Seq::empty());
        let kept = Turn {
            started_at: turn.started_at,
            iterations: turn.iterations,
            tools: turn.tools,
            messages,
            recorded,
        };
        AgentLoop { turn: kept, phase: LoopPhase::Finished }
    }

    /// Turns to the first of the calls that wait.
    fn to_next_call<P, E>(turn: Turn, calls: Vec<CompletedToolCall>) -> (result: (
        AgentLoop,
        LoopAction<P, E>,
    ))
        requires
            1 <= turn.iterations <= MAX_TOOL_ITERATIONS,
            calls@.len() > 0,
        ensures
            result.0@.wf(),
            (result.0@, result.1@) == on_next_call::<P, E>(
                turn.with(PhaseView::Finished),
                tool_calls::completed_views(calls@),
            ),
    {
        let ghost all = calls@;
        let mut rest = calls;
        let call = rest.remove(0);
        assert(tool_calls::completed_views(rest@) =~= tool_calls::completed_views(
            all,
        ).drop_first());
        let event = dispatch::announce(&call);
        (AgentLoop { turn, phase: LoopPhase::Announcing { call, rest } }, LoopAction::Emit(event))
    }

    /// Goes on with an increment of the stream.
    fn streamed<P, E>(
        turn: Turn,
        partials: HashMap<usize, PartialToolCall>,
        text: String,
        event: LlmEvent,
    ) -> (result: (AgentLoop, LoopAction<P, E>))
        requires
            1 <= turn.iterations <= MAX_TOOL_ITERATIONS,
            all_started(tool_calls::partial_views(partials@)),
        ensures
            result.0@.wf(),
            (result.0@, result.1@) == on_streamed::<P, E>(
                turn.with(PhaseView::Finished),
                tool_calls::partial_views(partials@),
                text@,
                event@,
            ),
    {
        let mut partials = partials;
        let mut text = text;
        match event {
            LlmEvent::TextDelta(delta) => {
                text.append(delta.as_str());
                (
                    AgentLoop { turn, phase: LoopPhase::Streaming { partials, text } },
                    LoopAction::AwaitStream,
                )
            },
            LlmEvent::ToolCallDelta { index, id, name, arguments_delta } => {
                let news = tool_calls::apply_tool_call_delta(
                    &mut partials,
                    index,
                    id,
                    name,
                    arguments_delta.as_str(),
                );
                match news {
                    None => (
                        AgentLoop { turn, phase: LoopPhase::Streaming { partials, text } },
                        LoopAction::AwaitStream,
                    ),
                    Some(Ok(event)) => (
                        AgentLoop { turn, phase: LoopPhase::Starting { partials, text } },
                        LoopAction::Emit(event),
                    ),
                    Some(Err(error)) => (Self::finished(turn), LoopAction::Fail(error)),
                }
            },
        }
    }

    /// Goes on at the end of a stream.
    fn stream_ended<P, E>(
        turn: Turn,
        partials: HashMap<usize, PartialToolCall>,
        text: String,
        now: Timestamp,
    ) -> (result: (AgentLoop, LoopAction<P, E>))
        requires
            1 <= turn.iterations <= MAX_TOOL_ITERATIONS,
            all_started(tool_calls::partial_views(partials@)),
        ensures
            result.0@.wf(),
            exists|calls: Seq<ToolCallView>| #[trigger]
                tool_calls::lists_calls(tool_calls::partial_views(partials@), calls) && (
                result.0@,
                result.1@,
                ) == on_stream_ended::<P, E>(turn.with(PhaseView::Finished), text@, calls, now),
    {
        let calls = match tool_calls::completed_tool_calls(partials) {
            Ok(calls) => calls,
            Err(error) => {
                return (Self::finished(turn), LoopAction::Fail(error));
            },
        };
        let ghost listed = tool_calls::completed_views(calls@);
        if calls.len() == 0 {
            let summary = TurnSummary {
                final_assistant_text: text,
                messages_to_llm: turn.messages,
                tool_calls: turn.recorded,
                started_at: turn.started_at,
                ended_at: now,
            };
            let kept = Turn {
                started_at: turn.started_at,
                iterations: turn.iterations,
                tools: turn.tools,
                messages: Vec::new(),
                recorded: Vec::new(),
            };
            (Self::finished(kept), LoopAction::HandleTurn(summary))
        } else {
            let mut turn = turn;
            let ghost before = turn.messages@;
            let tool_calls = tool_calls::to_tool_calls(&calls);
            let asked = Message::Assistant { text, tool_calls };
            let ghost added = asked@;
            turn.messages.push(asked);
            assert(message::message_views(turn.messages@) =~= message::message_views(before).push(
                added,
            ));
            Self::to_next_call(turn, calls)
        }
    }

    /// Reports the result of a call.
    fn to_report<P, E>(
        turn: Turn,
        call: CompletedToolCall,
        rest: Vec<CompletedToolCall>,
        result: ToolCallResult,
    ) -> (next: (AgentLoop, LoopAction<P, E>))
        requires
            1 <= turn.iterations <= MAX_TOOL_ITERATIONS,
            dispatch::reportable(result@),
        ensures
            next.0@.wf(),
            (next.0@, next.1@) == on_result::<P, E>(
                turn.with(PhaseView::Finished),
                call@,
                tool_calls::completed_views(rest@),
                result@,
            ),
    {
        let event = dispatch::report(&call, &result);
        (
            AgentLoop { turn, phase: LoopPhase::Reporting { call, result, rest } },
            LoopAction::Emit(event),
        )
    }

    /// Goes on after a decision about a call.
    fn decided<P, E>(
        turn: Turn,
        call: CompletedToolCall,
        rest: Vec<CompletedToolCall>,
        decision: CallDecision,
    ) -> (next: (AgentLoop, LoopAction<P, E>))
        requires
            1 <= turn.iterations <= MAX_TOOL_ITERATIONS,
        ensures
            next.0@.wf(),
            (next.0@, next.1@) == on_decided::<P, E>(
                turn.with(PhaseView::Finished),
                call@,
                tool_calls::completed_views(rest@),
                decision@,
            ),
    {
        match decision {
            CallDecision::Run { tool, arguments } => (
                AgentLoop { turn, phase: LoopPhase::Calling { call, rest } },
                LoopAction::CallTool { tool, arguments },
            ),
            CallDecision::Refuse { error } => Self::to_report(
                turn,
                call,
                rest,
                ToolCallResult::Failed { error },
            ),
        }
    }

    /// Goes on after a call was reported.
    fn reported<P, E>(
        turn: Turn,
        call: CompletedToolCall,
        result: ToolCallResult,
        rest: Vec<CompletedToolCall>,
    ) -> (next: (AgentLoop, LoopAction<P, E>))
        requires
            1 <= turn.iterations <= MAX_TOOL_ITERATIONS,
        ensures
            next.0@.wf(),
            (next.0@, next.1@) == on_reported::<P, E>(
                turn.with(PhaseView::Finished),
                call@,
                result@,
                tool_calls::completed_views(rest@),
            ),
    {
        let mut turn = turn;
        let ghost messages = turn.messages@;
        let ghost recorded = turn.recorded@;
        let answer = dispatch::answer(&call, &result);
        let record = dispatch::record(call, result);
        let ghost answer_view = answer@;
        let ghost record_view = record@;
        turn.messages.push(answer);
        turn.recorded.push(record);
        assert(message::message_views(turn.messages@) =~= message::message_views(messages).push(
            answer_view,
        ));
        assert(dispatch::recorded_views(turn.recorded@) =~= dispatch::recorded_views(
            recorded,
        ).push(record_view));
        if rest.len() > 0 {
            Self::to_next_call(turn, rest)
        } else if turn.iterations < MAX_TOOL_ITERATIONS {
            turn.iterations = turn.iterations + 1;
            let request = message::copy_messages(&turn.messages);
            let offered = tool::copy_definitions(&turn.tools);
            (
                AgentLoop { turn, phase: LoopPhase::Requesting },
                LoopAction::SendRequest { messages: request, tools: offered },
            )
        } else {
            (Self::finished(turn), LoopAction::Fail(LlmError::IterationsExceeded))
        }
    }

    /// Whether the loop waits for an input of this kind.
    pub fn expects<E>(&self, input: &LoopInput<E>) -> (answer: bool)
        ensures
            answer == expects(self@.phase, input@),
    {
        match (&self.phase, input) {
            (LoopPhase::Requesting, LoopInput::StreamOpened) => true,
            (LoopPhase::Requesting, LoopInput::RequestFailed(_)) => true,
            (LoopPhase::Streaming { .. }, LoopInput::Streamed(_)) => true,
            (LoopPhase::Streaming { .. }, LoopInput::StreamFailed(_)) => true,
            (LoopPhase::Streaming { .. }, LoopInput::StreamEnded { .. }) => true,
            (LoopPhase::Starting { .. }, LoopInput::Delivered(_)) => true,
            (LoopPhase::Announcing { .. }, LoopInput::Delivered(_)) => true,
            (LoopPhase::Choosing { .. }, LoopInput::ToolNames(_)) => true,
            (LoopPhase::Calling { .. }, LoopInput::ToolReturned(Ok(content))) =>
                summary::can_summarize(content.as_str()),
            (LoopPhase::Calling { .. }, LoopInput::ToolReturned(Err(_))) => true,
            (LoopPhase::Reporting { .. }, LoopInput::Delivered(_)) => true,
            _ => false,
        }
    }

    /// Takes one step: what happened leads to a new state and to what is to be done.
    pub fn step<P, E>(self, input: LoopInput<E>) -> (next: (AgentLoop, LoopAction<P, E>))
        requires
            expects(self@.phase, input@),
        ensures
            next.0@.wf(),
            steps::<P, E>(self@, input@, next.0@, next.1@),
    {
        proof {
            use_type_invariant(&self);
        }
        let AgentLoop { turn, phase } = self;
        match (phase, input) {
            (LoopPhase::Requesting, LoopInput::StreamOpened) => {
                let partials: HashMap<usize, PartialToolCall> = HashMap::new();
                assert(tool_calls::partial_views(partials@) =~= Map::empty());
                let text = String::new();
                (
                    AgentLoop { turn, phase: LoopPhase::Streaming { partials, text } },
                    LoopAction::AwaitStream,
                )
            },
            (LoopPhase::Requesting, LoopInput::RequestFailed(error)) => (
                Self::finished(turn),
                LoopAction::ForwardError(error),
            ),
            (LoopPhase::Streaming { partials, text }, LoopInput::Streamed(event)) => Self::streamed(
                turn,
                partials,
                text,
                event,
            ),
            (LoopPhase::Streaming { .. }, LoopInput::StreamFailed(error)) => (
                Self::finished(turn),
                LoopAction::ForwardError(error),
            ),
            (LoopPhase::Streaming { partials, text }, LoopInput::StreamEnded { now }) =>
                Self::stream_ended(turn, partials, text, now),
            (LoopPhase::Starting { partials, text }, LoopInput::Delivered(true)) => (
                AgentLoop { turn, phase: LoopPhase::Streaming { partials, text } },
                LoopAction::AwaitStream,
            ),
            (LoopPhase::Announcing { call, rest }, LoopInput::Delivered(true)) => (
                AgentLoop { turn, phase: LoopPhase::Choosing { call, rest } },
                LoopAction::ListTools,
            ),
            (LoopPhase::Choosing { call, rest }, LoopInput::ToolNames(names)) => {
                let decision = dispatch::decide_call(&names, &call);
                Self::decided(turn, call, rest, decision)
            },
            (LoopPhase::Calling { call, rest }, LoopInput::ToolReturned(returned)) => {
                let result = match returned {
                    Ok(content) => ToolCallResult::Succeeded { content },
                    Err(error) => ToolCallResult::Failed { error },
                };
                Self::to_report(turn, call, rest, result)
            },
            (LoopPhase::Reporting { call, result, rest }, LoopInput::Delivered(true)) =>
                Self::reported(turn, call, result, rest),
            _ => (Self::finished(turn), LoopAction::Stop),
        }
    }
}

} // verus!
