//! How one tool call is carried out: which tool runs on which arguments, what is told of it,
//! and what is kept of it.

use vstd::prelude::*;
use crate::agent::{AgentEvent, AgentEventView};
use crate::json;
use crate::message::{Message, MessageView, ToolCallView};
use crate::summary;
use crate::tool;
use crate::tool_calls::CompletedToolCall;

verus! {

/// What came of a tool call.
#[derive(Debug, PartialEq, Eq)]
pub enum ToolCallResult {
    Succeeded { content: String },
    Failed { error: String },
}

/// The model of a [`ToolCallResult`].
pub enum ToolCallResultView {
    Succeeded { content: Seq<char> },
    Failed { error: Seq<char> },
}

impl View for ToolCallResult {
    type V = ToolCallResultView;

    open spec fn view(&self) -> ToolCallResultView {
        match self {
            ToolCallResult::Succeeded { content } => ToolCallResultView::Succeeded { content: content@ },
            ToolCallResult::Failed { error } => ToolCallResultView::Failed { error: error@ },
        }
    }
}

impl Clone for ToolCallResult {
    fn clone(&self) -> (result: Self)
        ensures
            result == *self,
    {
        match self {
            ToolCallResult::Succeeded { content } => ToolCallResult::Succeeded { content: content.clone() },
            ToolCallResult::Failed { error } => ToolCallResult::Failed { error: error.clone() },
        }
    }
}

/// A tool call that was carried out, with what came of it.
#[derive(Debug, PartialEq, Eq)]
pub struct RecordedToolCall {
    pub id: String,
    pub name: String,
    pub arguments: String,
    pub result: ToolCallResult,
}

/// The model of a [`RecordedToolCall`].
pub struct RecordedView {
    pub id: Seq<char>,
    pub name: Seq<char>,
    pub arguments: Seq<char>,
    pub result: ToolCallResultView,
}

impl View for RecordedToolCall {
    type V = RecordedView;

    open spec fn view(&self) -> RecordedView {
        RecordedView {
            id: self.id@,
            name: self.name@,
            arguments: self.arguments@,
            result: self.result@,
        }
    }
}

impl Clone for RecordedToolCall {
    fn clone(&self) -> (result: Self)
        ensures
            result == *self,
    {
        RecordedToolCall {
            id: self.id.clone(),
            name: self.name.clone(),
            arguments: self.arguments.clone(),
            result: self.result.clone(),
        }
    }
}

/// The models of a list of recorded calls.
pub open spec fn recorded_views(calls: Seq<RecordedToolCall>) -> Seq<RecordedView> {
    calls.map_values(|call: RecordedToolCall| call@)
}

/// What to do with a tool call.
pub enum CallDecision {
    /// Run the tool at this place of the list.
    Run { tool: usize, arguments: serde_json::Value },
    /// Run nothing, and answer with this error.
    Refuse { error: String },
}

/// The model of a [`CallDecision`].
pub enum CallDecisionView {
    Run { tool: int, arguments: serde_json::Value },
    Refuse { error: Seq<char> },
}

impl View for CallDecision {
    type V = CallDecisionView;

    open spec fn view(&self) -> CallDecisionView {
        match self {
            CallDecision::Run { tool, arguments } => CallDecisionView::Run {
                tool: *tool as int,
                arguments: *arguments,
            },
            CallDecision::Refuse { error } => CallDecisionView::Refuse { error: error@ },
        }
    }
}

/// The decision on a call whose tool was found, given what parsing its arguments gave.
pub open spec fn decided_for(
    tool: int,
    parsed: Result<serde_json::Value, Seq<char>>,
) -> CallDecisionView {
    match parsed {
        Ok(arguments) => CallDecisionView::Run { tool, arguments },
        Err(error) => CallDecisionView::Refuse { error: "invalid tool arguments JSON: "@ + error },
    }
}

/// The decision on a call, given the tools' names and what parsing its arguments gives.
pub open spec fn decided(
    names: Seq<Seq<char>>,
    name: Seq<char>,
    parsed: Result<serde_json::Value, Seq<char>>,
) -> CallDecisionView {
    match tool::first_named(names, name) {
        Some(tool) => decided_for(tool, parsed),
        None => CallDecisionView::Refuse { error: "unknown tool: "@ + name },
    }
}

/// Decides on a call whose tool was found, given what parsing its arguments gave.
pub fn decide_found_call(tool: usize, parsed: Result<serde_json::Value, String>) -> (decision:
    CallDecision)
    ensures
        decision@ == decided_for(tool as int, json::parse_view(parsed)),
{
    match parsed {
        Ok(arguments) => CallDecision::Run { tool, arguments },
        Err(text) => {
            let mut error = "invalid tool arguments JSON: ".to_owned();
            error.append(text.as_str());
            CallDecision::Refuse { error }
        },
    }
}

/// Decides on a call: the first tool of its name runs on its arguments, if there is such a
/// tool and if they are JSON.
pub fn decide_call(names: &Vec<String>, call: &CompletedToolCall) -> (decision: CallDecision)
    ensures
        decision@ == decided(
            tool::texts(names@),
            call@.name,
            json::parsed_arguments(call@.arguments),
        ),
        match decision {
            CallDecision::Run { tool, arguments } => {
                &&& tool < names@.len()
                &&& names@[tool as int]@ == call.name@
                &&& forall|j: int| 0 <= j < tool ==> (#[trigger] names@[j])@ != call.name@
                &&& json::parsed_arguments(call.arguments@) == Ok::<serde_json::Value, Seq<char>>(
                    arguments,
                )
            },
            CallDecision::Refuse { .. } => {
                ||| forall|j: int| 0 <= j < names@.len() ==> (#[trigger] names@[j])@ != call.name@
                ||| json::parsed_arguments(call.arguments@) is Err
            },
        },
{
    proof {
        tool::law_first_tool_of_a_name_is_found(tool::texts(names@), call@.name);
        assert forall|j: int| 0 <= j < names@.len() implies (#[trigger] names@[j])@ == tool::texts(
            names@,
        )[j] by {}
        assert forall|j: int|
            0 <= j < names@.len() && !tool::texts(names@).contains(call@.name) implies (
        #[trigger] names@[j])@ != call@.name by {
            assert(tool::texts(names@)[j] == names@[j]@);
        }
    }
    match tool::find_tool(names, &call.name) {
        Some(tool) => decide_found_call(tool, json::parse_arguments(call.arguments.as_str())),
        None => {
            let mut error = "unknown tool: ".to_owned();
            error.append(call.name.as_str());
            CallDecision::Refuse { error }
        },
    }
}

/// The news that a call is about to be carried out.
pub open spec fn ready_event<P>(call: ToolCallView) -> AgentEventView<
    P,
> {
    AgentEventView::ToolCallReady {
        id: call.id,
        name: call.name,
        arguments: call.arguments,
    }
}

/// Tells that a call is about to be carried out.
pub fn announce<P>(call: &CompletedToolCall) -> (event: AgentEvent<P>)
    ensures
        event@ == ready_event::<P>(call@),
{
    AgentEvent::ToolCallReady {
        id: call.id.clone(),
        name: call.name.clone(),
        arguments: call.arguments.clone(),
    }
}

/// Whether what came of a call can be told: a result that came must have a summary.
pub open spec fn reportable(result: ToolCallResultView) -> bool {
    match result {
        ToolCallResultView::Succeeded { content } => summary::summarizable(content),
        ToolCallResultView::Failed { error } => true,
    }
}

/// The news of what came of a call.
pub open spec fn report_event<P>(
    call: ToolCallView,
    result: ToolCallResultView,
) -> AgentEventView<P> {
    match result {
        ToolCallResultView::Succeeded { content } => AgentEventView::ToolCallFinished {
            id: call.id,
            name: call.name,
            summary: summary::summary_text(content),
        },
        ToolCallResultView::Failed { error } => AgentEventView::ToolCallFailed {
            id: call.id,
            name: call.name,
            error,
        },
    }
}

/// Tells what came of a call.
pub fn report<P>(call: &CompletedToolCall, result: &ToolCallResult) -> (event: AgentEvent<P>)
    requires
        reportable(result@),
    ensures
        event@ == report_event::<P>(call@, result@),
{
    match result {
        ToolCallResult::Succeeded { content } => AgentEvent::ToolCallFinished {
            id: call.id.clone(),
            name: call.name.clone(),
            summary: summary::tool_summary(content.as_str()),
        },
        ToolCallResult::Failed { error } => AgentEvent::ToolCallFailed {
            id: call.id.clone(),
            name: call.name.clone(),
            error: error.clone(),
        },
    }
}

/// What the model gets to read of a result: the content, or the error.
pub open spec fn result_text(result: ToolCallResultView) -> Seq<char> {
    match result {
        ToolCallResultView::Succeeded { content } => content,
        ToolCallResultView::Failed { error } => error,
    }
}

/// The message that answers a call.
pub open spec fn answer_message(
    call: ToolCallView,
    result: ToolCallResultView,
) -> MessageView {
    MessageView::ToolResult { tool_call_id: call.id, content: result_text(result) }
}

/// Answers a call in the conversation.
pub fn answer(call: &CompletedToolCall, result: &ToolCallResult) -> (message: Message)
    ensures
        message@ == answer_message(call@, result@),
{
    let content = match result {
        ToolCallResult::Succeeded { content } => content.clone(),
        ToolCallResult::Failed { error } => error.clone(),
    };
    Message::ToolResult { tool_call_id: call.id.clone(), content }
}

/// The record of a call.
pub open spec fn record_of(
    call: ToolCallView,
    result: ToolCallResultView,
) -> RecordedView {
    RecordedView { id: call.id, name: call.name, arguments: call.arguments, result }
}

/// Records a call.
pub fn record(call: CompletedToolCall, result: ToolCallResult) -> (recorded: RecordedToolCall)
    ensures
        recorded@ == record_of(call@, result@),
{
    RecordedToolCall { id: call.id, name: call.name, arguments: call.arguments, result }
}

/// A call whose tool was found runs it exactly if the call's arguments are JSON, and on what
/// they are; else it is refused for the reason that parsing gave.
pub proof fn law_found_tool_runs_on_the_parsed_arguments(
    tool: int,
    parsed: Result<serde_json::Value, Seq<char>>,
)
    ensures
        parsed is Ok ==> {
            &&& decided_for(tool, parsed) is Run
            &&& decided_for(tool, parsed)->tool == tool
            &&& decided_for(tool, parsed)->arguments == parsed->Ok_0
        },
        parsed is Err ==> {
            let error = decided_for(tool, parsed)->error;
            &&& decided_for(tool, parsed) is Refuse
            &&& "invalid tool arguments JSON: "@.is_prefix_of(error)
            &&& error.skip("invalid tool arguments JSON: "@.len() as int) == parsed->Err_0
        },
{
    if parsed is Err {
        assert(("invalid tool arguments JSON: "@ + parsed->Err_0).skip(
            "invalid tool arguments JSON: "@.len() as int,
        ) =~= parsed->Err_0);
    }
}

/// The tool that is decided on bears the name asked for, and no tool before it does; and there
/// is a decision to run exactly if there is such a tool and the arguments were parsed.
pub proof fn law_decided_tool_bears_the_name(
    names: Seq<Seq<char>>,
    name: Seq<char>,
    parsed: Result<serde_json::Value, Seq<char>>,
)
    ensures
        decided(names, name, parsed) is Run <==> names.contains(name) && parsed is Ok,
        decided(names, name, parsed) is Run ==> {
            let place = decided(names, name, parsed)->tool;
            &&& 0 <= place < names.len()
            &&& names[place] == name
            &&& forall|j: int| 0 <= j < place ==> names[j] != name
            &&& decided(names, name, parsed)->arguments == parsed->Ok_0
        },
        !names.contains(name) ==> {
            let error = decided(names, name, parsed)->error;
            &&& "unknown tool: "@.is_prefix_of(error)
            &&& error.skip("unknown tool: "@.len() as int) == name
        },
        names.contains(name) && parsed is Err ==> {
            let error = decided(names, name, parsed)->error;
            &&& "invalid tool arguments JSON: "@.is_prefix_of(error)
            &&& error.skip("invalid tool arguments JSON: "@.len() as int) == parsed->Err_0
        },
{
    tool::law_first_tool_of_a_name_is_found(names, name);
    law_found_tool_runs_on_the_parsed_arguments(
        tool::first_named(names, name)->Some_0,
        parsed,
    );
    assert(("unknown tool: "@ + name).skip("unknown tool: "@.len() as int) =~= name);
}

} // verus!
