//! The models of values say of each value all that it holds, each part in its own place.

use vstd::prelude::*;
use crate::agent::{AgentEvent, Channel, Sender};
use crate::agent_loop::{self, LoopAction, LoopInput, TurnSummary};
use crate::app::{
    self, BootstrapIdentities, BridgeStep, ChannelFilters, Delivery, StartStep,
};
use crate::dispatch::{self, CallDecision, RecordedToolCall, ToolCallResult};
use crate::event::{self, CompleteMessage, CoreEvent, Event, MessageHeader};
use crate::json;
use crate::llm::LlmEvent;
use crate::message::{self, Message, ToolCall};
use crate::openai::{self, RequestMessage};
use crate::participant::{self, AgentRequest, AnswerInput, ReplayedMessage};
use crate::text;
use crate::tool::{self, ToolDefinition};
use crate::tool_calls::{self, CompletedToolCall, PartialToolCall};

verus! {

/// The model of an optional text is there where the text is, and is the text's.
pub proof fn law_model_of_optional_text(given: Option<String>)
    ensures
        text::opt_text(given) is Some <==> given is Some,
        given is Some ==> text::opt_text(given)->Some_0 == given->Some_0@,
{
}

/// The models of tool calls.
pub proof fn law_model_of_tool_call(
    call: ToolCall,
    completed: CompletedToolCall,
    partial: PartialToolCall,
)
    ensures
        call@.id == call.id@,
        call@.name == call.name@,
        call@.arguments == call.arguments@,
        completed@.id == completed.id@,
        completed@.name == completed.name@,
        completed@.arguments == completed.arguments@,
        partial@.id is Some <==> partial.id is Some,
        partial.id is Some ==> partial@.id->Some_0 == partial.id->Some_0@,
        partial@.name is Some <==> partial.name is Some,
        partial.name is Some ==> partial@.name->Some_0 == partial.name->Some_0@,
        partial@.arguments == partial.arguments@,
        partial@.started == partial.started,
{
}

/// The models of lists hold the models of all that is in them, in their order.
pub proof fn law_models_of_lists(
    calls: Seq<ToolCall>,
    completed: Seq<CompletedToolCall>,
    messages: Seq<Message>,
    recorded: Seq<RecordedToolCall>,
    tools: Seq<ToolDefinition>,
    names: Seq<String>,
    i: int,
)
    ensures
        message::tool_call_views(calls).len() == calls.len(),
        0 <= i < calls.len() ==> message::tool_call_views(calls)[i] == calls[i]@,
        tool_calls::completed_views(completed).len() == completed.len(),
        0 <= i < completed.len() ==> tool_calls::completed_views(completed)[i] == completed[i]@,
        message::message_views(messages).len() == messages.len(),
        0 <= i < messages.len() ==> message::message_views(messages)[i] == messages[i]@,
        dispatch::recorded_views(recorded).len() == recorded.len(),
        0 <= i < recorded.len() ==> dispatch::recorded_views(recorded)[i] == recorded[i]@,
        tool::definition_views(tools).len() == tools.len(),
        0 <= i < tools.len() ==> tool::definition_views(tools)[i] == tools[i]@,
        tool::texts(names).len() == names.len(),
        0 <= i < names.len() ==> tool::texts(names)[i] == names[i]@,
{
}

/// The models of lists of events, deliveries, steps and named participants hold the models of
/// all that is in them, in their order.
pub proof fn law_models_of_event_lists<P, R>(
    events: Seq<Event<P>>,
    increments: Seq<LlmEvent>,
    deliveries: Seq<Delivery<P>>,
    steps: Seq<BridgeStep<R>>,
    starts: Seq<StartStep<P>>,
    named: Seq<(String, R)>,
    i: int,
)
    ensures
        event::event_views(events).len() == events.len(),
        0 <= i < events.len() ==> event::event_views(events)[i] == events[i]@,
        openai::event_views(increments).len() == increments.len(),
        0 <= i < increments.len() ==> openai::event_views(increments)[i] == increments[i]@,
        app::delivery_views(deliveries).len() == deliveries.len(),
        0 <= i < deliveries.len() ==> app::delivery_views(deliveries)[i] == deliveries[i]@,
        app::step_views(steps).len() == steps.len(),
        0 <= i < steps.len() ==> app::step_views(steps)[i] == steps[i]@,
        app::start_step_views(starts).len() == starts.len(),
        0 <= i < starts.len() ==> app::start_step_views(starts)[i] == starts[i]@,
        app::named_views(named).len() == named.len(),
        0 <= i < named.len() ==> app::named_views(named)[i].0 == named[i].0@
            && app::named_views(named)[i].1 == named[i].1,
{
}

/// The models of tables hold the models of all that is in them, under the same keys.
pub proof fn law_models_of_tables(
    partials: Map<usize, PartialToolCall>,
    index: usize,
    names: Map<Seq<char>, String>,
    uri: Seq<char>,
)
    ensures
        tool_calls::partial_views(partials).contains_key(index) <==> partials.contains_key(index),
        partials.contains_key(index) ==> tool_calls::partial_views(partials)[index]
            == partials[index]@,
        participant::names_view(names).contains_key(uri) <==> names.contains_key(uri),
        names.contains_key(uri) ==> participant::names_view(names)[uri] == names[uri]@,
{
}

/// The model of a message.
pub proof fn law_model_of_message(message: Message)
    ensures
        message is System ==> message@ is System && message@->System_content
            == message->System_content@,
        message is Developer ==> message@ is Developer && message@->Developer_content
            == message->Developer_content@,
        message is User ==> message@ is User && message@->User_content == message->User_content@,
        message is Assistant ==> message@ is Assistant && message@->text == message->text@
            && message@->tool_calls == message::tool_call_views(message->tool_calls@),
        message is ToolResult ==> message@ is ToolResult && message@->tool_call_id
            == message->tool_call_id@ && message@->ToolResult_content
            == message->ToolResult_content@,
{
}

/// The model of a message of a request.
pub proof fn law_model_of_request_message(request: RequestMessage)
    ensures
        request is System ==> request@ is System && request@->System_content
            == request->System_content@,
        request is Developer ==> request@ is Developer && request@->Developer_content
            == request->Developer_content@,
        request is User ==> request@ is User && request@->User_content == request->User_content@,
        request is Assistant ==> {
            &&& request@ is Assistant
            &&& request@->text is Some <==> request->text is Some
            &&& request->text is Some ==> request@->text->Some_0 == request->text->Some_0@
            &&& request@->tool_calls is Some <==> request->tool_calls is Some
            &&& request->tool_calls is Some ==> request@->tool_calls->Some_0
                == message::tool_call_views(request->tool_calls->Some_0@)
        },
        request is Tool ==> request@ is Tool && request@->tool_call_id == request->tool_call_id@
            && request@->Tool_content == request->Tool_content@,
{
}

/// The models of what a request offers.
pub proof fn law_model_of_offer(tool: ToolDefinition, tools: Option<Vec<ToolDefinition>>)
    ensures
        tool@.name == tool.name@,
        tool@.description == tool.description@,
        tool@.parameters_schema == tool.parameters_schema,
        openai::opt_definitions(tools) is Some <==> tools is Some,
        tools is Some ==> openai::opt_definitions(tools)->Some_0 == tool::definition_views(
            tools->Some_0@,
        ),
{
}

/// The model of an increment of a stream.
pub proof fn law_model_of_increment(event: LlmEvent)
    ensures
        event is TextDelta ==> event@ is TextDelta && event@->TextDelta_0 == event->TextDelta_0@,
        event is ToolCallDelta ==> {
            &&& event@ is ToolCallDelta
            &&& event@->index == event->index
            &&& event@->id is Some <==> event->id is Some
            &&& event->id is Some ==> event@->id->Some_0 == event->id->Some_0@
            &&& event@->name is Some <==> event->name is Some
            &&& event->name is Some ==> event@->name->Some_0 == event->name->Some_0@
            &&& event@->arguments_delta == event->arguments_delta@
        },
{
}

/// The model of an agent's event.
pub proof fn law_model_of_agent_event<P>(event: AgentEvent<P>)
    ensures
        event is TextDelta ==> event@ is TextDelta && event@->TextDelta_0 == event->TextDelta_0@,
        event is ToolCallStarted ==> event@ is ToolCallStarted && event@->ToolCallStarted_id
            == event->ToolCallStarted_id@ && event@->ToolCallStarted_name
            == event->ToolCallStarted_name@,
        event is ToolCallReady ==> event@ is ToolCallReady && event@->ToolCallReady_id
            == event->ToolCallReady_id@ && event@->ToolCallReady_name == event->ToolCallReady_name@
            && event@->arguments == event->arguments@,
        event is ToolCallFinished ==> event@ is ToolCallFinished && event@->ToolCallFinished_id
            == event->ToolCallFinished_id@ && event@->ToolCallFinished_name
            == event->ToolCallFinished_name@ && event@->summary == event->summary@,
        event is ToolCallFailed ==> event@ is ToolCallFailed && event@->ToolCallFailed_id
            == event->ToolCallFailed_id@ && event@->ToolCallFailed_name
            == event->ToolCallFailed_name@ && event@->error == event->error@,
        event is Custom ==> event@ is Custom && event@->Custom_0 == event->Custom_0,
{
}

/// The models of what comes of a call, and of its record.
pub proof fn law_model_of_result(
    result: ToolCallResult,
    record: RecordedToolCall,
    returned: Result<String, String>,
)
    ensures
        result is Succeeded ==> result@ is Succeeded && result@->content == result->content@,
        result is Failed ==> result@ is Failed && result@->error == result->error@,
        record@.id == record.id@,
        record@.name == record.name@,
        record@.arguments == record.arguments@,
        record@.result == record.result@,
        returned is Ok ==> agent_loop::returned_view(returned) is Succeeded
            && agent_loop::returned_view(returned)->content == returned->Ok_0@,
        returned is Err ==> agent_loop::returned_view(returned) is Failed
            && agent_loop::returned_view(returned)->error == returned->Err_0@,
{
}

/// The model of a parse result.
pub proof fn law_model_of_parse(result: Result<serde_json::Value, String>)
    ensures
        result is Ok ==> json::parse_view(result) == Ok::<serde_json::Value, Seq<char>>(
            result->Ok_0,
        ),
        result is Err ==> json::parse_view(result) == Err::<serde_json::Value, Seq<char>>(
            result->Err_0@,
        ),
{
}

/// The models of what is done in a turn and of its trace.
pub proof fn law_model_of_action<P, E>(action: LoopAction<P, E>, summary: TurnSummary)
    ensures
        action is SendRequest ==> action@ is SendRequest && action@->SendRequest_messages
            == message::message_views(action->SendRequest_messages@)
            && action@->SendRequest_tools == tool::definition_views(
            action->SendRequest_tools@,
        ),
        action is AwaitStream ==> action@ is AwaitStream,
        action is Emit ==> action@ is Emit && action@->Emit_0 == action->Emit_0@,
        action is ListTools ==> action@ is ListTools,
        action is CallTool ==> action@ is CallTool && action@->tool == action->tool
            && action@->arguments == action->arguments,
        action is HandleTurn ==> action@ is HandleTurn && action@->HandleTurn_0
            == action->HandleTurn_0@,
        action is ForwardError ==> action@ is ForwardError && action@->ForwardError_0
            == action->ForwardError_0,
        action is Fail ==> action@ is Fail && action@->Fail_0 == action->Fail_0,
        action is Stop ==> action@ is Stop,
        summary@.final_assistant_text == summary.final_assistant_text@,
        summary@.messages_to_llm == message::message_views(summary.messages_to_llm@),
        summary@.tool_calls == dispatch::recorded_views(summary.tool_calls@),
        summary@.started_at == summary.started_at,
        summary@.ended_at == summary.ended_at,
{
}

/// The model of what happens in a turn.
pub proof fn law_model_of_input<E>(input: LoopInput<E>)
    ensures
        input is StreamOpened ==> input@ is StreamOpened,
        input is RequestFailed ==> input@ is RequestFailed && input@->RequestFailed_0
            == input->RequestFailed_0,
        input is Streamed ==> input@ is Streamed && input@->Streamed_0 == input->Streamed_0@,
        input is StreamFailed ==> input@ is StreamFailed && input@->StreamFailed_0
            == input->StreamFailed_0,
        input is StreamEnded ==> input@ is StreamEnded && input@->now == input->now,
        input is Delivered ==> input@ is Delivered && input@->Delivered_0 == input->Delivered_0,
        input is ToolNames ==> input@ is ToolNames && input@->ToolNames_0 == tool::texts(
            input->ToolNames_0@,
        ),
        input is ToolReturned ==> input@ is ToolReturned && input@->ToolReturned_0
            == agent_loop::returned_view(input->ToolReturned_0),
{
}

/// The models of channels, senders, headers and messages.
pub proof fn law_model_of_chat_message(
    channel: Channel,
    sender: Sender,
    header: MessageHeader,
    message: CompleteMessage,
    maybe: Option<CompleteMessage>,
)
    ensures
        channel@.uri == channel.uri@,
        channel@.name == channel.name@,
        sender@.uri == sender.uri@,
        sender@.name == sender.name@,
        header@.channel_uri == header.channel_uri@,
        header@.sender_uri == header.sender_uri@,
        header@.date_time == header.date_time,
        header@.message_uri == header.message_uri@,
        message@.message_header == message.message_header@,
        message@.content == message.content@,
        event::opt_message(maybe) is Some <==> maybe is Some,
        maybe is Some ==> event::opt_message(maybe)->Some_0 == maybe->Some_0@,
{
}

/// The models of events.
pub proof fn law_model_of_event<P>(told: CoreEvent, event: Event<P>)
    ensures
        told is MessageStreamChunk ==> told@ is MessageStreamChunk
            && told@->MessageStreamChunk_message_header
            == told->MessageStreamChunk_message_header@ && told@->content == told->content@,
        told is MessageStreamCompleted ==> told@ is MessageStreamCompleted
            && told@->MessageStreamCompleted_message_header
            == told->MessageStreamCompleted_message_header@,
        told is MessageDeliveryFailed ==> told@ is MessageDeliveryFailed
            && told@->MessageDeliveryFailed_message_header
            == told->MessageDeliveryFailed_message_header@,
        told is SenderDiscovered ==> told@ is SenderDiscovered && told@->sender_uri
            == told->sender_uri@ && told@->SenderDiscovered_display_name
            == told->SenderDiscovered_display_name@,
        told is ChannelDiscovered ==> told@ is ChannelDiscovered && told@->channel_uri
            == told->channel_uri@ && told@->ChannelDiscovered_display_name
            == told->ChannelDiscovered_display_name@,
        told is Other ==> told@ is Other,
        event@.origin == event.origin@,
        event.payload is Core ==> event@.payload is Core && event@.payload->Core_0
            == event.payload->Core_0@,
        event.payload is Custom ==> event@.payload is Custom && event@.payload->Custom_0
            == event.payload->Custom_0,
{
}

/// The models of what an agent is told and asked, and of what comes of it.
pub proof fn law_model_of_agent_side<P>(
    told: ReplayedMessage,
    maybe: Option<ReplayedMessage>,
    request: AgentRequest,
    input: AnswerInput<P>,
)
    ensures
        told@.channel == told.channel@,
        told@.sender == told.sender@,
        told@.is_self == told.is_self,
        told@.timestamp == told.timestamp,
        told@.content == told.content@,
        participant::opt_replayed(maybe) is Some <==> maybe is Some,
        maybe is Some ==> participant::opt_replayed(maybe)->Some_0 == maybe->Some_0@,
        request@.channel == request.channel@,
        request@.sender == request.sender@,
        request@.timestamp == request.timestamp,
        request@.input == request.input@,
        request@.response_uri == request.response_uri@,
        input is Failed ==> input@ is Failed,
        input is Told ==> input@ is Told && input@->Told_0 == input->Told_0@,
        input is Ended ==> input@ is Ended,
{
}

/// The models of what an agent is wired with.
pub proof fn law_model_of_wiring_parts<P, R>(
    filters: ChannelFilters,
    bootstrap: BootstrapIdentities,
    maybe: Option<BootstrapIdentities>,
    delivery: Delivery<P>,
    step: BridgeStep<R>,
    start: StartStep<P>,
)
    ensures
        filters@.silenced == filters.silenced@,
        filters@.ignored == filters.ignored@,
        bootstrap@.channel == bootstrap.channel@,
        bootstrap@.transport_sender == bootstrap.transport_sender@,
        bootstrap@.agent_sender == bootstrap.agent_sender@,
        app::opt_bootstrap(maybe) is Some <==> maybe is Some,
        maybe is Some ==> app::opt_bootstrap(maybe)->Some_0 == maybe->Some_0@,
        delivery@.to == delivery.to,
        delivery@.event == delivery.event@,
        step is Connect ==> step@ is Connect && step@->name == step->name@ && step@->runtime
            == step->runtime,
        step is Restrict ==> step@ is Restrict && step@->from == step->from@ && step@->to
            == step->to@ && step@->edge == step->edge,
        start is TellPast ==> start@ is TellPast && start@->TellPast_0 == start->TellPast_0,
        start is CatchUp ==> start@ is CatchUp && start@->CatchUp_0 == start->CatchUp_0,
        start is Join ==> start@ is Join,
        start is Deliver ==> start@ is Deliver && start@->Deliver_0 == start->Deliver_0@,
        start is RunBridge ==> start@ is RunBridge,
{
}

/// The models of a decision, of an optional list and of optional calls.
pub proof fn law_model_of_decision(
    decision: CallDecision,
    list: Option<Vec<ToolDefinition>>,
    calls: Option<Vec<ToolCall>>,
)
    ensures
        decision is Run ==> decision@ is Run && decision@->tool == decision->tool
            && decision@->arguments == decision->arguments,
        decision is Refuse ==> decision@ is Refuse && decision@->error == decision->error@,
        openai::opt_seq(list) is Some <==> list is Some,
        list is Some ==> openai::opt_seq(list)->Some_0 == list->Some_0@,
        openai::opt_calls(calls) is Some <==> calls is Some,
        calls is Some ==> openai::opt_calls(calls)->Some_0 == message::tool_call_views(
            calls->Some_0@,
        ),
{
}

} // verus!
