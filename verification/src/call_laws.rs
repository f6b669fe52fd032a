//! What every call of the library's functions gives, told by what goes in and what comes out.

use async_openai::error::OpenAIError;
use async_openai::types::chat::{
    ChatCompletionMessageToolCalls, ChatCompletionRequestMessage, ChatCompletionTools,
    CreateChatCompletionRequest,
};
use std::collections::HashMap;
use vstd::prelude::*;
use crate::agent::{self, AgentEvent, AgentEventView, Channel, Sender};
use crate::agent_loop::{self, AgentLoop, LoopAction, LoopInput};
use crate::answer_laws;
use crate::dispatch::{self, CallDecision, RecordedToolCall, ToolCallResult};
use crate::event::{
    self, CompleteMessage, CoreEvent, CoreEventView, Event, EventView, MessageHeader, PayloadView,
};
use crate::ids::{ChannelUri, MessageUri, ParticipantId, SenderUri, Timestamp};
use crate::json;
use crate::llm::{self, LlmError, LlmEvent};
use crate::message::{self, Message, ToolCall};
use crate::openai::{self, RequestMessage, StreamChunk, ToolChoice};
use crate::openai_laws;
use crate::participant::{
    self, AgentParticipantBuilder, AgentRequest, AgentState, AgentStateView, AnswerInput,
    AnswerInputView, EventEmitter, ReplayedMessage, Response, ResponseView,
};
use crate::summary;
use crate::text;
use crate::tool::{self, ToolDefinition};
use crate::tool_calls::{self, CompletedToolCall, PartialToolCall, PartialView};
use crate::turn_laws;

verus! {

/// Names of all kinds hold the text that they are made of, and give it back.
pub proof fn law_names_give_back_their_text(
    given: &str,
    channel: ChannelUri,
    sender: SenderUri,
    message: MessageUri,
    participant: ParticipantId,
)
    ensures
        call_ensures(ChannelUri::new, (given,), channel) ==> channel@ == given@,
        call_ensures(SenderUri::new, (given,), sender) ==> sender@ == given@,
        call_ensures(MessageUri::new, (given,), message) ==> message@ == given@,
        call_ensures(ParticipantId::new, (given,), participant) ==> participant@ == given@,
        call_ensures(ChannelUri::as_str, (&channel,), given) ==> given@ == channel@,
        call_ensures(SenderUri::as_str, (&sender,), given) ==> given@ == sender@,
        call_ensures(MessageUri::as_str, (&message,), given) ==> given@ == message@,
        call_ensures(ParticipantId::as_str, (&participant,), given) ==> given@ == participant@,
{
}

/// Two participants are the same exactly if their ids are the same text.
pub proof fn law_same_participants(a: &ParticipantId, b: &ParticipantId, answer: bool)
    requires
        call_ensures(ParticipantId::same, (a, b), answer),
    ensures
        answer <==> a@ == b@,
{
}

/// A number is written in the digits that stand for it.
pub proof fn law_written_number_is_the_number(n: u64, written: String)
    requires
        call_ensures(text::decimal_text, (n,), written),
    ensures
        text::value_of(written@) == n,
        n > 0 ==> written@[0] != '0',
        written@.len() >= 1,
{
    text::law_decimal_digits_stand_for_the_number(n as nat);
}

/// Messages of each kind say the given text.
pub proof fn law_made_message_says_the_text(content: &str, message: Message)
    ensures
        call_ensures(Message::system, (content,), message) ==> message is System
            && message->System_content@ == content@,
        call_ensures(Message::developer, (content,), message) ==> message is Developer
            && message->Developer_content@ == content@,
        call_ensures(Message::user, (content,), message) ==> message is User
            && message->User_content@ == content@,
{
}

/// A copy of a conversation, of calls or of tools says the same, message by message.
pub proof fn law_copies_say_the_same(
    messages: &Vec<Message>,
    copied: Vec<Message>,
    calls: &Vec<ToolCall>,
    copied_calls: Vec<ToolCall>,
    tools: &Vec<ToolDefinition>,
    copied_tools: Vec<ToolDefinition>,
)
    ensures
        call_ensures(message::copy_messages, (messages,), copied) ==> copied@.len()
            == messages@.len() && forall|i: int|
            0 <= i < copied@.len() ==> (#[trigger] copied@[i])@ == messages@[i]@,
        call_ensures(message::copy_tool_calls, (calls,), copied_calls) ==> copied_calls@ == calls@,
        call_ensures(tool::copy_definitions, (tools,), copied_tools) ==> copied_tools@ == tools@,
{
    if call_ensures(message::copy_messages, (messages,), copied) {
        assert(message::message_views(copied@).len() == copied@.len());
        assert(message::message_views(messages@).len() == messages@.len());
        assert forall|i: int| 0 <= i < copied@.len() implies (#[trigger] copied@[i])@
            == messages@[i]@ by {
            assert(message::message_views(copied@)[i] == copied@[i]@);
            assert(message::message_views(messages@)[i] == messages@[i]@);
        }
    }
}

/// A channel or a sender is shown by its name, or by its address where it has none.
pub proof fn law_shown_by_name_or_address(channel: &Channel, sender: &Sender, shown: &str)
    ensures
        call_ensures(Channel::display_name, (channel,), shown) ==> shown@ == (if channel.name@.len()
            > 0 {
            channel.name@
        } else {
            channel.uri@
        }),
        call_ensures(Sender::display_name, (sender,), shown) ==> shown@ == (if sender.name@.len()
            > 0 {
            sender.name@
        } else {
            sender.uri@
        }),
{
}

/// An event is shown by its kind and by all of its parts, each quoted, on one line or with each
/// part on a line of its own.
pub proof fn law_shown_event<P>(event: &AgentEvent<P>, shown: String)
    ensures
        call_ensures(AgentEvent::<P>::debug_text, (event,), shown) ==> {
            let q = |part: Seq<char>| text::debug_quoted(part);
            match event {
                AgentEvent::TextDelta(delta) => shown@ == "TextDelta"@ + "("@ + q(delta@) + ")"@,
                AgentEvent::ToolCallStarted { id, name } => shown@ == "ToolCallStarted"@
                    + " { id: "@ + q(id@) + ", name: "@ + q(name@) + " }"@,
                AgentEvent::ToolCallReady { id, name, arguments } => shown@ == "ToolCallReady"@
                    + " { id: "@ + q(id@) + ", name: "@ + q(name@) + ", arguments: "@ + q(
                    arguments@,
                ) + " }"@,
                AgentEvent::ToolCallFinished { id, name, summary } => shown@
                    == "ToolCallFinished"@ + " { id: "@ + q(id@) + ", name: "@ + q(name@)
                    + ", summary: "@ + q(summary@) + " }"@,
                AgentEvent::ToolCallFailed { id, name, error } => shown@ == "ToolCallFailed"@
                    + " { id: "@ + q(id@) + ", name: "@ + q(name@) + ", error: "@ + q(error@)
                    + " }"@,
                AgentEvent::Custom(_) => shown@ == "Custom"@ + "("@ + q("<opaque payload>"@)
                    + ")"@,
            }
        },
        call_ensures(AgentEvent::<P>::indented_debug_text, (event,), shown) ==> shown@
            == agent::kind_of(event@) + (if agent::has_labels(event@) {
            " {\n"@
        } else {
            "(\n"@
        }) + agent::quoted_parts(agent::parts_of(event@), "    "@, ",\n"@) + (if agent::has_labels(
            event@,
        ) {
            "}"@
        } else {
            ")"@
        }),
{
    agent::law_shown_event_shows_every_part(event@);
    agent::law_indented_event_shows_every_part(event@);
}

/// An error of a turn says what went wrong, and at which index.
pub proof fn law_error_message(error: &LlmError, said: String)
    requires
        call_ensures(LlmError::message, (error,), said),
    ensures
        match error {
            LlmError::MissingOnFirstChunk { index } => llm::numbers(
                said@,
                "tool call delta at index "@,
                *index as nat,
                " missing id or name on first chunk"@,
            ),
            LlmError::MissingIdOrName { index } => llm::numbers(
                said@,
                "tool call at index "@,
                *index as nat,
                " missing id or name"@,
            ),
            LlmError::IterationsExceeded => said@ == "tool loop exceeded maximum iterations"@,
        },
{
    llm::law_error_says_where(0);
    match error {
        LlmError::MissingOnFirstChunk { index } => {
            llm::law_error_says_where(*index);
        },
        LlmError::MissingIdOrName { index } => {
            llm::law_error_says_where(*index);
        },
        LlmError::IterationsExceeded => {},
    }
}

/// A tool is found exactly where there is one of the name, and it is the first of them.
pub proof fn law_found_tool_is_the_first(names: &Vec<String>, name: &String, found: Option<usize>)
    requires
        call_ensures(tool::find_tool, (names, name), found),
    ensures
        match found {
            Some(place) => {
                &&& place < names@.len()
                &&& names@[place as int]@ == name@
                &&& forall|j: int| 0 <= j < place ==> (#[trigger] names@[j])@ != name@
            },
            None => forall|j: int| 0 <= j < names@.len() ==> (#[trigger] names@[j])@ != name@,
        },
{
    let all = tool::texts(names@);
    tool::law_first_tool_of_a_name_is_found(all, name@);
    assert forall|j: int| 0 <= j < names@.len() implies (#[trigger] names@[j])@ == all[j] by {}
    if found is None {
        assert forall|j: int| 0 <= j < names@.len() implies (#[trigger] names@[j])@ != name@ by {
            assert(all[j] == names@[j]@);
        }
    } else {
        assert forall|j: int| 0 <= j < found->Some_0 implies (#[trigger] names@[j])@ != name@ by {
            assert(all[j] == names@[j]@);
        }
    }
}

/// The tool that is decided on for a call bears the call's name, and no tool before it does; it
/// runs on what parsing the call's arguments gives. A call is refused exactly if there is no
/// such tool or its arguments are no JSON.
pub proof fn law_decided_tool_is_the_calls(
    names: &Vec<String>,
    call: &CompletedToolCall,
    decision: CallDecision,
)
    requires
        call_ensures(dispatch::decide_call, (names, call), decision),
    ensures
        match decision {
            CallDecision::Run { tool, arguments } => {
                &&& tool < names@.len()
                &&& names@[tool as int]@ == call.name@
                &&& forall|j: int| 0 <= j < tool ==> (#[trigger] names@[j])@ != call.name@
                &&& json::parsed_arguments(call.arguments@) == Ok::<serde_json::Value, Seq<char>>(
                    arguments,
                )
            },
            CallDecision::Refuse { error } => {
                ||| {
                    &&& forall|j: int|
                        0 <= j < names@.len() ==> (#[trigger] names@[j])@ != call.name@
                    &&& answer_laws::reads(error@, "unknown tool: "@, call.name@)
                }
                ||| {
                    &&& json::parsed_arguments(call.arguments@) is Err
                    &&& answer_laws::reads(
                        error@,
                        "invalid tool arguments JSON: "@,
                        json::parsed_arguments(call.arguments@)->Err_0,
                    )
                }
            },
        },
{
    let all = tool::texts(names@);
    let parsed = json::parsed_arguments(call.arguments@);
    dispatch::law_decided_tool_bears_the_name(all, call.name@, parsed);
    assert forall|j: int|
        0 <= j < names@.len() && !all.contains(call.name@) implies (#[trigger] names@[j])@
        != call.name@ by {
        assert(all[j] == names@[j]@);
    }
    if decision is Refuse {
        let error = decision->error@;
        if !all.contains(call.name@) {
            assert(error.take("unknown tool: "@.len() as int) =~= "unknown tool: "@);
        } else {
            let head = "invalid tool arguments JSON: "@;
            assert(error.take(head.len() as int) =~= head);
        }
    }
}

/// Of a call it is told that it is about to run, and what came of it, under its id and its name:
/// with its arguments, the summary of what it gave, or its error in full.
pub proof fn law_call_is_told<P>(
    call: &CompletedToolCall,
    result: &ToolCallResult,
    told: AgentEvent<P>,
)
    ensures
        call_ensures(dispatch::announce::<P>, (call,), told) ==> told is ToolCallReady
            && told->ToolCallReady_id@ == call.id@ && told->ToolCallReady_name@ == call.name@
            && told->arguments@ == call.arguments@,
        call_ensures(dispatch::report::<P>, (call, result), told) ==> match result {
            ToolCallResult::Succeeded { content } => {
                &&& told is ToolCallFinished
                &&& told->ToolCallFinished_id@ == call.id@
                &&& told->ToolCallFinished_name@ == call.name@
                &&& told->summary@ == summary::summary_text(content@)
            },
            ToolCallResult::Failed { error } => {
                &&& told is ToolCallFailed
                &&& told->ToolCallFailed_id@ == call.id@
                &&& told->ToolCallFailed_name@ == call.name@
                &&& told->error@ == error@
            },
        },
{
}

/// A call is answered under its id with its content or its error in full, and recorded as it was
/// asked for, with what came of it.
pub proof fn law_call_is_answered_and_recorded(
    call: &CompletedToolCall,
    result: &ToolCallResult,
    answer: Message,
    asked: CompletedToolCall,
    came: ToolCallResult,
    recorded: RecordedToolCall,
)
    ensures
        call_ensures(dispatch::answer, (call, result), answer) ==> {
            &&& answer is ToolResult
            &&& answer->tool_call_id@ == call.id@
            &&& answer->ToolResult_content@ == (match result {
                ToolCallResult::Succeeded { content } => content@,
                ToolCallResult::Failed { error } => error@,
            })
        },
        call_ensures(dispatch::record, (asked, came), recorded) ==> {
            &&& recorded.id@ == asked.id@
            &&& recorded.name@ == asked.name@
            &&& recorded.arguments@ == asked.arguments@
            &&& recorded.result@ == came@
        },
{
}

/// A completed call is the same call in a message.
pub proof fn law_call_in_a_message(
    call: &CompletedToolCall,
    same: ToolCall,
    calls: &Vec<CompletedToolCall>,
    all: Vec<ToolCall>,
)
    ensures
        call_ensures(CompletedToolCall::to_tool_call, (call,), same) ==> same.id@ == call.id@
            && same.name@ == call.name@ && same.arguments@ == call.arguments@,
        call_ensures(tool_calls::to_tool_calls, (calls,), all) ==> all@.len() == calls@.len()
            && forall|i: int|
            0 <= i < all@.len() ==> (#[trigger] all@[i]).id@ == calls@[i].id@ && all@[i].name@
                == calls@[i].name@ && all@[i].arguments@ == calls@[i].arguments@,
{
    if call_ensures(tool_calls::to_tool_calls, (calls,), all) {
        assert(message::tool_call_views(all@).len() == all@.len());
        assert(tool_calls::completed_views(calls@).len() == calls@.len());
        assert forall|i: int| 0 <= i < all@.len() implies (#[trigger] all@[i]).id@ == calls@[i].id@
            && all@[i].name@ == calls@[i].name@ && all@[i].arguments@ == calls@[i].arguments@ by {
            assert(message::tool_call_views(all@)[i] == all@[i]@);
            assert(tool_calls::completed_views(calls@)[i] == calls@[i]@);
        }
    }
}

/// A summary shows the result: whole where it is of at most 120 bytes, else a beginning of 120
/// bytes and three dots, with spaces for line feeds and every other character as it is.
pub proof fn law_summary_of_a_result(result: &str, shown: String)
    requires
        summary::summarizable(result@),
        call_ensures(summary::tool_summary, (result,), shown),
    ensures
        ({
            let long = vstd::utf8::encode_utf8(summary::one_line(result@)).len() > 120;
            let kept: int = if long {
                shown@.len() - 3
            } else {
                shown@.len() as int
            };
            &&& 0 <= kept <= result@.len()
            &&& !long ==> kept == result@.len()
            &&& long ==> shown@.skip(kept) == "..."@
            &&& long ==> vstd::utf8::encode_utf8(shown@.take(kept)).len() == 120
            &&& forall|i: int|
                0 <= i < kept ==> summary::agrees(#[trigger] shown@[i], result@[i])
        }),
{
    summary::law_summary_shows_the_result(result@);
}

/// A result can be summarized exactly if it is short, or can be cut at 120 bytes.
pub proof fn law_summary_can_be_asked_for(result: &str, answer: bool)
    requires
        call_ensures(summary::can_summarize, (result,), answer),
    ensures
        answer <==> vstd::utf8::encode_utf8(summary::one_line(result@)).len() <= 120 || exists|
            k: int,
        |
            0 <= k <= result@.len() && vstd::utf8::encode_utf8(
                #[trigger] summary::one_line(result@).take(k),
            ).len() == 120,
{
    summary::law_summarizable_where_it_can_be_cut(result@);
}

/// A message is put in a request as it is, but for an assistant's text or calls, which are left
/// out exactly where there are none.
pub proof fn law_message_in_a_request(message: Message, request: RequestMessage)
    requires
        call_ensures(openai::request_message, (message,), request),
    ensures
        match message {
            Message::System { content } => request is System && request->System_content@
                == content@,
            Message::Developer { content } => request is Developer && request->Developer_content@
                == content@,
            Message::User { content } => request is User && request->User_content@ == content@,
            Message::Assistant { text, tool_calls } => {
                &&& request is Assistant
                &&& request->text is Some <==> text@.len() > 0
                &&& text@.len() > 0 ==> request->text->Some_0@ == text@
                &&& request->tool_calls is Some <==> tool_calls@.len() > 0
                &&& tool_calls@.len() > 0 ==> message::tool_call_views(
                    request->tool_calls->Some_0@,
                ) == message::tool_call_views(tool_calls@)
            },
            Message::ToolResult { tool_call_id, content } => request is Tool
                && request->tool_call_id@ == tool_call_id@ && request->Tool_content@ == content@,
        },
{
    openai_laws::law_requested_message_keeps_its_content(message@);
}

/// A message, a conversation, calls and tools are put in the form of the API with all that they
/// say, one for one and in their order, and this never fails.
pub proof fn law_form_of_the_api(
    message: Message,
    built: Result<ChatCompletionRequestMessage, OpenAIError>,
    messages: Vec<Message>,
    all: Result<Vec<ChatCompletionRequestMessage>, OpenAIError>,
    calls: Vec<ToolCall>,
    functions: Vec<ChatCompletionMessageToolCalls>,
    tool: ToolDefinition,
    offered: ChatCompletionTools,
)
    ensures
        call_ensures(openai::to_openai_message, (message,), built) ==> built is Ok
            && openai_laws::says(built->Ok_0, message@),
        call_ensures(openai::to_openai_messages, (messages,), all) ==> {
            &&& all is Ok
            &&& all->Ok_0@.len() == messages@.len()
            &&& forall|i: int|
                0 <= i < messages@.len() ==> openai_laws::says(
                    #[trigger] all->Ok_0@[i],
                    messages@[i]@,
                )
        },
        call_ensures(openai::to_function_calls, (calls,), functions) ==> {
            &&& functions@.len() == calls@.len()
            &&& forall|i: int|
                0 <= i < calls@.len() ==> #[trigger] functions@[i] == openai::function_call(
                    calls@[i].id@,
                    calls@[i].name@,
                    calls@[i].arguments@,
                )
        },
        call_ensures(openai::to_openai_tool, (tool,), offered) ==> offered == openai::function_tool(
            tool.name@,
            Some(tool.description@),
            Some(tool.parameters_schema),
            None,
        ),
{
    openai_laws::law_built_message_says_the_same(message@);
    openai_laws::law_built_messages_tell_the_conversation(message::message_views(messages@));
    openai_laws::law_offered_tool_is_the_tool(tool@);
    let views = message::message_views(messages@);
    assert(views.len() == messages@.len());
    if call_ensures(openai::to_openai_messages, (messages,), all) {
        assert forall|i: int| 0 <= i < messages@.len() implies openai_laws::says(
            #[trigger] all->Ok_0@[i],
            messages@[i]@,
        ) by {
            assert(views[i] == messages@[i]@);
        }
    }
}

/// What is said of tools is all of them, and that the model chooses; or nothing where there are
/// none.
pub proof fn law_offer_of_tools(
    tools: Vec<ToolDefinition>,
    offer: (Option<Vec<ToolDefinition>>, Option<ToolChoice>),
)
    requires
        call_ensures(openai::offer_tools, (tools,), offer),
    ensures
        tools@.len() == 0 ==> offer.0 is None && offer.1 is None,
        tools@.len() > 0 ==> {
            &&& offer.0 is Some
            &&& offer.0->Some_0@.len() == tools@.len()
            &&& forall|i: int|
                0 <= i < tools@.len() ==> (#[trigger] offer.0->Some_0@[i])@ == tools@[i]@
            &&& offer.1 == Some(ToolChoice::Auto)
        },
{
    openai_laws::law_offer_is_all_or_nothing(tool::definition_views(tools@));
    if tools@.len() > 0 {
        let given = tool::definition_views(tools@);
        assert(given.len() == tools@.len());
        let offered = tool::definition_views(offer.0->Some_0@);
        assert(offered.len() == offer.0->Some_0@.len());
        assert forall|i: int| 0 <= i < tools@.len() implies (#[trigger] offer.0->Some_0@[i])@
            == tools@[i]@ by {
            assert(offered[i] == offer.0->Some_0@[i]@);
            assert(given[i] == tools@[i]@);
        }
    }
}

/// A request is made for the given model, of messages that say what those of the conversation
/// say, one for one, and of a function tool for each tool given, with its name, its description
/// and its parameters, where there are tools.
pub proof fn law_request_to_the_model(
    model: &str,
    messages: Vec<Message>,
    tools: Vec<ToolDefinition>,
    request: Result<CreateChatCompletionRequest, OpenAIError>,
)
    requires
        call_ensures(openai::to_openai_request, (model, messages, tools), request),
    ensures
        request is Ok,
        exists|built: Seq<ChatCompletionRequestMessage>, offered: Seq<ChatCompletionTools>|
            #![trigger openai_laws::tells(built, message::message_views(messages@)), openai_laws::offers(offered, tool::definition_views(tools@))]
            {
                &&& openai_laws::tells(built, message::message_views(messages@))
                &&& openai_laws::offers(offered, tool::definition_views(tools@))
                &&& request->Ok_0 == (if tools@.len() == 0 {
                    openai::chat_request(model@, built, None, None)
                } else {
                    openai::chat_request(model@, built, Some(offered), Some(ToolChoice::Auto))
                })
            },
{
    let said = message::message_views(messages@);
    let given = tool::definition_views(tools@);
    assert(given.len() == tools@.len());
    openai_laws::law_request_holds_everything(model@, said, given);
    openai_laws::law_all_tools_are_offered(given);
    let built = choose|built: Seq<ChatCompletionRequestMessage>| #[trigger]
        openai_laws::tells(built, said) && (given.len() == 0 ==> openai::request_for(
            model@,
            said,
            given,
        ) == openai::chat_request(model@, built, None, None)) && (given.len() > 0 ==> exists|
            offered: Seq<ChatCompletionTools>,
        | #[trigger]
            openai_laws::offers(offered, given) && openai::request_for(model@, said, given)
                == openai::chat_request(model@, built, Some(offered), Some(ToolChoice::Auto)));
    if given.len() > 0 {
        let offered = choose|offered: Seq<ChatCompletionTools>| #[trigger]
            openai_laws::offers(offered, given) && openai::request_for(model@, said, given)
                == openai::chat_request(model@, built, Some(offered), Some(ToolChoice::Auto));
        assert(openai_laws::tells(built, said) && openai_laws::offers(offered, given));
    } else {
        assert(openai_laws::tells(built, said) && openai_laws::offers(
            openai::offered_tools(given),
            given,
        ));
    }
}

/// Out of a chunk come the text of its first choice, where there is one, and then an increment
/// for each piece of a tool call in it, with the piece's index, its id, its name and all of its
/// arguments, whichever of these it has.
pub proof fn law_increments_of_a_chunk(chunk: StreamChunk, events: Vec<LlmEvent>)
    requires
        call_ensures(openai::extract_events, (chunk,), events),
    ensures
        chunk.choices@.len() == 0 ==> events@.len() == 0,
        chunk.choices@.len() > 0 ==> {
            let choice = chunk.choices@[0];
            let pieces = openai_laws::pieces(choice);
            let first: int = if choice.content is Some {
                1
            } else {
                0
            };
            &&& events@.len() == first + pieces.len()
            &&& choice.content is Some ==> events@[0] is TextDelta && events@[0]->TextDelta_0@
                == choice.content->Some_0@
            &&& forall|j: int|
                0 <= j < pieces.len() ==> {
                    let piece = #[trigger] pieces[j];
                    let event = events@[first + j];
                    &&& event is ToolCallDelta
                    &&& event->index as int == piece.index as int
                    &&& event->id is Some <==> piece.id is Some
                    &&& piece.id is Some ==> event->id->Some_0@ == piece.id->Some_0@
                    &&& event->name is Some <==> piece.function is Some
                        && piece.function->Some_0.name is Some
                    &&& event->name is Some ==> event->name->Some_0@
                        == piece.function->Some_0.name->Some_0@
                    &&& event->arguments_delta@ == openai_laws::piece_arguments(piece)
                }
        },
{
    openai_laws::law_chunk_brings_every_piece(chunk);
    let views = openai::event_views(events@);
    assert(views.len() == events@.len());
    if chunk.choices@.len() > 0 {
        let choice = chunk.choices@[0];
        let pieces = openai_laws::pieces(choice);
        let first: int = if choice.content is Some {
            1
        } else {
            0
        };
        if choice.content is Some {
            assert(views[0] == events@[0]@);
        }
        assert forall|j: int| 0 <= j < pieces.len() implies {
            let piece = #[trigger] pieces[j];
            let event = events@[first + j];
            &&& event is ToolCallDelta
            &&& event->index as int == piece.index as int
            &&& event->id is Some <==> piece.id is Some
            &&& piece.id is Some ==> event->id->Some_0@ == piece.id->Some_0@
            &&& event->name is Some <==> piece.function is Some
                && piece.function->Some_0.name is Some
            &&& event->name is Some ==> event->name->Some_0@
                == piece.function->Some_0.name->Some_0@
            &&& event->arguments_delta@ == openai_laws::piece_arguments(piece)
        } by {
            assert(views[first + j] == events@[first + j]@);
            assert(openai_laws::stands_for(views[first + j], pieces[j]));
        }
    }
}

/// Events carry the origin and what they are made of.
pub proof fn law_made_event<P>(
    origin: ParticipantId,
    told: CoreEvent,
    payload: P,
    event: Event<P>,
)
    ensures
        call_ensures(Event::<P>::new, (origin, told), event) ==> event.origin@ == origin@
            && event.payload is Core && event.payload->Core_0@ == told@,
        call_ensures(Event::<P>::from_payload, (origin, payload), event) ==> event.origin@
            == origin@ && event.payload is Custom && event.payload->Custom_0 == payload,
{
}

/// An emitter's events come from its participant and carry what they are given.
pub proof fn law_emitted_event<P>(
    emitter: &EventEmitter,
    header: MessageHeader,
    content: String,
    payload: P,
    event: Event<P>,
)
    ensures
        call_ensures(EventEmitter::chunk::<P>, (emitter, header, content), event)
            ==> answer_laws::is_chunk(event@, emitter.participant_id@, header@, content@),
        call_ensures(EventEmitter::completed::<P>, (emitter, header), event)
            ==> answer_laws::is_completion(event@, emitter.participant_id@, header@),
        call_ensures(EventEmitter::failed::<P>, (emitter, header), event)
            ==> answer_laws::is_failure(event@, emitter.participant_id@, header@),
        call_ensures(EventEmitter::custom::<P>, (emitter, payload), event) ==> event.origin@
            == emitter.participant_id@ && event.payload is Custom && event.payload->Custom_0
            == payload,
{
    answer_laws::law_emitted_events_carry_what_they_are_given::<P>(
        emitter.participant_id@,
        header@,
        content@,
    );
}

/// The words for a step with tools tell the tool, and all that the step brings; for anything
/// else there are none.
pub proof fn law_words_for_a_step<P>(event: &AgentEvent<P>, words: Option<String>)
    requires
        call_ensures(participant::format_tool_event::<P>, (event,), words),
    ensures
        match event {
            AgentEvent::ToolCallStarted { id, name } => words is Some && answer_laws::reads(
                words->Some_0@,
                "[tool] "@,
                name@,
            ),
            AgentEvent::ToolCallReady { id, name, arguments } => words is Some
                && answer_laws::reads(
                words->Some_0@,
                "[tool] running "@ + name@ + " with "@,
                arguments@,
            ),
            AgentEvent::ToolCallFinished { id, name, summary } => words is Some
                && answer_laws::reads(
                words->Some_0@,
                "[tool] "@ + name@ + " returned "@,
                summary@,
            ),
            AgentEvent::ToolCallFailed { id, name, error } => words is Some && answer_laws::reads(
                words->Some_0@,
                "[tool] "@ + name@ + " failed: "@,
                error@,
            ),
            _ => words is None,
        },
{
    answer_laws::law_words_tell_the_step(event@);
}

/// The message for a step with tools belongs to its answer, and is told apart by its number.
pub proof fn law_header_for_a_step(
    answer: &MessageHeader,
    counter: u64,
    now: Timestamp,
    header: MessageHeader,
)
    requires
        call_ensures(participant::tool_header, (answer, counter, now), header),
    ensures
        header.channel_uri@ == answer.channel_uri@,
        header.sender_uri@ == answer.sender_uri@,
        header.date_time == now,
        answer_laws::reads(
            header.message_uri@,
            answer.message_uri@ + ":tool:"@,
            text::decimal(counter as nat),
        ),
{
    answer_laws::law_tool_message_belongs_to_its_answer(answer@, counter as nat, now);
}

/// A channel or a sender is known at its address, by the name learned for it, or by the address.
pub proof fn law_known_channel_and_sender<A>(
    state: &AgentState<A>,
    channel_uri: &ChannelUri,
    channel: Channel,
    sender_uri: &SenderUri,
    sender: Sender,
)
    ensures
        call_ensures(AgentState::<A>::channel_for, (state, channel_uri), channel)
            ==> channel.uri@ == channel_uri@ && channel.name@ == answer_laws::known_as(
            state@.channels,
            channel_uri@,
        ),
        call_ensures(AgentState::<A>::sender_for, (state, sender_uri), sender) ==> sender.uri@
            == sender_uri@ && sender.name@ == answer_laws::known_as(state@.senders, sender_uri@),
{
}

/// A participant knows no names at first, and it is who it is said to be.
pub proof fn law_new_participant_knows_nothing<A>(
    id: ParticipantId,
    agent: A,
    state: AgentState<A>,
    uri: Seq<char>,
)
    requires
        call_ensures(AgentState::<A>::new, (id, agent), state),
    ensures
        state@.participant_id == id@,
        state.its_agent() == agent,
        !state@.channels.dom().contains(uri),
        !state@.senders.dom().contains(uri),
{
}

/// The answer to a message is begun in its channel, under the participant's id as the sender, at
/// the given time, and under the participant's id, a colon and the message's name. The agent is
/// asked what the message says, with its own time, channel and sender, and told that name.
pub proof fn law_begun_answer<A>(
    state: &AgentState<A>,
    message: CompleteMessage,
    now: Timestamp,
    begun: (Response, AgentRequest),
)
    requires
        call_ensures(AgentState::<A>::begin_response, (state, message, now), begun),
    ensures
        ({
            let header = message.message_header;
            let answer = begun.0@;
            let request = begun.1;
            let id = state@.participant_id;
            &&& answer.participant_id == id
            &&& answer.header.channel_uri == header.channel_uri@
            &&& answer.header.sender_uri == id
            &&& answer.header.date_time == now
            &&& answer_laws::reads(
                answer.header.message_uri,
                id + ":"@,
                header.message_uri@,
            )
            &&& answer.tool_counter == 0
            &&& !answer.finished
            &&& request.input@ == message.content@
            &&& request.timestamp == header.date_time
            &&& request.channel.uri@ == header.channel_uri@
            &&& request.channel.name@ == answer_laws::known_as(
                state@.channels,
                header.channel_uri@,
            )
            &&& request.sender.uri@ == header.sender_uri@
            &&& request.sender.name@ == answer_laws::known_as(state@.senders, header.sender_uri@)
            &&& request.response_uri@ == answer.header.message_uri
        }),
{
    answer_laws::law_answer_is_begun_for_its_message(
        state@.participant_id,
        message.message_header@,
        now,
    );
    answer_laws::law_agent_is_asked_the_message(state@, message@, now);
}

/// An answer takes everything until it is over, but for more steps with tools than it can count.
pub proof fn law_taken_input<P>(response: &Response, input: &AnswerInput<P>, answer: bool)
    requires
        call_ensures(Response::accepts::<P>, (response, input), answer),
    ensures
        answer <==> (!response@.finished && (match input {
            AnswerInput::Told(event) => !answer_laws::is_tool_step(event@)
                || response@.tool_counter < u64::MAX,
            _ => true,
        })),
{
    answer_laws::law_answer_takes_what_comes(response@, input@);
}

/// A turn begins by asking the model, with the conversation and the tools that it is given.
pub proof fn law_first_thing_in_a_turn<P, E>(
    messages: Vec<Message>,
    tools: Vec<ToolDefinition>,
    started_at: Timestamp,
    begun: (AgentLoop, LoopAction<P, E>),
)
    requires
        call_ensures(AgentLoop::new::<P, E>, (messages, tools, started_at), begun),
    ensures
        ({
            let turn = begun.0@;
            let action = begun.1;
            &&& action is SendRequest
            &&& message::message_views(action->SendRequest_messages@) == message::message_views(
                messages@,
            )
            &&& tool::definition_views(action->SendRequest_tools@) == tool::definition_views(
                tools@,
            )
            &&& turn.messages == message::message_views(messages@)
            &&& turn.tools == tool::definition_views(tools@)
            &&& turn.started_at == started_at
            &&& turn.recorded.len() == 0
            &&& turn.iterations == 1
            &&& turn.phase is Requesting
        }),
{
}

/// In every step that has a tool run, the tool bears the name of the call at hand, no tool before
/// it does, and it runs on what parsing the call's arguments gave.
pub proof fn law_step_runs_the_calls_tool<P, E>(
    turn: AgentLoop,
    names: Vec<String>,
    next: (AgentLoop, LoopAction<P, E>),
)
    requires
        turn@.phase is Choosing,
        call_ensures(AgentLoop::step::<P, E>, (turn, LoopInput::ToolNames(names)), next),
        next.1 is CallTool,
    ensures
        ({
            let call = turn@.phase->Choosing_call;
            let place = next.1->tool as int;
            &&& place < names@.len()
            &&& names@[place]@ == call.name
            &&& forall|j: int| 0 <= j < place ==> (#[trigger] names@[j])@ != call.name
            &&& json::parsed_arguments(call.arguments) == Ok::<serde_json::Value, Seq<char>>(
                next.1->arguments,
            )
        }),
{
    let all = tool::texts(names@);
    turn_laws::law_tool_of_the_calls_name_runs::<P, E>(turn@, all, next.0@, next.1@);
    assert forall|j: int| 0 <= j < names@.len() implies (#[trigger] names@[j])@ == all[j] by {}
    let call = turn@.phase->Choosing_call;
    assert forall|j: int| 0 <= j < next.1->tool implies (#[trigger] names@[j])@ != call.name by {
        assert(all[j] == names@[j]@);
    }
}

/// Every step of a turn is one that the laws of turns speak of, and leaves the turn well formed;
/// and whether an input is expected is told by where the turn stands.
pub proof fn law_step_of_a_turn<P, E>(
    turn: AgentLoop,
    input: LoopInput<E>,
    next: (AgentLoop, LoopAction<P, E>),
    answer: bool,
)
    ensures
        call_ensures(AgentLoop::step::<P, E>, (turn, input), next) ==> agent_loop::steps(
            turn@,
            input@,
            next.0@,
            next.1@,
        ) && next.0@.wf(),
        call_ensures(AgentLoop::expects::<E>, (&turn, &input), answer) ==> (answer
            <==> agent_loop::expects(turn@.phase, input@)),
{
}

/// Calls that are complete are all carried out: one for each index, under the id and the name
/// and with the arguments gathered there, and none before one whose id comes earlier. Where a
/// call is not complete, the error names the index of such a call.
pub proof fn law_calls_to_carry_out(
    partials: HashMap<usize, PartialToolCall>,
    result: Result<Vec<CompletedToolCall>, LlmError>,
)
    requires
        call_ensures(tool_calls::completed_tool_calls, (partials,), result),
    ensures
        ({
            let gathered = tool_calls::partial_views(partials@);
            &&& result is Ok ==> {
                &&& exists|order: Seq<usize>|
                    turn_laws::one_for_each(
                        gathered,
                        order,
                        tool_calls::completed_views(result->Ok_0@),
                    )
                &&& forall|i: int, j: int|
                    0 <= i < j < result->Ok_0@.len() ==> text::text_le(
                        (#[trigger] result->Ok_0@[i]).id@,
                        (#[trigger] result->Ok_0@[j]).id@,
                    )
            }
            &&& result is Err ==> {
                let index = result->Err_0->MissingIdOrName_index;
                &&& result->Err_0 is MissingIdOrName
                &&& gathered.contains_key(index)
                &&& gathered[index].id is None || gathered[index].name is None
            }
            &&& result is Err <==> exists|index: usize|
                #![trigger gathered[index]]
                gathered.contains_key(index) && (gathered[index].id is None
                    || gathered[index].name is None)
        }),
{
    let gathered = tool_calls::partial_views(partials@);
    if result is Ok {
        let calls = tool_calls::completed_views(result->Ok_0@);
        assert forall|index: usize| #[trigger] gathered.contains_key(index) implies gathered[index].id
            is Some && gathered[index].name is Some by {
            assert(tool_calls::is_complete(gathered[index]));
        }
        turn_laws::law_listed_calls_are_the_gathered_ones(gathered, calls);
        assert forall|i: int, j: int| 0 <= i < j < result->Ok_0@.len() implies text::text_le(
            (#[trigger] result->Ok_0@[i]).id@,
            (#[trigger] result->Ok_0@[j]).id@,
        ) by {
            assert(calls[i] == result->Ok_0@[i]@ && calls[j] == result->Ok_0@[j]@);
        }
    } else {
        let index = choose|index: usize|
            result->Err_0 == (LlmError::MissingIdOrName { index }) && gathered.contains_key(index)
                && !tool_calls::is_complete(#[trigger] gathered[index]);
        tool_calls::law_complete_call_is_what_was_gathered(gathered[index]);
    }
}

/// Whether a piece grew the call of its index and no other, and was news exactly if that call
/// was not under way.
pub open spec fn gathered_right<P>(
    before: Map<usize, PartialView>,
    after: Map<usize, PartialView>,
    index: usize,
    id: Option<String>,
    name: Option<String>,
    delta: Seq<char>,
    news: Option<Result<AgentEvent<P>, LlmError>>,
    other: usize,
) -> bool {
    let known = before.contains_key(index);
    &&& after.contains_key(index)
    &&& after[index].started
    &&& id is Some ==> after[index].id == Some(id->Some_0@)
    &&& name is Some ==> after[index].name == Some(name->Some_0@)
    &&& id is None ==> after[index].id == (if known {
        before[index].id
    } else {
        None
    })
    &&& name is None ==> after[index].name == (if known {
        before[index].name
    } else {
        None
    })
    &&& after[index].arguments == (if known {
        before[index].arguments
    } else {
        Seq::empty()
    }) + delta
    &&& other != index ==> (after.contains_key(other) <==> before.contains_key(other))
    &&& other != index && before.contains_key(other) ==> after[other] == before[other]
    &&& news is None <==> known && before[index].started
    &&& news is Some ==> match (after[index].id, after[index].name) {
        (Some(id), Some(name)) => {
            &&& news->Some_0 is Ok
            &&& news->Some_0->Ok_0 is ToolCallStarted
            &&& news->Some_0->Ok_0->ToolCallStarted_id@ == id
            &&& news->Some_0->Ok_0->ToolCallStarted_name@ == name
        },
        _ => news->Some_0 is Err && news->Some_0->Err_0
            == (LlmError::MissingOnFirstChunk { index }),
    }
}

/// A piece grows the call of its index and no other, and is news exactly if that call was not
/// under way.
pub proof fn law_gathered_piece<P>(
    index: usize,
    id: Option<String>,
    name: Option<String>,
    delta: &str,
    news: Option<Result<AgentEvent<P>, LlmError>>,
    other: usize,
)
    ensures
        forall|partials: &mut HashMap<usize, PartialToolCall>| #[trigger]
            call_ensures(
                tool_calls::apply_tool_call_delta::<P>,
                (partials, index, id, name, delta),
                news,
            ) ==> gathered_right(
                tool_calls::partial_views(partials@),
                tool_calls::partial_views(final(partials)@),
                index,
                id,
                name,
                delta@,
                news,
                other,
            ),
{
    assert forall|partials: &mut HashMap<usize, PartialToolCall>| #[trigger]
        call_ensures(
            tool_calls::apply_tool_call_delta::<P>,
            (partials, index, id, name, delta),
            news,
        ) implies gathered_right(
        tool_calls::partial_views(partials@),
        tool_calls::partial_views(final(partials)@),
        index,
        id,
        name,
        delta@,
        news,
        other,
    ) by {
        let before = tool_calls::partial_views(partials@);
        tool_calls::law_piece_changes_its_call_only(
            before,
            index,
            text::opt_text(id),
            text::opt_text(name),
            delta@,
            other,
        );
        tool_calls::law_piece_is_news_once::<P>(
            before,
            index,
            text::opt_text(id),
            text::opt_text(name),
        );
    }
}

/// Whether a participant knows after an event what the event teaches, and else what it knew.
pub open spec fn taught(
    before: AgentStateView,
    after: AgentStateView,
    told: Option<CoreEventView>,
    uri: Seq<char>,
) -> bool {
    &&& after.participant_id == before.participant_id
    &&& match told {
        Some(CoreEventView::ChannelDiscovered { channel_uri, display_name }) => {
            &&& after.senders == before.senders
            &&& answer_laws::known_as(after.channels, channel_uri) == display_name
            &&& uri != channel_uri ==> answer_laws::known_as(after.channels, uri)
                == answer_laws::known_as(before.channels, uri)
        },
        Some(CoreEventView::SenderDiscovered { sender_uri, display_name }) => {
            &&& after.channels == before.channels
            &&& answer_laws::known_as(after.senders, sender_uri) == display_name
            &&& uri != sender_uri ==> answer_laws::known_as(after.senders, uri)
                == answer_laws::known_as(before.senders, uri)
        },
        _ => after == before,
    }
}

/// What an event tells that every participant understands.
pub open spec fn told_by<P>(event: EventView<P>) -> Option<CoreEventView> {
    match event.payload {
        PayloadView::Core(told) => Some(told),
        PayloadView::Custom(_) => None,
    }
}

/// Whether an event completes a message.
pub open spec fn completes<P>(event: EventView<P>) -> bool {
    event.payload is Core && event.payload->Core_0 is MessageStreamCompleted
}

/// A participant learns from an event what it teaches. It hands on the message that an event
/// completes, as it was completed: to be answered exactly if another participant sent it.
pub proof fn law_heard_event<A, P>(
    told: &CoreEvent,
    event: &Event<P>,
    applied: Option<CompleteMessage>,
    message: Option<CompleteMessage>,
    uri: Seq<char>,
)
    ensures
        forall|state: &mut AgentState<A>| #[trigger]
            call_ensures(AgentState::<A>::project, (state, told, applied), message) ==> {
                &&& taught(state@, final(state)@, Some(told@), uri)
                &&& event::opt_message(message) == (if told is MessageStreamCompleted {
                    event::opt_message(applied)
                } else {
                    None
                })
                &&& final(state).its_agent() == state.its_agent()
            },
        forall|state: &mut AgentState<A>| #[trigger]
            call_ensures(AgentState::<A>::receive::<P>, (state, event, applied), message) ==> {
                &&& taught(state@, final(state)@, told_by(event@), uri)
                &&& event::opt_message(message) == (if completes(event@) && event.origin@
                    != state@.participant_id {
                    event::opt_message(applied)
                } else {
                    None
                })
                &&& final(state).its_agent() == state.its_agent()
            },
{
    assert forall|state: &mut AgentState<A>| #[trigger]
        call_ensures(AgentState::<A>::project, (state, told, applied), message) implies {
        &&& taught(state@, final(state)@, Some(told@), uri)
        &&& event::opt_message(message) == (if told is MessageStreamCompleted {
            event::opt_message(applied)
        } else {
            None
        })
        &&& final(state).its_agent() == state.its_agent()
    } by {
        answer_laws::law_last_part_completes_the_message(told@, event::opt_message(applied));
        answer_laws::law_only_discoveries_teach::<P>(
            state@,
            EventView { origin: Seq::empty(), payload: PayloadView::Core(told@) },
            uri,
        );
    }
    assert forall|state: &mut AgentState<A>| #[trigger]
        call_ensures(AgentState::<A>::receive::<P>, (state, event, applied), message) implies {
        &&& taught(state@, final(state)@, told_by(event@), uri)
        &&& event::opt_message(message) == (if completes(event@) && event.origin@
            != state@.participant_id {
            event::opt_message(applied)
        } else {
            None
        })
        &&& final(state).its_agent() == state.its_agent()
    } by {
        answer_laws::law_messages_of_others_are_answered(
            state@.participant_id,
            event@,
            event::opt_message(applied),
        );
        answer_laws::law_only_discoveries_teach(state@, event@, uri);
    }
}

/// Whether what an agent is told of the past is the message that the event completed: what it
/// says, when it was sent, where and by whom, under the names known for these, and whether it
/// is the agent's own.
pub open spec fn told_as_it_was(
    told: ReplayedMessage,
    state: AgentStateView,
    origin: Seq<char>,
    message: CompleteMessage,
) -> bool {
    let header = message.message_header;
    &&& told.content@ == message.content@
    &&& told.timestamp == header.date_time
    &&& told.channel.uri@ == header.channel_uri@
    &&& told.channel.name@ == answer_laws::known_as(state.channels, header.channel_uri@)
    &&& told.sender.uri@ == header.sender_uri@
    &&& told.sender.name@ == answer_laws::known_as(state.senders, header.sender_uri@)
    &&& told.is_self <==> origin == state.participant_id
}

/// Whether a participant learned from an event of the past what it teaches, and its agent was
/// told the message that the event completes, as it was.
pub open spec fn replayed_right<P>(
    before: AgentStateView,
    after: AgentStateView,
    event: Event<P>,
    applied: Option<CompleteMessage>,
    told: Option<ReplayedMessage>,
    uri: Seq<char>,
) -> bool {
    &&& taught(before, after, told_by(event@), uri)
    &&& told is Some <==> completes(event@) && applied is Some
    &&& told is Some ==> told_as_it_was(told->Some_0, before, event.origin@, applied->Some_0)
}

proof fn lemma_replayed_right<P>(
    state: AgentStateView,
    event: Event<P>,
    applied: Option<CompleteMessage>,
    told: Option<ReplayedMessage>,
    uri: Seq<char>,
)
    requires
        participant::opt_replayed(told) == participant::replayed(
            state,
            event@,
            event::opt_message(applied),
        ),
    ensures
        replayed_right(
            state,
            participant::learned_from(state, event@),
            event,
            applied,
            told,
            uri,
        ),
{
    answer_laws::law_past_message_is_told_as_it_was(state, event@, event::opt_message(applied));
    answer_laws::law_only_discoveries_teach(state, event@, uri);
}

/// Of the past an agent is told every message that an event completes, as it was, whoever sent
/// it; and the participant learns from the event what it teaches.
pub proof fn law_past_event<A, P>(
    event: &Event<P>,
    applied: Option<CompleteMessage>,
    told: Option<ReplayedMessage>,
    uri: Seq<char>,
)
    ensures
        forall|state: &mut AgentState<A>| #[trigger]
            call_ensures(AgentState::<A>::replay::<P>, (state, event, applied), told) ==> {
                &&& replayed_right(state@, final(state)@, *event, applied, told, uri)
                &&& final(state).its_agent() == state.its_agent()
            },
        forall|builder: &mut AgentParticipantBuilder<A>| #[trigger]
            call_ensures(
                AgentParticipantBuilder::<A>::catch_up::<P>,
                (builder, event, applied),
                told,
            ) ==> {
                &&& replayed_right(
                    builder.state()@,
                    final(builder).state()@,
                    *event,
                    applied,
                    told,
                    uri,
                )
                &&& final(builder).state().its_agent() == builder.state().its_agent()
            },
{
    assert forall|state: &mut AgentState<A>| #[trigger]
        call_ensures(AgentState::<A>::replay::<P>, (state, event, applied), told) implies {
        &&& replayed_right(state@, final(state)@, *event, applied, told, uri)
        &&& final(state).its_agent() == state.its_agent()
    } by {
        lemma_replayed_right(state@, *event, applied, told, uri);
    }
    assert forall|builder: &mut AgentParticipantBuilder<A>| #[trigger]
        call_ensures(
            AgentParticipantBuilder::<A>::catch_up::<P>,
            (builder, event, applied),
            told,
        ) implies {
        &&& replayed_right(
            builder.state()@,
            final(builder).state()@,
            *event,
            applied,
            told,
            uri,
        )
        &&& final(builder).state().its_agent() == builder.state().its_agent()
    } by {
        lemma_replayed_right(builder.state()@, *event, applied, told, uri);
    }
}

/// A participant that is being prepared is a new one, and is handed out as it is.
pub proof fn law_prepared_participant<A>(
    id: ParticipantId,
    agent: A,
    builder: AgentParticipantBuilder<A>,
    state: AgentState<A>,
    uri: Seq<char>,
    held: &A,
)
    ensures
        call_ensures(AgentParticipantBuilder::<A>::new, (id, agent), builder) ==> {
            &&& builder.state()@.participant_id == id@
            &&& builder.state().its_agent() == agent
            &&& !builder.state()@.channels.dom().contains(uri)
            &&& !builder.state()@.senders.dom().contains(uri)
        },
        call_ensures(AgentParticipantBuilder::<A>::into_state, (builder,), state) ==> state
            == builder.state(),
        call_ensures(AgentParticipantBuilder::<A>::agent, (&builder,), held) ==> *held
            == builder.state().its_agent(),
        call_ensures(AgentState::<A>::agent, (&state,), held) ==> *held == state.its_agent(),
{
}

/// An event belongs to a message exactly if it is a part of one or completes one.
pub proof fn law_part_of_a_message(event: &CoreEvent, answer: bool)
    requires
        call_ensures(participant::is_message_part, (event,), answer),
    ensures
        answer <==> event is MessageStreamChunk || event is MessageStreamCompleted,
{
}

/// Whether what an answer sends for an input is right: a text and a payload as they are, the end
/// as it came, and a step with tools in a message of its own that tells all of it.
pub open spec fn sends<P>(
    answer: ResponseView,
    input: AnswerInputView<P>,
    now: Timestamp,
    events: Seq<EventView<P>>,
) -> bool {
    let origin = answer.participant_id;
    match input {
        AnswerInputView::Failed => events.len() == 1 && answer_laws::is_failure(
            events[0],
            origin,
            answer.header,
        ),
        AnswerInputView::Ended => events.len() == 1 && answer_laws::is_completion(
            events[0],
            origin,
            answer.header,
        ),
        AnswerInputView::Told(AgentEventView::TextDelta(content)) => events.len() == 1
            && answer_laws::is_chunk(events[0], origin, answer.header, content),
        AnswerInputView::Told(AgentEventView::Custom(payload)) => events.len() == 1
            && events[0].origin == origin && events[0].payload is Custom
            && events[0].payload->Custom_0 == payload,
        AnswerInputView::Told(step) => {
            let header = events[1].payload->Core_0->MessageStreamCompleted_message_header;
            let content = events[0].payload->Core_0->content;
            &&& events.len() == 2
            &&& answer_laws::is_chunk(events[0], origin, header, content)
            &&& answer_laws::is_completion(events[1], origin, header)
            &&& header.channel_uri == answer.header.channel_uri
            &&& header.sender_uri == answer.header.sender_uri
            &&& header.date_time == now
            &&& header.message_uri == answer.header.message_uri + ":tool:"@ + text::decimal(
                answer.tool_counter + 1,
            )
            &&& answer_laws::tells_step(content, step)
        },
    }
}

/// An answer sends what it should for each input. It stays what it is, but that its steps with
/// tools are counted, and that it is over after its end.
pub proof fn law_step_of_an_answer<P>(input: AnswerInput<P>, now: Timestamp, events: Vec<Event<P>>)
    ensures
        forall|answer: &mut Response| #[trigger]
            call_ensures(Response::step::<P>, (answer, input, now), events) ==> {
                let before = answer@;
                let after = final(answer)@;
                &&& sends(before, input@, now, event::event_views(events@))
                &&& after.participant_id == before.participant_id
                &&& after.header == before.header
                &&& after.tool_counter == before.tool_counter + (if input is Told
                    && answer_laws::is_tool_step(input->Told_0@) {
                    1int
                } else {
                    0int
                })
                &&& after.finished == (before.finished || !(input is Told))
            },
{
    assert forall|answer: &mut Response| #[trigger]
        call_ensures(Response::step::<P>, (answer, input, now), events) implies {
        let before = answer@;
        let after = final(answer)@;
        &&& sends(before, input@, now, event::event_views(events@))
        &&& after.participant_id == before.participant_id
        &&& after.header == before.header
        &&& after.tool_counter == before.tool_counter + (if input is Told
            && answer_laws::is_tool_step(input->Told_0@) {
            1int
        } else {
            0int
        })
        &&& after.finished == (before.finished || !(input is Told))
    } by {
        let before = answer@;
        answer_laws::law_end_is_sent::<P>(before, now);
        if input is Told {
            let told = input->Told_0@;
            if answer_laws::is_tool_step(told) {
                answer_laws::law_tool_step_is_sent(before, told, now);
            } else if told is TextDelta {
                answer_laws::law_told_text_is_sent::<P>(before, told->TextDelta_0, now);
            } else {
                answer_laws::law_told_payload_is_sent(before, told->Custom_0, now);
            }
        }
    }
}

} // verus!
