//! The conversation in the form of the OpenAI API: requests built with `async_openai`, and the
//! chunks that its streams bring.

use async_openai::error::OpenAIError;
use async_openai::types::chat::{
    ChatCompletionMessageToolCall, ChatCompletionMessageToolCalls,
    ChatCompletionRequestAssistantMessageArgs, ChatCompletionRequestDeveloperMessageArgs,
    ChatCompletionRequestMessage, ChatCompletionRequestSystemMessageArgs,
    ChatCompletionRequestToolMessageArgs, ChatCompletionRequestUserMessageArgs,
    ChatCompletionTool, ChatCompletionToolChoiceOption, ChatCompletionTools,
    CreateChatCompletionRequest, CreateChatCompletionRequestArgs, FunctionCall, FunctionObject,
    ToolChoiceOptions,
};
use vstd::prelude::*;
use crate::llm::{LlmEvent, LlmEventView};
use crate::message::{self, Message, MessageView, ToolCall, ToolCallView};
use crate::text;
use crate::tool::{self, ToolDefinition, ToolDefinitionView};

verus! {

/// A message of a request, which the library only builds and carries.
#[verifier::external_type_specification]
#[verifier::external_body]
pub struct ExRequestMessage(ChatCompletionRequestMessage);

/// A tool call in a message of a request.
#[verifier::external_type_specification]
#[verifier::external_body]
pub struct ExRequestToolCall(ChatCompletionMessageToolCalls);

/// A tool that a request offers.
#[verifier::external_type_specification]
#[verifier::external_body]
pub struct ExRequestTool(ChatCompletionTools);

/// A request.
#[verifier::external_type_specification]
#[verifier::external_body]
pub struct ExRequest(CreateChatCompletionRequest);

/// An error of `async_openai`.
#[verifier::external_type_specification]
#[verifier::external_body]
pub struct ExOpenAiError(OpenAIError);

/// What a message says in a request.
#[derive(Debug, PartialEq, Eq)]
pub enum RequestMessage {
    System { content: String },
    Developer { content: String },
    User { content: String },
    Assistant { text: Option<String>, tool_calls: Option<Vec<ToolCall>> },
    Tool { tool_call_id: String, content: String },
}

/// The model of a [`RequestMessage`].
pub enum RequestMessageView {
    System { content: Seq<char> },
    Developer { content: Seq<char> },
    User { content: Seq<char> },
    Assistant { text: Option<Seq<char>>, tool_calls: Option<Seq<ToolCallView>> },
    Tool { tool_call_id: Seq<char>, content: Seq<char> },
}

/// The models of an optional list of tool calls.
pub open spec fn opt_calls(calls: Option<Vec<ToolCall>>) -> Option<Seq<ToolCallView>> {
    match calls {
        Some(calls) => Some(message::tool_call_views(calls@)),
        None => None,
    }
}

impl View for RequestMessage {
    type V = RequestMessageView;

    open spec fn view(&self) -> RequestMessageView {
        match self {
            RequestMessage::System { content } => RequestMessageView::System { content: content@ },
            RequestMessage::Developer { content } => RequestMessageView::Developer {
                content: content@,
            },
            RequestMessage::User { content } => RequestMessageView::User { content: content@ },
            RequestMessage::Assistant { text, tool_calls } => RequestMessageView::Assistant {
                text: text::opt_text(*text),
                tool_calls: opt_calls(*tool_calls),
            },
            RequestMessage::Tool { tool_call_id, content } => RequestMessageView::Tool {
                tool_call_id: tool_call_id@,
                content: content@,
            },
        }
    }
}

/// How a message is put in a request: as it is, but for an assistant's text or calls, which
/// are left out where there are none.
pub open spec fn requested(message: MessageView) -> RequestMessageView {
    match message {
        MessageView::System { content } => RequestMessageView::System { content },
        MessageView::Developer { content } => RequestMessageView::Developer { content },
        MessageView::User { content } => RequestMessageView::User { content },
        MessageView::Assistant { text, tool_calls } => RequestMessageView::Assistant {
            text: if text.len() == 0 {
                None
            } else {
                Some(text)
            },
            tool_calls: if tool_calls.len() == 0 {
                None
            } else {
                Some(tool_calls)
            },
        },
        MessageView::ToolResult { tool_call_id, content } => RequestMessageView::Tool {
            tool_call_id,
            content,
        },
    }
}

/// A request loses nothing of a message: different messages are put differently.
pub proof fn law_requests_tell_messages_apart(a: MessageView, b: MessageView)
    ensures
        requested(a) == requested(b) ==> a == b,
{
    if requested(a) == requested(b) && a is Assistant {
        if a->text.len() == 0 {
            assert(a->text =~= b->text);
        }
        if a->Assistant_tool_calls.len() == 0 {
            assert(a->Assistant_tool_calls =~= b->Assistant_tool_calls);
        }
    }
}

/// Puts a message the way a request has it.
pub fn request_message(message: Message) -> (request: RequestMessage)
    ensures
        request@ == requested(message@),
{
    match message {
        Message::System { content } => RequestMessage::System { content },
        Message::Developer { content } => RequestMessage::Developer { content },
        Message::User { content } => RequestMessage::User { content },
        Message::Assistant { text, tool_calls } => {
            let text = if text.as_str().is_empty() {
                None
            } else {
                Some(text)
            };
            let tool_calls = if tool_calls.is_empty() {
                None
            } else {
                Some(tool_calls)
            };
            RequestMessage::Assistant { text, tool_calls }
        },
        Message::ToolResult { tool_call_id, content } => RequestMessage::Tool {
            tool_call_id,
            content,
        },
    }
}

/// The system message that `ChatCompletionRequestSystemMessageArgs` builds for a content.
pub uninterp spec fn system_message(content: Seq<char>) -> ChatCompletionRequestMessage;

/// Builds a `ChatCompletionRequestSystemMessageArgs` with its content set. Every field has a
/// default, so that `build` succeeds; the message depends on the content alone.
#[verifier::external_body]
pub(crate) fn build_system_message(content: String) -> (result: Result<
    ChatCompletionRequestMessage,
    OpenAIError,
>)
    ensures
        result is Ok,
        result->Ok_0 == system_message(content@),
{
    let message = ChatCompletionRequestSystemMessageArgs::default().content(content).build()?;
    Ok(ChatCompletionRequestMessage::System(message))
}

/// The message that `ChatCompletionRequestDeveloperMessageArgs` builds for a content.
pub uninterp spec fn developer_message(content: Seq<char>) -> ChatCompletionRequestMessage;

/// Builds a `ChatCompletionRequestDeveloperMessageArgs` with its content set. Every field has
/// a default, so that `build` succeeds; the message depends on the content alone.
#[verifier::external_body]
pub(crate) fn build_developer_message(content: String) -> (result: Result<
    ChatCompletionRequestMessage,
    OpenAIError,
>)
    ensures
        result is Ok,
        result->Ok_0 == developer_message(content@),
{
    let message = ChatCompletionRequestDeveloperMessageArgs::default().content(content).build()?;
    Ok(ChatCompletionRequestMessage::Developer(message))
}

/// The message that `ChatCompletionRequestUserMessageArgs` builds for a content.
pub uninterp spec fn user_message(content: Seq<char>) -> ChatCompletionRequestMessage;

/// Builds a `ChatCompletionRequestUserMessageArgs` with its content set. Every field has a
/// default, so that `build` succeeds; the message depends on the content alone.
#[verifier::external_body]
pub(crate) fn build_user_message(content: String) -> (result: Result<
    ChatCompletionRequestMessage,
    OpenAIError,
>)
    ensures
        result is Ok,
        result->Ok_0 == user_message(content@),
{
    let message = ChatCompletionRequestUserMessageArgs::default().content(content).build()?;
    Ok(ChatCompletionRequestMessage::User(message))
}

/// The function call with this id, function name and arguments.
pub uninterp spec fn function_call(
    id: Seq<char>,
    name: Seq<char>,
    arguments: Seq<char>,
) -> ChatCompletionMessageToolCalls;

/// Makes a `ChatCompletionMessageToolCalls::Function` out of its id, name and arguments, which
/// are all that it holds.
#[verifier::external_body]
pub(crate) fn make_function_call(id: String, name: String, arguments: String) -> (call:
    ChatCompletionMessageToolCalls)
    ensures
        call == function_call(id@, name@, arguments@),
{
    let function = FunctionCall { name, arguments };
    ChatCompletionMessageToolCalls::Function(ChatCompletionMessageToolCall { id, function })
}

/// The calls of a message, as function calls.
pub open spec fn function_calls(calls: Seq<ToolCallView>) -> Seq<ChatCompletionMessageToolCalls> {
    calls.map_values(|call: ToolCallView| function_call(call.id, call.name, call.arguments))
}

/// Makes the calls of a message function calls.
pub fn to_function_calls(calls: Vec<ToolCall>) -> (result: Vec<ChatCompletionMessageToolCalls>)
    ensures
        result@ == function_calls(message::tool_call_views(calls@)),
{
    let mut result: Vec<ChatCompletionMessageToolCalls> = Vec::new();
    let ghost views = message::tool_call_views(calls@);
    for i in 0..calls.len()
        invariant
            views == message::tool_call_views(calls@),
            result@ == function_calls(views).take(i as int),
    {
        let call = calls[i].clone();
        result.push(make_function_call(call.id, call.name, call.arguments));
        assert(function_calls(views).take(i + 1) =~= function_calls(views).take(i as int).push(
            function_calls(views)[i as int],
        ));
    }
    assert(function_calls(views).take(calls@.len() as int) =~= function_calls(views));
    result
}

/// The message that `ChatCompletionRequestAssistantMessageArgs` builds where the content and
/// the tool calls that are given are set, and nothing else is.
pub uninterp spec fn assistant_message(
    content: Option<Seq<char>>,
    tool_calls: Option<Seq<ChatCompletionMessageToolCalls>>,
) -> ChatCompletionRequestMessage;

/// The contents of an optional list.
pub open spec fn opt_seq<T>(list: Option<Vec<T>>) -> Option<Seq<T>> {
    match list {
        Some(list) => Some(list@),
        None => None,
    }
}

/// Builds a `ChatCompletionRequestAssistantMessageArgs` with those of its content and its tool
/// calls set that are given. Every field has a default, so that `build` succeeds; the message
/// depends on the content and the calls alone.
#[verifier::external_body]
pub(crate) fn build_assistant_message(
    content: Option<String>,
    tool_calls: Option<Vec<ChatCompletionMessageToolCalls>>,
) -> (result: Result<ChatCompletionRequestMessage, OpenAIError>)
    ensures
        result is Ok,
        result->Ok_0 == assistant_message(text::opt_text(content), opt_seq(tool_calls)),
{
    let mut args = ChatCompletionRequestAssistantMessageArgs::default();
    if let Some(content) = content {
        args.content(content);
    }
    if let Some(tool_calls) = tool_calls {
        args.tool_calls(tool_calls);
    }
    Ok(ChatCompletionRequestMessage::Assistant(args.build()?))
}

/// The message that `ChatCompletionRequestToolMessageArgs` builds for a call's id and the
/// content of its answer.
pub uninterp spec fn tool_message(
    tool_call_id: Seq<char>,
    content: Seq<char>,
) -> ChatCompletionRequestMessage;

/// Builds a `ChatCompletionRequestToolMessageArgs` with its tool call id and its content set.
/// Every field has a default, so that `build` succeeds; the message depends on the two alone.
#[verifier::external_body]
pub(crate) fn build_tool_message(tool_call_id: String, content: String) -> (result: Result<
    ChatCompletionRequestMessage,
    OpenAIError,
>)
    ensures
        result is Ok,
        result->Ok_0 == tool_message(tool_call_id@, content@),
{
    let mut args = ChatCompletionRequestToolMessageArgs::default();
    let message = args.tool_call_id(tool_call_id).content(content).build()?;
    Ok(ChatCompletionRequestMessage::Tool(message))
}

/// What `async_openai` makes of a message of a request.
pub open spec fn built_message(request: RequestMessageView) -> ChatCompletionRequestMessage {
    match request {
        RequestMessageView::System { content } => system_message(content),
        RequestMessageView::Developer { content } => developer_message(content),
        RequestMessageView::User { content } => user_message(content),
        RequestMessageView::Assistant { text, tool_calls } => assistant_message(
            text,
            match tool_calls {
                Some(calls) => Some(function_calls(calls)),
                None => None,
            },
        ),
        RequestMessageView::Tool { tool_call_id, content } => tool_message(tool_call_id, content),
    }
}

/// Puts a message in the form of the API.
pub fn to_openai_message(message: Message) -> (result: Result<
    ChatCompletionRequestMessage,
    OpenAIError,
>)
    ensures
        result is Ok,
        result->Ok_0 == built_message(requested(message@)),
{
    match request_message(message) {
        RequestMessage::System { content } => build_system_message(content),
        RequestMessage::Developer { content } => build_developer_message(content),
        RequestMessage::User { content } => build_user_message(content),
        RequestMessage::Assistant { text, tool_calls } => {
            let tool_calls = match tool_calls {
                Some(calls) => Some(to_function_calls(calls)),
                None => None,
            };
            build_assistant_message(text, tool_calls)
        },
        RequestMessage::Tool { tool_call_id, content } => build_tool_message(
            tool_call_id,
            content,
        ),
    }
}

/// The messages of a conversation, as `async_openai` builds them.
pub open spec fn built_messages(messages: Seq<MessageView>) -> Seq<ChatCompletionRequestMessage> {
    messages.map_values(|message: MessageView| built_message(requested(message)))
}

/// Puts a conversation in the form of the API.
pub fn to_openai_messages(messages: Vec<Message>) -> (result: Result<
    Vec<ChatCompletionRequestMessage>,
    OpenAIError,
>)
    ensures
        result is Ok,
        result->Ok_0@ == built_messages(message::message_views(messages@)),
{
    let ghost all = message::message_views(messages@);
    let mut result: Vec<ChatCompletionRequestMessage> = Vec::new();
    for message in it: messages
        invariant
            all == message::message_views(it.seq()),
            result@ == built_messages(all).take(it.index()),
    {
        assert(built_messages(all).take(it.index() + 1) =~= built_messages(all).take(
            it.index(),
        ).push(built_message(requested(message@))));
        match to_openai_message(message) {
            Ok(built) => result.push(built),
            Err(error) => {
                return Err(error);
            },
        }
    }
    assert(built_messages(all).take(all.len() as int) =~= built_messages(all));
    Ok(result)
}

/// The function tool with this name, and with this description, these parameters and this
/// strictness, as far as they are set.
pub uninterp spec fn function_tool(
    name: Seq<char>,
    description: Option<Seq<char>>,
    parameters: Option<serde_json::Value>,
    strict: Option<bool>,
) -> ChatCompletionTools;

/// Makes a `ChatCompletionTools::Function` out of its name, description, parameters and
/// strictness, which are all that it holds.
#[verifier::external_body]
pub(crate) fn make_function_tool(
    name: String,
    description: Option<String>,
    parameters: Option<serde_json::Value>,
    strict: Option<bool>,
) -> (tool: ChatCompletionTools)
    ensures
        tool == function_tool(name@, text::opt_text(description), parameters, strict),
{
    let function = FunctionObject { name, description, parameters, strict };
    ChatCompletionTools::Function(ChatCompletionTool { function })
}

/// What the API is told of a tool: all that is known of it, and nothing of strictness.
pub open spec fn offered_tool(tool: ToolDefinitionView) -> ChatCompletionTools {
    function_tool(tool.name, Some(tool.description), Some(tool.parameters_schema), None)
}

/// Puts a tool in the form of the API.
pub fn to_openai_tool(tool: ToolDefinition) -> (result: ChatCompletionTools)
    ensures
        result == offered_tool(tool@),
{
    make_function_tool(tool.name, Some(tool.description), Some(tool.parameters_schema), None)
}

/// Who chooses whether a tool is called.
#[derive(Debug, Clone, Copy, PartialEq, Eq, Structural)]
pub enum ToolChoice {
    /// The model does.
    Auto,
}

/// What a request says of tools: which it offers, and who chooses. It says neither where there
/// are none.
pub open spec fn tool_offer(tools: Seq<ToolDefinitionView>) -> (
    Option<Seq<ToolDefinitionView>>,
    Option<ToolChoice>,
) {
    if tools.len() == 0 {
        (None, None)
    } else {
        (Some(tools), Some(ToolChoice::Auto))
    }
}

/// The models of an optional list of tools.
pub open spec fn opt_definitions(tools: Option<Vec<ToolDefinition>>) -> Option<
    Seq<ToolDefinitionView>,
> {
    match tools {
        Some(tools) => Some(tool::definition_views(tools@)),
        None => None,
    }
}

/// Settles what a request says of tools.
pub fn offer_tools(tools: Vec<ToolDefinition>) -> (offer: (
    Option<Vec<ToolDefinition>>,
    Option<ToolChoice>,
))
    ensures
        (opt_definitions(offer.0), offer.1) == tool_offer(tool::definition_views(tools@)),
{
    if tools.is_empty() {
        (None, None)
    } else {
        (Some(tools), Some(ToolChoice::Auto))
    }
}

/// What the API is told of a list of tools.
pub open spec fn offered_tools(tools: Seq<ToolDefinitionView>) -> Seq<ChatCompletionTools> {
    tools.map_values(|tool: ToolDefinitionView| offered_tool(tool))
}

fn to_openai_tools(tools: Vec<ToolDefinition>) -> (result: Vec<ChatCompletionTools>)
    ensures
        result@ == offered_tools(tool::definition_views(tools@)),
{
    let ghost all = tool::definition_views(tools@);
    let mut result: Vec<ChatCompletionTools> = Vec::new();
    for tool in it: tools
        invariant
            all == tool::definition_views(it.seq()),
            result@ == offered_tools(all).take(it.index()),
    {
        assert(offered_tools(all).take(it.index() + 1) =~= offered_tools(all).take(
            it.index(),
        ).push(offered_tool(tool@)));
        result.push(to_openai_tool(tool));
    }
    assert(offered_tools(all).take(all.len() as int) =~= offered_tools(all));
    result
}

/// The request that `CreateChatCompletionRequestArgs` builds where the model, the messages,
/// and those of the tools and the tool choice that are given are set, and nothing else is.
pub uninterp spec fn chat_request(
    model: Seq<char>,
    messages: Seq<ChatCompletionRequestMessage>,
    tools: Option<Seq<ChatCompletionTools>>,
    choice: Option<ToolChoice>,
) -> CreateChatCompletionRequest;

/// Builds a `CreateChatCompletionRequestArgs` with its model and messages set, and those of its
/// tools and its tool choice that are given. Every field has a default, so that `build`
/// succeeds; the request depends on the four alone.
#[verifier::external_body]
pub(crate) fn build_request(
    model: &str,
    messages: Vec<ChatCompletionRequestMessage>,
    tools: Option<Vec<ChatCompletionTools>>,
    choice: Option<ToolChoice>,
) -> (result: Result<CreateChatCompletionRequest, OpenAIError>)
    ensures
        result is Ok,
        result->Ok_0 == chat_request(model@, messages@, opt_seq(tools), choice),
{
    let mut args = CreateChatCompletionRequestArgs::default();
    args.model(model).messages(messages);
    if let Some(tools) = tools {
        args.tools(tools);
    }
    if let Some(ToolChoice::Auto) = choice {
        args.tool_choice(ChatCompletionToolChoiceOption::Mode(ToolChoiceOptions::Auto));
    }
    args.build()
}

/// The request that asks a model to go on with a conversation, offering it tools.
pub open spec fn request_for(
    model: Seq<char>,
    messages: Seq<MessageView>,
    tools: Seq<ToolDefinitionView>,
) -> CreateChatCompletionRequest {
    let (offered, choice) = tool_offer(tools);
    let offered = match offered {
        Some(tools) => Some(offered_tools(tools)),
        None => None,
    };
    chat_request(model, built_messages(messages), offered, choice)
}

/// Builds the request that asks a model to go on with a conversation, offering it tools.
pub fn to_openai_request(model: &str, messages: Vec<Message>, tools: Vec<ToolDefinition>) -> (
    result: Result<CreateChatCompletionRequest, OpenAIError>)
    ensures
        result is Ok,
        result->Ok_0 == request_for(
            model@,
            message::message_views(messages@),
            tool::definition_views(tools@),
        ),
{
    let messages = match to_openai_messages(messages) {
        Ok(messages) => messages,
        Err(error) => {
            return Err(error);
        },
    };
    let (offered, choice) = offer_tools(tools);
    let offered = match offered {
        Some(tools) => Some(to_openai_tools(tools)),
        None => None,
    };
    build_request(model, messages, offered, choice)
}

/// A piece of a function call, as a stream brings it.
#[derive(Debug, PartialEq, Eq)]
pub struct FunctionChunk {
    pub name: Option<String>,
    pub arguments: Option<String>,
}

/// A piece of a tool call, as a stream brings it.
#[derive(Debug, PartialEq, Eq)]
pub struct ToolCallChunk {
    pub index: u32,
    pub id: Option<String>,
    pub function: Option<FunctionChunk>,
}

/// What a chunk brings for one of the answers that are being made.
#[derive(Debug, PartialEq, Eq)]
pub struct ChunkChoice {
    pub content: Option<String>,
    pub tool_calls: Option<Vec<ToolCallChunk>>,
}

/// One chunk of a stream.
#[derive(Debug, PartialEq, Eq)]
pub struct StreamChunk {
    pub choices: Vec<ChunkChoice>,
}

/// The increment that a piece of a tool call stands for. What is missing of its arguments
/// counts as empty.
pub open spec fn call_delta(chunk: ToolCallChunk) -> LlmEventView {
    LlmEventView::ToolCallDelta {
        index: chunk.index as usize,
        id: text::opt_text(chunk.id),
        name: match chunk.function {
            Some(function) => text::opt_text(function.name),
            None => None,
        },
        arguments_delta: match chunk.function {
            Some(FunctionChunk { arguments: Some(arguments), .. }) => arguments@,
            _ => Seq::empty(),
        },
    }
}

/// The increments that a choice brings: its text first, then its tool calls in their order.
pub open spec fn choice_events(choice: ChunkChoice) -> Seq<LlmEventView> {
    let of_text = match choice.content {
        Some(content) => seq![LlmEventView::TextDelta(content@)],
        None => Seq::empty(),
    };
    let of_calls = match choice.tool_calls {
        Some(calls) => calls@.map_values(|call: ToolCallChunk| call_delta(call)),
        None => Seq::empty(),
    };
    of_text + of_calls
}

/// The increments that a chunk brings: those of its first choice.
pub open spec fn chunk_events(chunk: StreamChunk) -> Seq<LlmEventView> {
    if chunk.choices@.len() == 0 {
        Seq::empty()
    } else {
        choice_events(chunk.choices@[0])
    }
}

/// The models of a list of increments.
pub open spec fn event_views(events: Seq<LlmEvent>) -> Seq<LlmEventView> {
    events.map_values(|event: LlmEvent| event@)
}

/// Makes the increment of a piece of a tool call.
fn to_call_delta(chunk: ToolCallChunk) -> (event: LlmEvent)
    ensures
        event@ == call_delta(chunk),
{
    let (name, arguments_delta) = match chunk.function {
        Some(function) => (
            function.name,
            match function.arguments {
                Some(arguments) => arguments,
                None => String::new(),
            },
        ),
        None => (None, String::new()),
    };
    LlmEvent::ToolCallDelta { index: chunk.index as usize, id: chunk.id, name, arguments_delta }
}

/// Takes the increments out of a chunk.
pub fn extract_events(chunk: StreamChunk) -> (events: Vec<LlmEvent>)
    ensures
        event_views(events@) == chunk_events(chunk),
{
    let mut events: Vec<LlmEvent> = Vec::new();
    assert(event_views(events@) =~= Seq::empty());
    let mut choices = chunk.choices;
    if choices.len() == 0 {
        return events;
    }
    let choice = choices.remove(0);
    if let Some(content) = choice.content {
        events.push(LlmEvent::TextDelta(content));
    }
    let ghost of_text = event_views(events@);
    let calls = match choice.tool_calls {
        Some(calls) => calls,
        None => {
            assert(event_views(events@) =~= choice_events(choice));
            return events;
        },
    };
    let ghost deltas = calls@.map_values(|call: ToolCallChunk| call_delta(call));
    assert(event_views(events@) =~= of_text + deltas.take(0));
    for call in it: calls
        invariant
            deltas == it.seq().map_values(|call: ToolCallChunk| call_delta(call)),
            event_views(events@) == of_text + deltas.take(it.index()),
    {
        let ghost before = events@;
        let event = to_call_delta(call);
        let ghost added = event@;
        events.push(event);
        assert(event_views(events@) =~= event_views(before).push(added));
        assert(of_text + deltas.take(it.index() + 1) =~= (of_text + deltas.take(it.index())).push(
            deltas[it.index()],
        ));
    }
    assert(deltas.take(deltas.len() as int) =~= deltas);
    assert(event_views(events@) =~= choice_events(choice));
    events
}

} // verus!
