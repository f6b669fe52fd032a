//! The messages of a conversation with a language model.

use vstd::prelude::*;

verus! {

/// A tool call that the model asked for.
#[derive(Debug, PartialEq, Eq)]
pub struct ToolCall {
    pub id: String,
    pub name: String,
    pub arguments: String,
}

/// The model of a [`ToolCall`].
pub struct ToolCallView {
    pub id: Seq<char>,
    pub name: Seq<char>,
    pub arguments: Seq<char>,
}

impl View for ToolCall {
    type V = ToolCallView;

    open spec fn view(&self) -> ToolCallView {
        ToolCallView { id: self.id@, name: self.name@, arguments: self.arguments@ }
    }
}

impl Clone for ToolCall {
    fn clone(&self) -> (result: Self)
        ensures
            result == *self,
    {
        ToolCall {
            id: self.id.clone(),
            name: self.name.clone(),
            arguments: self.arguments.clone(),
        }
    }
}

/// The models of a list of tool calls.
pub open spec fn tool_call_views(calls: Seq<ToolCall>) -> Seq<ToolCallView> {
    calls.map_values(|call: ToolCall| call@)
}

/// Copies a list of tool calls.
pub fn copy_tool_calls(calls: &Vec<ToolCall>) -> (result: Vec<ToolCall>)
    ensures
        result@ == calls@,
{
    let mut result: Vec<ToolCall> = Vec::new();
    for i in 0..calls.len()
        invariant
            result@ == calls@.take(i as int),
    {
        result.push(calls[i].clone());
        assert(calls@.take(i + 1) == calls@.take(i as int).push(calls@[i as int]));
    }
    assert(calls@.take(calls@.len() as int) == calls@);
    result
}

/// One message of a conversation, in a form that no provider's API dictates.
#[derive(Debug, PartialEq, Eq)]
pub enum Message {
    System { content: String },
    Developer { content: String },
    User { content: String },
    Assistant { text: String, tool_calls: Vec<ToolCall> },
    ToolResult { tool_call_id: String, content: String },
}

/// The model of a [`Message`].
pub enum MessageView {
    System { content: Seq<char> },
    Developer { content: Seq<char> },
    User { content: Seq<char> },
    Assistant { text: Seq<char>, tool_calls: Seq<ToolCallView> },
    ToolResult { tool_call_id: Seq<char>, content: Seq<char> },
}

impl View for Message {
    type V = MessageView;

    open spec fn view(&self) -> MessageView {
        match self {
            Message::System { content } => MessageView::System { content: content@ },
            Message::Developer { content } => MessageView::Developer { content: content@ },
            Message::User { content } => MessageView::User { content: content@ },
            Message::Assistant { text, tool_calls } => MessageView::Assistant {
                text: text@,
                tool_calls: tool_call_views(tool_calls@),
            },
            Message::ToolResult { tool_call_id, content } => MessageView::ToolResult {
                tool_call_id: tool_call_id@,
                content: content@,
            },
        }
    }
}

impl Clone for Message {
    fn clone(&self) -> (result: Self)
        ensures
            result@ == self@,
    {
        match self {
            Message::System { content } => Message::System { content: content.clone() },
            Message::Developer { content } => Message::Developer { content: content.clone() },
            Message::User { content } => Message::User { content: content.clone() },
            Message::Assistant { text, tool_calls } => Message::Assistant {
                text: text.clone(),
                tool_calls: copy_tool_calls(tool_calls),
            },
            Message::ToolResult { tool_call_id, content } => Message::ToolResult {
                tool_call_id: tool_call_id.clone(),
                content: content.clone(),
            },
        }
    }
}

/// The models of a list of messages.
pub open spec fn message_views(messages: Seq<Message>) -> Seq<MessageView> {
    messages.map_values(|message: Message| message@)
}

/// Copies a conversation.
pub fn copy_messages(messages: &Vec<Message>) -> (result: Vec<Message>)
    ensures
        message_views(result@) == message_views(messages@),
{
    let mut result: Vec<Message> = Vec::new();
    for i in 0..messages.len()
        invariant
            message_views(result@) == message_views(messages@).take(i as int),
    {
        let ghost before = result@;
        result.push(messages[i].clone());
        assert(message_views(result@) == message_views(before).push(messages@[i as int]@));
        assert(message_views(messages@).take(i + 1) == message_views(messages@).take(
            i as int,
        ).push(messages@[i as int]@));
    }
    assert(message_views(messages@).take(messages@.len() as int) == message_views(messages@));
    result
}

impl Message {
    /// A message that sets the ground rules.
    pub fn system(content: &str) -> (message: Self)
        ensures
            message@ == (MessageView::System { content: content@ }),
    {
        Message::System { content: content.to_owned() }
    }

    /// A message of the application's developer.
    pub fn developer(content: &str) -> (message: Self)
        ensures
            message@ == (MessageView::Developer { content: content@ }),
    {
        Message::Developer { content: content.to_owned() }
    }

    /// A message of the user.
    pub fn user(content: &str) -> (message: Self)
        ensures
            message@ == (MessageView::User { content: content@ }),
    {
        Message::User { content: content.to_owned() }
    }
}

} // verus!
