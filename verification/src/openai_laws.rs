//! What a request says of a conversation and its tools, and what comes out of a stream.

use async_openai::types::chat::{ChatCompletionRequestMessage, ChatCompletionTools};
use vstd::prelude::*;
use crate::llm::LlmEventView;
use crate::loop_laws;
use crate::message::{MessageView, ToolCallView};
use crate::openai::{self, ChunkChoice, StreamChunk, ToolCallChunk, ToolChoice};
use crate::tool::ToolDefinitionView;
use crate::tool_calls;

verus! {

/// Whether a message of a request says what a message of the conversation says. Of an
/// assistant's message, the text and the calls are set where there are any, and each call with
/// its id, its name and its arguments.
pub open spec fn says(built: ChatCompletionRequestMessage, message: MessageView) -> bool {
    match message {
        MessageView::System { content } => built == openai::system_message(content),
        MessageView::Developer { content } => built == openai::developer_message(content),
        MessageView::User { content } => built == openai::user_message(content),
        MessageView::Assistant { text, tool_calls } => built == openai::assistant_message(
            if text.len() > 0 {
                Some(text)
            } else {
                None
            },
            if tool_calls.len() > 0 {
                Some(
                    Seq::new(
                        tool_calls.len(),
                        |i: int|
                            openai::function_call(
                                tool_calls[i].id,
                                tool_calls[i].name,
                                tool_calls[i].arguments,
                            ),
                    ),
                )
            } else {
                None
            },
        ),
        MessageView::ToolResult { tool_call_id, content } => built == openai::tool_message(
            tool_call_id,
            content,
        ),
    }
}

/// A message is put in the form of the API with all that it says.
pub proof fn law_built_message_says_the_same(message: MessageView)
    ensures
        says(openai::built_message(openai::requested(message)), message),
{
    if message is Assistant {
        let calls = message->tool_calls;
        assert(openai::function_calls(calls) =~= Seq::new(
            calls.len(),
            |i: int| openai::function_call(calls[i].id, calls[i].name, calls[i].arguments),
        ));
    }
}

/// The calls of a message become as many function calls, each with the id, the name and the
/// arguments of the call in its place.
pub proof fn law_function_calls_are_the_calls(calls: Seq<ToolCallView>, i: int)
    ensures
        openai::function_calls(calls).len() == calls.len(),
        0 <= i < calls.len() ==> openai::function_calls(calls)[i] == openai::function_call(
            calls[i].id,
            calls[i].name,
            calls[i].arguments,
        ),
{
}

/// What is put in a request of each message: its kind and its text stay, and an assistant's
/// text or calls are left out exactly where there are none.
pub proof fn law_requested_message_keeps_its_content(message: MessageView)
    ensures
        ({
            let request = openai::requested(message);
            match message {
                MessageView::System { content } => request is System && request->System_content
                    == content,
                MessageView::Developer { content } => request is Developer
                    && request->Developer_content == content,
                MessageView::User { content } => request is User && request->User_content
                    == content,
                MessageView::Assistant { text, tool_calls } => {
                    &&& request is Assistant
                    &&& request->text is Some <==> text.len() > 0
                    &&& text.len() > 0 ==> request->text->Some_0 == text
                    &&& request->tool_calls is Some <==> tool_calls.len() > 0
                    &&& tool_calls.len() > 0 ==> request->tool_calls->Some_0 == tool_calls
                },
                MessageView::ToolResult { tool_call_id, content } => {
                    &&& request is Tool
                    &&& request->tool_call_id == tool_call_id
                    &&& request->Tool_content == content
                },
            }
        }),
{
}

/// Whether a list is made of the function tools for a list of tools: as many, and each with the
/// name, the description and the parameters of the tool in its place, and no strictness.
pub open spec fn offers(
    offered: Seq<ChatCompletionTools>,
    tools: Seq<ToolDefinitionView>,
) -> bool {
    &&& offered.len() == tools.len()
    &&& forall|i: int|
        0 <= i < tools.len() ==> #[trigger] offered[i] == openai::function_tool(
            tools[i].name,
            Some(tools[i].description),
            Some(tools[i].parameters_schema),
            None,
        )
}

/// Whether a list is made of the messages for a conversation: as many, and each says what the
/// message in its place says.
pub open spec fn tells(
    built: Seq<ChatCompletionRequestMessage>,
    messages: Seq<MessageView>,
) -> bool {
    &&& built.len() == messages.len()
    &&& forall|i: int| 0 <= i < messages.len() ==> says(#[trigger] built[i], messages[i])
}

/// The messages of a request are those of the conversation, one for one and in their order.
pub proof fn law_built_messages_tell_the_conversation(messages: Seq<MessageView>)
    ensures
        tells(openai::built_messages(messages), messages),
{
    assert forall|i: int| 0 <= i < messages.len() implies says(
        #[trigger] openai::built_messages(messages)[i],
        messages[i],
    ) by {
        law_built_message_says_the_same(messages[i]);
    }
}

/// A tool is offered under its name, with its description and its parameters.
pub proof fn law_offered_tool_is_the_tool(tool: ToolDefinitionView)
    ensures
        openai::offered_tool(tool) == openai::function_tool(
            tool.name,
            Some(tool.description),
            Some(tool.parameters_schema),
            None,
        ),
{
}

/// All tools are offered, one for one and in their order.
pub proof fn law_all_tools_are_offered(tools: Seq<ToolDefinitionView>)
    ensures
        offers(openai::offered_tools(tools), tools),
{
}

/// Where there are tools, all of them are offered and the model chooses; where there are none,
/// neither tools nor a choice are spoken of.
pub proof fn law_offer_is_all_or_nothing(tools: Seq<ToolDefinitionView>)
    ensures
        tools.len() > 0 ==> openai::tool_offer(tools).0 == Some(tools) && openai::tool_offer(
            tools,
        ).1 == Some(ToolChoice::Auto),
        tools.len() == 0 ==> openai::tool_offer(tools).0 is None && openai::tool_offer(tools).1
            is None,
{
}

/// A request is made for the given model, of messages that tell the whole conversation and of
/// all the given tools, with the choice left to the model; without tools it speaks of neither.
pub proof fn law_request_holds_everything(
    model: Seq<char>,
    messages: Seq<MessageView>,
    tools: Seq<ToolDefinitionView>,
)
    ensures
        exists|built: Seq<ChatCompletionRequestMessage>| #[trigger]
            tells(built, messages) && (tools.len() == 0 ==> openai::request_for(
                model,
                messages,
                tools,
            ) == openai::chat_request(model, built, None, None)) && (tools.len() > 0 ==> exists|
                offered: Seq<ChatCompletionTools>,
            | #[trigger]
                offers(offered, tools) && openai::request_for(model, messages, tools)
                    == openai::chat_request(model, built, Some(offered), Some(ToolChoice::Auto))),
{
    let built = openai::built_messages(messages);
    law_built_messages_tell_the_conversation(messages);
    law_all_tools_are_offered(tools);
    assert(tells(built, messages));
    if tools.len() > 0 {
        assert(offers(openai::offered_tools(tools), tools));
    }
}

/// Two lists that tell one conversation are the same list, and so are two that offer the same
/// tools: what a request holds is fixed by what it is made for.
pub proof fn law_contents_are_fixed(
    messages: Seq<MessageView>,
    tools: Seq<ToolDefinitionView>,
    a: Seq<ChatCompletionRequestMessage>,
    b: Seq<ChatCompletionRequestMessage>,
    c: Seq<ChatCompletionTools>,
    d: Seq<ChatCompletionTools>,
)
    requires
        tells(a, messages),
        tells(b, messages),
        offers(c, tools),
        offers(d, tools),
    ensures
        a == b,
        c == d,
{
    assert forall|i: int| 0 <= i < a.len() implies a[i] == b[i] by {
        assert(says(a[i], messages[i]) && says(b[i], messages[i]));
    }
    assert(a =~= b);
    assert(c =~= d);
}

/// The pieces of tool calls that a choice brings.
pub open spec fn pieces(choice: ChunkChoice) -> Seq<ToolCallChunk> {
    match choice.tool_calls {
        Some(calls) => calls@,
        None => Seq::empty(),
    }
}

/// The arguments that a piece of a tool call brings, whatever else it brings.
pub open spec fn piece_arguments(piece: ToolCallChunk) -> Seq<char> {
    if piece.function is Some && piece.function->Some_0.arguments is Some {
        piece.function->Some_0.arguments->Some_0@
    } else {
        Seq::empty()
    }
}

/// Whether an increment is what a piece of a tool call stands for: of its index, with its id and
/// its name where it has them, and with all of its arguments.
pub open spec fn stands_for(event: LlmEventView, piece: ToolCallChunk) -> bool {
    &&& event is ToolCallDelta
    &&& event->index as int == piece.index as int
    &&& event->id is Some <==> piece.id is Some
    &&& piece.id is Some ==> event->id->Some_0 == piece.id->Some_0@
    &&& event->name is Some <==> piece.function is Some && piece.function->Some_0.name is Some
    &&& event->name is Some ==> event->name->Some_0 == piece.function->Some_0.name->Some_0@
    &&& event->arguments_delta == piece_arguments(piece)
}

/// A chunk brings what its first choice brings and nothing else: the text where there is one,
/// and behind it one increment for each piece of a tool call, in their order.
pub proof fn law_chunk_brings_every_piece(chunk: StreamChunk)
    ensures
        chunk.choices@.len() == 0 ==> openai::chunk_events(chunk).len() == 0,
        chunk.choices@.len() > 0 ==> {
            let choice = chunk.choices@[0];
            let events = openai::chunk_events(chunk);
            let first: int = if choice.content is Some {
                1
            } else {
                0
            };
            &&& events.len() == first + pieces(choice).len()
            &&& choice.content is Some ==> events[0] is TextDelta && events[0]->TextDelta_0
                == choice.content->Some_0@
            &&& forall|j: int|
                0 <= j < pieces(choice).len() ==> stands_for(
                    events[first + j],
                    #[trigger] pieces(choice)[j],
                )
        },
{
}

/// What a stream of chunks brings, all in all.
pub open spec fn stream_events(chunks: Seq<StreamChunk>) -> Seq<LlmEventView>
    decreases chunks.len(),
{
    if chunks.len() == 0 {
        Seq::empty()
    } else {
        stream_events(chunks.drop_last()) + openai::chunk_events(chunks.last())
    }
}

/// The arguments that the pieces for one index bring, joined in the order of the pieces.
pub open spec fn joined_pieces(pieces: Seq<ToolCallChunk>, at: usize) -> Seq<char>
    decreases pieces.len(),
{
    if pieces.len() == 0 {
        Seq::empty()
    } else if pieces.last().index as int == at as int {
        joined_pieces(pieces.drop_last(), at) + piece_arguments(pieces.last())
    } else {
        joined_pieces(pieces.drop_last(), at)
    }
}

/// The arguments that a stream of chunks brings for one index, joined in their order.
pub open spec fn joined_arguments(chunks: Seq<StreamChunk>, at: usize) -> Seq<char>
    decreases chunks.len(),
{
    if chunks.len() == 0 {
        Seq::empty()
    } else if chunks.last().choices@.len() == 0 {
        joined_arguments(chunks.drop_last(), at)
    } else {
        joined_arguments(chunks.drop_last(), at) + joined_pieces(
            pieces(chunks.last().choices@[0]),
            at,
        )
    }
}

/// The texts that a stream of chunks brings, joined in their order.
pub open spec fn joined_text(chunks: Seq<StreamChunk>) -> Seq<char>
    decreases chunks.len(),
{
    if chunks.len() == 0 {
        Seq::empty()
    } else if chunks.last().choices@.len() > 0 && chunks.last().choices@[0].content is Some {
        joined_text(chunks.drop_last()) + chunks.last().choices@[0].content->Some_0@
    } else {
        joined_text(chunks.drop_last())
    }
}

proof fn lemma_gathered_concat(a: Seq<LlmEventView>, b: Seq<LlmEventView>, at: usize)
    ensures
        loop_laws::gathered_arguments(a + b, at) == loop_laws::gathered_arguments(a, at)
            + loop_laws::gathered_arguments(b, at),
        loop_laws::gathered_text(a + b) == loop_laws::gathered_text(a) + loop_laws::gathered_text(
            b,
        ),
    decreases b.len(),
{
    if b.len() == 0 {
        assert(a + b =~= a);
        assert(loop_laws::gathered_arguments(a, at) + Seq::<char>::empty()
            =~= loop_laws::gathered_arguments(a, at));
        assert(loop_laws::gathered_text(a) + Seq::<char>::empty() =~= loop_laws::gathered_text(a));
    } else {
        assert((a + b).drop_last() =~= a + b.drop_last());
        lemma_gathered_concat(a, b.drop_last(), at);
        assert(loop_laws::gathered_arguments(a + b, at) =~= loop_laws::gathered_arguments(a, at)
            + loop_laws::gathered_arguments(b, at));
        assert(loop_laws::gathered_text(a + b) =~= loop_laws::gathered_text(a)
            + loop_laws::gathered_text(b));
    }
}

proof fn lemma_pieces_gathered(events: Seq<LlmEventView>, pieces: Seq<ToolCallChunk>, at: usize)
    requires
        events.len() == pieces.len(),
        forall|j: int| 0 <= j < pieces.len() ==> stands_for(events[j], #[trigger] pieces[j]),
    ensures
        loop_laws::gathered_arguments(events, at) == joined_pieces(pieces, at),
        loop_laws::gathered_text(events).len() == 0,
    decreases events.len(),
{
    if events.len() > 0 {
        assert forall|j: int| 0 <= j < pieces.drop_last().len() implies stands_for(
            events.drop_last()[j],
            #[trigger] pieces.drop_last()[j],
        ) by {
            assert(stands_for(events[j], pieces[j]));
        }
        lemma_pieces_gathered(events.drop_last(), pieces.drop_last(), at);
        assert(stands_for(events[events.len() - 1], pieces[pieces.len() - 1]));
    }
}

proof fn lemma_chunk_gathered(chunk: StreamChunk, at: usize)
    ensures
        loop_laws::gathered_arguments(openai::chunk_events(chunk), at) == (
        if chunk.choices@.len() == 0 {
            Seq::empty()
        } else {
            joined_pieces(pieces(chunk.choices@[0]), at)
        }),
        loop_laws::gathered_text(openai::chunk_events(chunk)) == (if chunk.choices@.len() > 0
            && chunk.choices@[0].content is Some {
            chunk.choices@[0].content->Some_0@
        } else {
            Seq::empty()
        }),
{
    law_chunk_brings_every_piece(chunk);
    let events = openai::chunk_events(chunk);
    if chunk.choices@.len() > 0 {
        let choice = chunk.choices@[0];
        let first: int = if choice.content is Some {
            1
        } else {
            0
        };
        let head = events.take(first);
        let tail = events.skip(first);
        assert(events =~= head + tail);
        assert forall|j: int| 0 <= j < pieces(choice).len() implies stands_for(
            tail[j],
            #[trigger] pieces(choice)[j],
        ) by {
            assert(tail[j] == events[first + j]);
        }
        lemma_pieces_gathered(tail, pieces(choice), at);
        lemma_gathered_concat(head, tail, at);
        reveal_with_fuel(loop_laws::gathered_arguments, 2);
        reveal_with_fuel(loop_laws::gathered_text, 2);
        if first == 1 {
            assert(head.drop_last() =~= Seq::empty());
            assert(head.last() == events[0]);
            assert(Seq::<char>::empty() + choice.content->Some_0@ =~= choice.content->Some_0@);
        }
        let arguments = joined_pieces(pieces(choice), at);
        assert(Seq::<char>::empty() + arguments =~= arguments);
        assert(loop_laws::gathered_text(events) =~= loop_laws::gathered_text(head));
    }
}

/// The arguments of each call, and the text, come out of a stream whole: they are what the
/// chunks bring for it, joined in their order, and nothing of it is lost on the way.
pub proof fn law_stream_comes_out_whole(chunks: Seq<StreamChunk>, at: usize)
    ensures
        loop_laws::gathered_arguments(stream_events(chunks), at) == joined_arguments(chunks, at),
        loop_laws::gathered_text(stream_events(chunks)) == joined_text(chunks),
        tool_calls::partial_at(loop_laws::gathered_calls(stream_events(chunks)), at).arguments
            == joined_arguments(chunks, at),
    decreases chunks.len(),
{
    if chunks.len() > 0 {
        law_stream_comes_out_whole(chunks.drop_last(), at);
        lemma_chunk_gathered(chunks.last(), at);
        lemma_gathered_concat(
            stream_events(chunks.drop_last()),
            openai::chunk_events(chunks.last()),
            at,
        );
        assert(joined_arguments(chunks.drop_last(), at) + Seq::<char>::empty()
            =~= joined_arguments(chunks.drop_last(), at));
        assert(joined_text(chunks.drop_last()) + Seq::<char>::empty() =~= joined_text(
            chunks.drop_last(),
        ));
    }
    loop_laws::law_arguments_come_together(stream_events(chunks), at);
}

} // verus!
