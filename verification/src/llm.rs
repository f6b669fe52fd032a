//! What a language model streams back, and what can go wrong in a turn.

use vstd::prelude::*;
use crate::text;

verus! {

/// One increment of a streamed answer.
#[derive(Debug, PartialEq, Eq)]
pub enum LlmEvent {
    TextDelta(String),
    ToolCallDelta {
        index: usize,
        id: Option<String>,
        name: Option<String>,
        arguments_delta: String,
    },
}

/// The model of an [`LlmEvent`].
pub enum LlmEventView {
    TextDelta(Seq<char>),
    ToolCallDelta {
        index: usize,
        id: Option<Seq<char>>,
        name: Option<Seq<char>>,
        arguments_delta: Seq<char>,
    },
}

impl View for LlmEvent {
    type V = LlmEventView;

    open spec fn view(&self) -> LlmEventView {
        match self {
            LlmEvent::TextDelta(text) => LlmEventView::TextDelta(text@),
            LlmEvent::ToolCallDelta { index, id, name, arguments_delta } =>
                LlmEventView::ToolCallDelta {
                    index: *index,
                    id: text::opt_text(*id),
                    name: text::opt_text(*name),
                    arguments_delta: arguments_delta@,
                },
        }
    }
}

/// An error that ends a turn.
#[derive(Debug, Clone, Copy, PartialEq, Eq, Structural)]
pub enum LlmError {
    /// The first delta of a tool call came without its id or its name.
    MissingOnFirstChunk { index: usize },
    /// A tool call is without its id or its name at the end of the stream.
    MissingIdOrName { index: usize },
    /// The model kept asking for tools.
    IterationsExceeded,
}

/// The text of an error.
pub open spec fn error_text(error: LlmError) -> Seq<char> {
    match error {
        LlmError::MissingOnFirstChunk { index } => "tool call delta at index "@ + text::decimal(
            index as nat,
        ) + " missing id or name on first chunk"@,
        LlmError::MissingIdOrName { index } => "tool call at index "@ + text::decimal(index as nat)
            + " missing id or name"@,
        LlmError::IterationsExceeded => "tool loop exceeded maximum iterations"@,
    }
}

impl LlmError {
    /// What the error says to a reader.
    pub fn message(&self) -> (text: String)
        ensures
            text@ == error_text(*self),
    {
        match self {
            LlmError::MissingOnFirstChunk { index } => {
                let mut text = "tool call delta at index ".to_owned();
                text.append(text::decimal_text(*index as u64).as_str());
                text.append(" missing id or name on first chunk");
                text
            },
            LlmError::MissingIdOrName { index } => {
                let mut text = "tool call at index ".to_owned();
                text.append(text::decimal_text(*index as u64).as_str());
                text.append(" missing id or name");
                text
            },
            LlmError::IterationsExceeded => "tool loop exceeded maximum iterations".to_owned(),
        }
    }
}

/// Whether words are made of a beginning, a number in decimal digits, and an end.
pub open spec fn numbers(words: Seq<char>, head: Seq<char>, n: nat, tail: Seq<char>) -> bool {
    &&& words.len() == head.len() + text::decimal(n).len() + tail.len()
    &&& words.take(head.len() as int) == head
    &&& words.subrange(head.len() as int, words.len() - tail.len()) == text::decimal(n)
    &&& words.skip(words.len() - tail.len()) == tail
}

/// An error says what went wrong, and at which index.
pub proof fn law_error_says_where(index: usize)
    ensures
        numbers(
            error_text(LlmError::MissingOnFirstChunk { index }),
            "tool call delta at index "@,
            index as nat,
            " missing id or name on first chunk"@,
        ),
        numbers(
            error_text(LlmError::MissingIdOrName { index }),
            "tool call at index "@,
            index as nat,
            " missing id or name"@,
        ),
        error_text(LlmError::IterationsExceeded) == "tool loop exceeded maximum iterations"@,
{
    lemma_numbers(
        "tool call delta at index "@,
        index as nat,
        " missing id or name on first chunk"@,
    );
    lemma_numbers("tool call at index "@, index as nat, " missing id or name"@);
}

proof fn lemma_numbers(head: Seq<char>, n: nat, tail: Seq<char>)
    ensures
        numbers(head + text::decimal(n) + tail, head, n, tail),
{
    let words = head + text::decimal(n) + tail;
    assert(words.take(head.len() as int) =~= head);
    assert(words.subrange(head.len() as int, words.len() - tail.len()) =~= text::decimal(n));
    assert(words.skip(words.len() - tail.len()) =~= tail);
}

} // verus!
