//! What an agent tells of its work, and whom it talks with.

use vstd::prelude::*;
use crate::ids::{ChannelUri, SenderUri};
use crate::text;

verus! {

/// What an agent emits while it answers. `P` is the payload of events that are none of the
/// library's own.
pub enum AgentEvent<P> {
    TextDelta(String),
    ToolCallStarted { id: String, name: String },
    ToolCallReady { id: String, name: String, arguments: String },
    ToolCallFinished { id: String, name: String, summary: String },
    ToolCallFailed { id: String, name: String, error: String },
    /// A side-channel event that the agent wants forwarded verbatim.
    Custom(P),
}

/// The model of an [`AgentEvent`].
pub enum AgentEventView<P> {
    TextDelta(Seq<char>),
    ToolCallStarted { id: Seq<char>, name: Seq<char> },
    ToolCallReady { id: Seq<char>, name: Seq<char>, arguments: Seq<char> },
    ToolCallFinished { id: Seq<char>, name: Seq<char>, summary: Seq<char> },
    ToolCallFailed { id: Seq<char>, name: Seq<char>, error: Seq<char> },
    Custom(P),
}

impl<P> View for AgentEvent<P> {
    type V = AgentEventView<P>;

    open spec fn view(&self) -> AgentEventView<P> {
        match self {
            AgentEvent::TextDelta(text) => AgentEventView::TextDelta(text@),
            AgentEvent::ToolCallStarted { id, name } => AgentEventView::ToolCallStarted {
                id: id@,
                name: name@,
            },
            AgentEvent::ToolCallReady { id, name, arguments } => AgentEventView::ToolCallReady {
                id: id@,
                name: name@,
                arguments: arguments@,
            },
            AgentEvent::ToolCallFinished { id, name, summary } =>
                AgentEventView::ToolCallFinished { id: id@, name: name@, summary: summary@ },
            AgentEvent::ToolCallFailed { id, name, error } => AgentEventView::ToolCallFailed {
                id: id@,
                name: name@,
                error: error@,
            },
            AgentEvent::Custom(payload) => AgentEventView::Custom(*payload),
        }
    }
}

/// A labelled string field, as `Debug` shows it.
pub open spec fn debug_field(label: Seq<char>, value: Seq<char>) -> Seq<char> {
    label + text::debug_quoted(value)
}

/// How an event reads in a log: every text quoted, a foreign payload withheld.
pub open spec fn event_debug_text<P>(event: AgentEventView<P>) -> Seq<char> {
    match event {
        AgentEventView::TextDelta(delta) => debug_field("TextDelta("@, delta) + ")"@,
        AgentEventView::ToolCallStarted { id, name } => debug_field("ToolCallStarted { id: "@, id)
            + debug_field(", name: "@, name) + " }"@,
        AgentEventView::ToolCallReady { id, name, arguments } => debug_field(
            "ToolCallReady { id: "@,
            id,
        ) + debug_field(", name: "@, name) + debug_field(", arguments: "@, arguments) + " }"@,
        AgentEventView::ToolCallFinished { id, name, summary } => debug_field(
            "ToolCallFinished { id: "@,
            id,
        ) + debug_field(", name: "@, name) + debug_field(", summary: "@, summary) + " }"@,
        AgentEventView::ToolCallFailed { id, name, error } => debug_field(
            "ToolCallFailed { id: "@,
            id,
        ) + debug_field(", name: "@, name) + debug_field(", error: "@, error) + " }"@,
        AgentEventView::Custom(_) => debug_field("Custom("@, "<opaque payload>"@) + ")"@,
    }
}

/// A labelled string field on a line of its own, as the indented `Debug` shows it.
pub open spec fn debug_line(label: Seq<char>, value: Seq<char>) -> Seq<char> {
    "    "@ + label + text::debug_quoted(value) + ",\n"@
}

/// How an event reads in a log over several lines: every text quoted on a line of its own, a
/// foreign payload withheld.
pub open spec fn event_indented_text<P>(event: AgentEventView<P>) -> Seq<char> {
    match event {
        AgentEventView::TextDelta(delta) => "TextDelta(\n"@ + debug_line(""@, delta) + ")"@,
        AgentEventView::ToolCallStarted { id, name } => "ToolCallStarted {\n"@ + debug_line(
            "id: "@,
            id,
        ) + debug_line("name: "@, name) + "}"@,
        AgentEventView::ToolCallReady { id, name, arguments } => "ToolCallReady {\n"@ + debug_line(
            "id: "@,
            id,
        ) + debug_line("name: "@, name) + debug_line("arguments: "@, arguments) + "}"@,
        AgentEventView::ToolCallFinished { id, name, summary } => "ToolCallFinished {\n"@
            + debug_line("id: "@, id) + debug_line("name: "@, name) + debug_line(
            "summary: "@,
            summary,
        ) + "}"@,
        AgentEventView::ToolCallFailed { id, name, error } => "ToolCallFailed {\n"@ + debug_line(
            "id: "@,
            id,
        ) + debug_line("name: "@, name) + debug_line("error: "@, error) + "}"@,
        AgentEventView::Custom(_) => "Custom(\n"@ + debug_line(""@, "<opaque payload>"@) + ")"@,
    }
}

fn debug_line_text(label: &str, value: &str) -> (line: String)
    ensures
        line@ == debug_line(label@, value@),
{
    let mut line = "    ".to_owned();
    line.append(label);
    line.append(text::debug_quote(value).as_str());
    line.append(",\n");
    line
}

fn indented_three(head: &str, id: &str, name: &str, label: &str, value: &str) -> (shown: String)
    ensures
        shown@ == head@ + debug_line("id: "@, id@) + debug_line("name: "@, name@) + debug_line(
            label@,
            value@,
        ) + "}"@,
{
    let mut shown = head.to_owned();
    shown.append(debug_line_text("id: ", id).as_str());
    shown.append(debug_line_text("name: ", name).as_str());
    shown.append(debug_line_text(label, value).as_str());
    shown.append("}");
    shown
}

fn debug_field_text(label: &str, value: &str) -> (field: String)
    ensures
        field@ == debug_field(label@, value@),
{
    let mut field = label.to_owned();
    field.append(text::debug_quote(value).as_str());
    field
}

fn debug_three(head: &str, id: &str, name: &str, label: &str, value: &str) -> (shown: String)
    ensures
        shown@ == debug_field(head@, id@) + debug_field(", name: "@, name@) + debug_field(
            label@,
            value@,
        ) + " }"@,
{
    let mut shown = debug_field_text(head, id);
    shown.append(debug_field_text(", name: ", name).as_str());
    shown.append(debug_field_text(label, value).as_str());
    shown.append(" }");
    shown
}

impl<P> AgentEvent<P> {
    /// Shows the event on one line, the way `{:?}` shows a value.
    pub fn debug_text(&self) -> (shown: String)
        ensures
            shown@ == event_debug_text(self@),
    {
        match self {
            AgentEvent::TextDelta(delta) => {
                let mut shown = debug_field_text("TextDelta(", delta.as_str());
                shown.append(")");
                shown
            },
            AgentEvent::ToolCallStarted { id, name } => {
                let mut shown = debug_field_text("ToolCallStarted { id: ", id.as_str());
                shown.append(debug_field_text(", name: ", name.as_str()).as_str());
                shown.append(" }");
                shown
            },
            AgentEvent::ToolCallReady { id, name, arguments } => debug_three(
                "ToolCallReady { id: ",
                id.as_str(),
                name.as_str(),
                ", arguments: ",
                arguments.as_str(),
            ),
            AgentEvent::ToolCallFinished { id, name, summary } => debug_three(
                "ToolCallFinished { id: ",
                id.as_str(),
                name.as_str(),
                ", summary: ",
                summary.as_str(),
            ),
            AgentEvent::ToolCallFailed { id, name, error } => debug_three(
                "ToolCallFailed { id: ",
                id.as_str(),
                name.as_str(),
                ", error: ",
                error.as_str(),
            ),
            AgentEvent::Custom(_) => {
                let mut shown = debug_field_text("Custom(", "<opaque payload>");
                shown.append(")");
                shown
            },
        }
    }

    /// Shows the event over several lines, the way `{:#?}` shows a value.
    pub fn indented_debug_text(&self) -> (shown: String)
        ensures
            shown@ == event_indented_text(self@),
    {
        match self {
            AgentEvent::TextDelta(delta) => {
                let mut shown = "TextDelta(\n".to_owned();
                shown.append(debug_line_text("", delta.as_str()).as_str());
                shown.append(")");
                shown
            },
            AgentEvent::ToolCallStarted { id, name } => {
                let mut shown = "ToolCallStarted {\n".to_owned();
                shown.append(debug_line_text("id: ", id.as_str()).as_str());
                shown.append(debug_line_text("name: ", name.as_str()).as_str());
                shown.append("}");
                shown
            },
            AgentEvent::ToolCallReady { id, name, arguments } => indented_three(
                "ToolCallReady {\n",
                id.as_str(),
                name.as_str(),
                "arguments: ",
                arguments.as_str(),
            ),
            AgentEvent::ToolCallFinished { id, name, summary } => indented_three(
                "ToolCallFinished {\n",
                id.as_str(),
                name.as_str(),
                "summary: ",
                summary.as_str(),
            ),
            AgentEvent::ToolCallFailed { id, name, error } => indented_three(
                "ToolCallFailed {\n",
                id.as_str(),
                name.as_str(),
                "error: ",
                error.as_str(),
            ),
            AgentEvent::Custom(_) => {
                let mut shown = "Custom(\n".to_owned();
                shown.append(debug_line_text("", "<opaque payload>").as_str());
                shown.append(")");
                shown
            },
        }
    }
}

/// A channel, and the name by which people know it.
#[derive(Debug, PartialEq, Eq)]
pub struct Channel {
    pub uri: ChannelUri,
    pub name: String,
}

/// The model of a [`Channel`].
pub struct ChannelView {
    pub uri: Seq<char>,
    pub name: Seq<char>,
}

impl View for Channel {
    type V = ChannelView;

    open spec fn view(&self) -> ChannelView {
        ChannelView { uri: self.uri@, name: self.name@ }
    }
}

/// The name to show for something that has an address and perhaps a name.
pub open spec fn shown_name(uri: Seq<char>, name: Seq<char>) -> Seq<char> {
    if name.len() == 0 {
        uri
    } else {
        name
    }
}

impl Channel {
    /// The channel's name, or its address where it has none.
    pub fn display_name(&self) -> (name: &str)
        ensures
            name@ == shown_name(self.uri@, self.name@),
    {
        if self.name.as_str().is_empty() {
            self.uri.as_str()
        } else {
            self.name.as_str()
        }
    }
}

/// A sender, and the name by which people know it.
#[derive(Debug, PartialEq, Eq)]
pub struct Sender {
    pub uri: SenderUri,
    pub name: String,
}

/// The model of a [`Sender`].
pub struct SenderView {
    pub uri: Seq<char>,
    pub name: Seq<char>,
}

impl View for Sender {
    type V = SenderView;

    open spec fn view(&self) -> SenderView {
        SenderView { uri: self.uri@, name: self.name@ }
    }
}

impl Sender {
    /// The sender's name, or its address where it has none.
    pub fn display_name(&self) -> (name: &str)
        ensures
            name@ == shown_name(self.uri@, self.name@),
    {
        if self.name.as_str().is_empty() {
            self.uri.as_str()
        } else {
            self.name.as_str()
        }
    }
}

/// The kind of an event, as its name is written.
pub open spec fn kind_of<P>(event: AgentEventView<P>) -> Seq<char> {
    match event {
        AgentEventView::TextDelta(_) => "TextDelta"@,
        AgentEventView::ToolCallStarted { .. } => "ToolCallStarted"@,
        AgentEventView::ToolCallReady { .. } => "ToolCallReady"@,
        AgentEventView::ToolCallFinished { .. } => "ToolCallFinished"@,
        AgentEventView::ToolCallFailed { .. } => "ToolCallFailed"@,
        AgentEventView::Custom(_) => "Custom"@,
    }
}

proof fn lemma_heads()
    ensures
        "TextDelta("@ == "TextDelta"@ + "("@,
        "Custom("@ == "Custom"@ + "("@,
        "ToolCallStarted { id: "@ == "ToolCallStarted"@ + " { id: "@,
        "ToolCallReady { id: "@ == "ToolCallReady"@ + " { id: "@,
        "ToolCallFinished { id: "@ == "ToolCallFinished"@ + " { id: "@,
        "ToolCallFailed { id: "@ == "ToolCallFailed"@ + " { id: "@,
        "TextDelta(\n"@ == "TextDelta"@ + "(\n"@,
        "Custom(\n"@ == "Custom"@ + "(\n"@,
        "ToolCallStarted {\n"@ == "ToolCallStarted"@ + " {\n"@,
        "ToolCallReady {\n"@ == "ToolCallReady"@ + " {\n"@,
        "ToolCallFinished {\n"@ == "ToolCallFinished"@ + " {\n"@,
        "ToolCallFailed {\n"@ == "ToolCallFailed"@ + " {\n"@,
{
    reveal_strlit("TextDelta");
    reveal_strlit("Custom");
    reveal_strlit("ToolCallStarted");
    reveal_strlit("ToolCallReady");
    reveal_strlit("ToolCallFinished");
    reveal_strlit("ToolCallFailed");
    reveal_strlit("(");
    reveal_strlit(" { id: ");
    reveal_strlit("(\n");
    reveal_strlit(" {\n");
    reveal_strlit("TextDelta(");
    reveal_strlit("Custom(");
    reveal_strlit("ToolCallStarted { id: ");
    reveal_strlit("ToolCallReady { id: ");
    reveal_strlit("ToolCallFinished { id: ");
    reveal_strlit("ToolCallFailed { id: ");
    reveal_strlit("TextDelta(\n");
    reveal_strlit("Custom(\n");
    reveal_strlit("ToolCallStarted {\n");
    reveal_strlit("ToolCallReady {\n");
    reveal_strlit("ToolCallFinished {\n");
    reveal_strlit("ToolCallFailed {\n");
    assert("TextDelta("@ =~= "TextDelta"@ + "("@);
    assert("Custom("@ =~= "Custom"@ + "("@);
    assert("ToolCallStarted { id: "@ =~= "ToolCallStarted"@ + " { id: "@);
    assert("ToolCallReady { id: "@ =~= "ToolCallReady"@ + " { id: "@);
    assert("ToolCallFinished { id: "@ =~= "ToolCallFinished"@ + " { id: "@);
    assert("ToolCallFailed { id: "@ =~= "ToolCallFailed"@ + " { id: "@);
    assert("TextDelta(\n"@ =~= "TextDelta"@ + "(\n"@);
    assert("Custom(\n"@ =~= "Custom"@ + "(\n"@);
    assert("ToolCallStarted {\n"@ =~= "ToolCallStarted"@ + " {\n"@);
    assert("ToolCallReady {\n"@ =~= "ToolCallReady"@ + " {\n"@);
    assert("ToolCallFinished {\n"@ =~= "ToolCallFinished"@ + " {\n"@);
    assert("ToolCallFailed {\n"@ =~= "ToolCallFailed"@ + " {\n"@);
}

/// What an event holds, each part behind its label: everything that it brings, in its order; of
/// a foreign payload only that it is there.
pub open spec fn parts_of<P>(event: AgentEventView<P>) -> Seq<(Seq<char>, Seq<char>)> {
    match event {
        AgentEventView::TextDelta(delta) => seq![(""@, delta)],
        AgentEventView::ToolCallStarted { id, name } => seq![("id: "@, id), ("name: "@, name)],
        AgentEventView::ToolCallReady { id, name, arguments } => seq![
            ("id: "@, id),
            ("name: "@, name),
            ("arguments: "@, arguments),
        ],
        AgentEventView::ToolCallFinished { id, name, summary } => seq![
            ("id: "@, id),
            ("name: "@, name),
            ("summary: "@, summary),
        ],
        AgentEventView::ToolCallFailed { id, name, error } => seq![
            ("id: "@, id),
            ("name: "@, name),
            ("error: "@, error),
        ],
        AgentEventView::Custom(_) => seq![(""@, "<opaque payload>"@)],
    }
}

/// Labelled parts, each quoted, with something before each and something behind each.
pub open spec fn quoted_parts(
    parts: Seq<(Seq<char>, Seq<char>)>,
    before: Seq<char>,
    behind: Seq<char>,
) -> Seq<char>
    decreases parts.len(),
{
    if parts.len() == 0 {
        Seq::empty()
    } else {
        quoted_parts(parts.drop_last(), before, behind) + before + parts.last().0
            + text::debug_quoted(parts.last().1) + behind
    }
}

/// Whether an event's parts have names.
pub open spec fn has_labels<P>(event: AgentEventView<P>) -> bool {
    !(event is TextDelta) && !(event is Custom)
}

/// Over several lines, an event is shown by its kind, and each of its parts, quoted, on a line
/// of its own: four spaces before it and a comma behind it.
pub proof fn law_indented_event_shows_every_part<P>(event: AgentEventView<P>)
    ensures
        event_indented_text(event) == kind_of(event) + (if has_labels(event) {
            " {\n"@
        } else {
            "(\n"@
        }) + quoted_parts(parts_of(event), "    "@, ",\n"@) + (if has_labels(event) {
            "}"@
        } else {
            ")"@
        }),
{
    lemma_heads();
    let parts = parts_of(event);
    let none = Seq::<(Seq<char>, Seq<char>)>::empty();
    let lines = quoted_parts(parts, "    "@, ",\n"@);
    lemma_next_line(none, parts[0]);
    let first = debug_line(parts[0].0, parts[0].1);
    assert(quoted_parts(none.push(parts[0]), "    "@, ",\n"@) =~= first);
    if parts.len() == 1 {
        assert(parts =~= none.push(parts[0]));
    } else {
        lemma_next_line(none.push(parts[0]), parts[1]);
        let second = debug_line(parts[1].0, parts[1].1);
        let head = kind_of(event) + " {\n"@;
        if parts.len() == 2 {
            assert(parts =~= none.push(parts[0]).push(parts[1]));
            lemma_regroup(head, first, second, Seq::empty(), "}"@);
            assert(first + second + Seq::<char>::empty() =~= first + second);
            assert(head + first + second + Seq::<char>::empty() =~= head + first + second);
        } else {
            assert(parts =~= none.push(parts[0]).push(parts[1]).push(parts[2]));
            lemma_next_line(none.push(parts[0]).push(parts[1]), parts[2]);
            lemma_regroup(head, first, second, debug_line(parts[2].0, parts[2].1), "}"@);
        }
    }
}

proof fn lemma_next_line(parts: Seq<(Seq<char>, Seq<char>)>, part: (Seq<char>, Seq<char>))
    ensures
        quoted_parts(parts.push(part), "    "@, ",\n"@) == quoted_parts(parts, "    "@, ",\n"@)
            + debug_line(part.0, part.1),
{
    let lines = quoted_parts(parts, "    "@, ",\n"@);
    assert(parts.push(part).drop_last() =~= parts);
    lemma_regroup(lines, "    "@, part.0, text::debug_quoted(part.1), ",\n"@);
    assert(lines + "    "@ + part.0 + text::debug_quoted(part.1) + ",\n"@ =~= lines + debug_line(
        part.0,
        part.1,
    ));
}

proof fn lemma_regroup(a: Seq<char>, b: Seq<char>, c: Seq<char>, d: Seq<char>, e: Seq<char>)
    ensures
        a + b + c + d + e == a + (b + c + d) + e,
{
    assert(a + b + c + d + e =~= a + (b + c + d) + e);
}

/// On one line, an event is shown by its kind, and all of its parts, quoted, in their order.
pub proof fn law_shown_event_shows_every_part<P>(event: AgentEventView<P>)
    ensures
        ({
            let shown = event_debug_text(event);
            match event {
                AgentEventView::TextDelta(delta) => shown == "TextDelta"@ + "("@
                    + text::debug_quoted(delta) + ")"@,
                AgentEventView::ToolCallStarted { id, name } => shown == "ToolCallStarted"@
                    + " { id: "@ + text::debug_quoted(id) + ", name: "@ + text::debug_quoted(name)
                    + " }"@,
                AgentEventView::ToolCallReady { id, name, arguments } => shown
                    == "ToolCallReady"@ + " { id: "@ + text::debug_quoted(id) + ", name: "@
                    + text::debug_quoted(name) + ", arguments: "@ + text::debug_quoted(arguments)
                    + " }"@,
                AgentEventView::ToolCallFinished { id, name, summary } => shown
                    == "ToolCallFinished"@ + " { id: "@ + text::debug_quoted(id) + ", name: "@
                    + text::debug_quoted(name) + ", summary: "@ + text::debug_quoted(summary)
                    + " }"@,
                AgentEventView::ToolCallFailed { id, name, error } => shown
                    == "ToolCallFailed"@ + " { id: "@ + text::debug_quoted(id) + ", name: "@
                    + text::debug_quoted(name) + ", error: "@ + text::debug_quoted(error)
                    + " }"@,
                AgentEventView::Custom(_) => shown == "Custom"@ + "("@ + text::debug_quoted(
                    "<opaque payload>"@,
                ) + ")"@,
            }
        }),
{
    lemma_heads();
    let shown = event_debug_text(event);
    match event {
        AgentEventView::ToolCallStarted { id, name } => {
            assert(shown =~= "ToolCallStarted"@ + " { id: "@ + text::debug_quoted(id) + ", name: "@
                + text::debug_quoted(name) + " }"@);
        },
        AgentEventView::ToolCallReady { id, name, arguments } => {
            assert(shown =~= "ToolCallReady"@ + " { id: "@ + text::debug_quoted(id) + ", name: "@
                + text::debug_quoted(name) + ", arguments: "@ + text::debug_quoted(arguments)
                + " }"@);
        },
        AgentEventView::ToolCallFinished { id, name, summary } => {
            assert(shown =~= "ToolCallFinished"@ + " { id: "@ + text::debug_quoted(id)
                + ", name: "@ + text::debug_quoted(name) + ", summary: "@ + text::debug_quoted(
                summary,
            ) + " }"@);
        },
        AgentEventView::ToolCallFailed { id, name, error } => {
            assert(shown =~= "ToolCallFailed"@ + " { id: "@ + text::debug_quoted(id) + ", name: "@
                + text::debug_quoted(name) + ", error: "@ + text::debug_quoted(error) + " }"@);
        },
        _ => {},
    }
}

/// What has a name is shown under it, and what has none under its address.
pub proof fn law_name_is_shown_where_there_is_one(uri: Seq<char>, name: Seq<char>)
    ensures
        name.len() > 0 ==> shown_name(uri, name) == name,
        name.len() == 0 ==> shown_name(uri, name) == uri,
{
}

} // verus!
