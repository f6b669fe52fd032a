use pyg::agent::{AgentEvent, Channel, Sender};
use pyg::ids::{ChannelUri, ParticipantId, SenderUri};

#[test]
fn a_name_is_shown_where_there_is_one() {
    let room = Channel {
        uri: ChannelUri::new("room:1"),
        name: "Room".to_string(),
    };
    assert_eq!(room.display_name(), "Room");
    let nameless = Channel {
        uri: ChannelUri::new("room:2"),
        name: String::new(),
    };
    assert_eq!(nameless.display_name(), "room:2");
    let steve = Sender {
        uri: SenderUri::new("cli:steve"),
        name: "Steve".to_string(),
    };
    assert_eq!(steve.display_name(), "Steve");
    let anonymous = Sender {
        uri: SenderUri::new("cli:1"),
        name: String::new(),
    };
    assert_eq!(anonymous.display_name(), "cli:1");
}

#[test]
fn events_read_like_debugged_values() {
    let text: AgentEvent<()> = AgentEvent::TextDelta("a \"quoted\"\nline é".to_string());
    assert_eq!(text.debug_text(), "TextDelta(\"a \\\"quoted\\\"\\nline é\")");
    let started: AgentEvent<()> = AgentEvent::ToolCallStarted {
        id: "1".to_string(),
        name: "now".to_string(),
    };
    assert_eq!(started.debug_text(), "ToolCallStarted { id: \"1\", name: \"now\" }");
    let finished: AgentEvent<()> = AgentEvent::ToolCallFinished {
        id: "1".to_string(),
        name: "now".to_string(),
        summary: "noon".to_string(),
    };
    assert_eq!(
        finished.debug_text(),
        "ToolCallFinished { id: \"1\", name: \"now\", summary: \"noon\" }"
    );
    let failed: AgentEvent<()> = AgentEvent::ToolCallFailed {
        id: "1".to_string(),
        name: "now".to_string(),
        error: "no clock".to_string(),
    };
    assert_eq!(
        failed.debug_text(),
        "ToolCallFailed { id: \"1\", name: \"now\", error: \"no clock\" }"
    );
    let custom = AgentEvent::Custom("secret");
    assert_eq!(custom.debug_text(), "Custom(\"<opaque payload>\")");
}

#[test]
fn participants_are_told_apart_by_their_names() {
    let scribe = ParticipantId::new("scribe");
    assert!(scribe.same(&scribe.clone()));
    assert!(!scribe.same(&ParticipantId::new("Scribe")));
}

/// Values of the same shapes as events, for which std writes the `Debug`.
#[derive(Debug)]
#[allow(dead_code)]
enum Shape {
    TextDelta(String),
    ToolCallStarted { id: String, name: String },
    ToolCallReady { id: String, name: String, arguments: String },
    ToolCallFinished { id: String, name: String, summary: String },
    ToolCallFailed { id: String, name: String, error: String },
    Custom(&'static str),
}

#[test]
fn events_read_like_values_of_their_shape_on_one_line_and_on_several() {
    let odd = || "a \"b\"\n\tc\u{2028}é\u{0}".to_string();
    let pairs: Vec<(AgentEvent<u8>, Shape)> = vec![
        (AgentEvent::TextDelta(odd()), Shape::TextDelta(odd())),
        (
            AgentEvent::ToolCallStarted { id: odd(), name: "n".to_string() },
            Shape::ToolCallStarted { id: odd(), name: "n".to_string() },
        ),
        (
            AgentEvent::ToolCallReady { id: "1".to_string(), name: String::new(), arguments: odd() },
            Shape::ToolCallReady { id: "1".to_string(), name: String::new(), arguments: odd() },
        ),
        (
            AgentEvent::ToolCallFinished { id: "1".to_string(), name: odd(), summary: odd() },
            Shape::ToolCallFinished { id: "1".to_string(), name: odd(), summary: odd() },
        ),
        (
            AgentEvent::ToolCallFailed { id: "1".to_string(), name: odd(), error: odd() },
            Shape::ToolCallFailed { id: "1".to_string(), name: odd(), error: odd() },
        ),
        (AgentEvent::Custom(7), Shape::Custom("<opaque payload>")),
    ];
    for (event, shape) in &pairs {
        assert_eq!(event.debug_text(), format!("{shape:?}"));
        assert_eq!(event.indented_debug_text(), format!("{shape:#?}"));
    }
    assert_eq!(
        pairs[5].0.indented_debug_text(),
        "Custom(\n    \"<opaque payload>\",\n)"
    );
}
