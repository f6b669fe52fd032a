use pyg::agent::AgentEvent;
use pyg::dispatch::{
    announce, answer, decide_call, decide_found_call, record, report, CallDecision,
    RecordedToolCall, ToolCallResult,
};
use pyg::json::parse_arguments;
use pyg::llm::LlmError;
use pyg::message::{Message, ToolCall};
use pyg::tool::{find_tool, ToolDefinition};
use pyg::tool_calls::{
    apply_tool_call_delta, completed_tool_calls, to_tool_calls, CompletedToolCall, PartialToolCall,
};
use std::collections::HashMap;

type News = Option<Result<AgentEvent<()>, LlmError>>;

fn call(id: &str, name: &str, arguments: &str) -> CompletedToolCall {
    CompletedToolCall {
        id: id.to_string(),
        name: name.to_string(),
        arguments: arguments.to_string(),
    }
}

fn partial(id: Option<&str>, name: Option<&str>, arguments: &str) -> PartialToolCall {
    PartialToolCall {
        id: id.map(str::to_string),
        name: name.map(str::to_string),
        arguments: arguments.to_string(),
        started: true,
    }
}

#[test]
fn the_first_delta_of_a_call_starts_it() {
    let mut partials = HashMap::new();
    let news: News = apply_tool_call_delta(
        &mut partials,
        7,
        Some("call_1".to_string()),
        Some("now".to_string()),
        "{\"a\":",
    );
    assert!(
        matches!(news, Some(Ok(AgentEvent::ToolCallStarted { id, name })) if id == "call_1" && name == "now")
    );
    let news: News = apply_tool_call_delta(&mut partials, 7, None, None, "1}");
    assert!(news.is_none());
    assert_eq!(partials.len(), 1);
    assert_eq!(partials[&7].arguments, "{\"a\":1}");
    assert!(partials[&7].started);
    assert_eq!(partials[&7].id.as_deref(), Some("call_1"));
}

#[test]
fn a_later_id_or_name_replaces_the_one_before() {
    let mut partials = HashMap::new();
    let _: News = apply_tool_call_delta(
        &mut partials,
        0,
        Some("a".to_string()),
        Some("x".to_string()),
        "",
    );
    let news: News = apply_tool_call_delta(&mut partials, 0, Some("b".to_string()), None, "");
    assert!(news.is_none());
    assert_eq!(partials[&0].id.as_deref(), Some("b"));
    assert_eq!(partials[&0].name.as_deref(), Some("x"));
}

#[test]
fn a_call_that_starts_without_its_id_or_name_is_an_error() {
    let mut partials = HashMap::new();
    let news: News =
        apply_tool_call_delta(&mut partials, 3, None, Some("now".to_string()), "");
    match news {
        Some(Err(error)) => {
            assert_eq!(error, LlmError::MissingOnFirstChunk { index: 3 });
            assert_eq!(
                error.message(),
                "tool call delta at index 3 missing id or name on first chunk"
            );
        }
        _ => panic!("expected an error"),
    }
}

#[test]
fn completed_calls_stand_in_the_order_of_their_ids() {
    let mut partials = HashMap::new();
    partials.insert(0, partial(Some("b"), Some("two"), "{}"));
    partials.insert(1, partial(Some("a"), Some("one"), "[]"));
    partials.insert(5, partial(Some("ab"), Some("three"), ""));
    let calls = completed_tool_calls(partials).expect("all complete");
    assert_eq!(
        calls,
        vec![
            call("a", "one", "[]"),
            call("ab", "three", ""),
            call("b", "two", "{}"),
        ]
    );
    assert_eq!(
        to_tool_calls(&calls)[1],
        ToolCall {
            id: "ab".to_string(),
            name: "three".to_string(),
            arguments: String::new(),
        }
    );
    assert!(completed_tool_calls(HashMap::new()).expect("nothing").is_empty());
}

#[test]
fn ids_are_ordered_by_their_bytes() {
    let mut partials = HashMap::new();
    partials.insert(0, partial(Some("é"), Some("x"), ""));
    partials.insert(1, partial(Some("z"), Some("x"), ""));
    partials.insert(2, partial(Some("Z"), Some("x"), ""));
    partials.insert(3, partial(Some("call_10"), Some("x"), ""));
    partials.insert(4, partial(Some("call_2"), Some("x"), ""));
    partials.insert(5, partial(Some(""), Some("x"), ""));
    let calls = completed_tool_calls(partials).expect("all complete");
    let ids: Vec<&str> = calls.iter().map(|call| call.id.as_str()).collect();
    assert_eq!(ids, vec!["", "Z", "call_10", "call_2", "z", "é"]);
}

#[test]
fn an_incomplete_call_is_an_error() {
    let mut partials = HashMap::new();
    partials.insert(0, partial(Some("a"), Some("x"), ""));
    partials.insert(12, partial(Some("b"), None, ""));
    let error = completed_tool_calls(partials).expect_err("no name");
    assert_eq!(error, LlmError::MissingIdOrName { index: 12 });
    assert_eq!(error.message(), "tool call at index 12 missing id or name");
}

#[test]
fn the_errors_of_a_turn_read_as_they_should() {
    assert_eq!(
        LlmError::IterationsExceeded.message(),
        "tool loop exceeded maximum iterations"
    );
    assert_eq!(
        LlmError::MissingIdOrName { index: 1234567890 }.message(),
        "tool call at index 1234567890 missing id or name"
    );
}

#[test]
fn the_first_tool_of_a_name_counts() {
    let names = vec!["a".to_string(), "b".to_string(), "b".to_string()];
    assert_eq!(find_tool(&names, &"b".to_string()), Some(1));
    assert_eq!(find_tool(&names, &"c".to_string()), None);
}

#[test]
fn a_call_runs_the_tool_of_its_name_on_its_arguments() {
    let names = vec!["now".to_string(), "echo".to_string()];
    match decide_call(&names, &call("1", "echo", "{\"value\":\"hi\"}")) {
        CallDecision::Run { tool, arguments } => {
            assert_eq!(tool, 1);
            assert_eq!(arguments["value"].as_str(), Some("hi"));
        }
        CallDecision::Refuse { error } => panic!("refused: {error}"),
    }
}

#[test]
fn a_call_of_an_unknown_tool_is_refused() {
    match decide_call(&vec!["now".to_string()], &call("1", "echo", "not json")) {
        CallDecision::Refuse { error } => assert_eq!(error, "unknown tool: echo"),
        CallDecision::Run { .. } => panic!("ran"),
    }
}

#[test]
fn a_call_with_bad_arguments_is_refused() {
    let reason = serde_json::from_str::<serde_json::Value>("{").expect_err("not json");
    match decide_call(&vec!["echo".to_string()], &call("1", "echo", "{")) {
        CallDecision::Refuse { error } => {
            assert_eq!(error, format!("invalid tool arguments JSON: {reason}"))
        }
        CallDecision::Run { .. } => panic!("ran"),
    }
    assert_eq!(parse_arguments("{").expect_err("not json"), reason.to_string());
    assert_eq!(parse_arguments(" [1] ").expect("json"), serde_json::from_str::<serde_json::Value>("[1]").unwrap());
    match decide_found_call(4, Err("why".to_string())) {
        CallDecision::Refuse { error } => {
            assert_eq!(error, "invalid tool arguments JSON: why")
        }
        CallDecision::Run { .. } => panic!("ran"),
    }
}

#[test]
fn what_came_of_a_call_is_told_answered_and_recorded() {
    let asked = call("1", "echo", "{}");
    let ready: AgentEvent<()> = announce(&asked);
    assert_eq!(
        ready.debug_text(),
        "ToolCallReady { id: \"1\", name: \"echo\", arguments: \"{}\" }"
    );
    let good = ToolCallResult::Succeeded {
        content: "one\ntwo".to_string(),
    };
    let told: AgentEvent<()> = report(&asked, &good);
    assert!(matches!(told, AgentEvent::ToolCallFinished { summary, .. } if summary == "one two"));
    assert_eq!(
        answer(&asked, &good),
        Message::ToolResult {
            tool_call_id: "1".to_string(),
            content: "one\ntwo".to_string(),
        }
    );
    let bad = ToolCallResult::Failed {
        error: "broken".to_string(),
    };
    let told: AgentEvent<()> = report(&asked, &bad);
    assert!(matches!(told, AgentEvent::ToolCallFailed { error, .. } if error == "broken"));
    assert_eq!(
        answer(&asked, &bad),
        Message::ToolResult {
            tool_call_id: "1".to_string(),
            content: "broken".to_string(),
        }
    );
    let recorded: RecordedToolCall = record(asked, bad);
    assert_eq!(recorded.id, "1");
    assert_eq!(recorded.name, "echo");
    assert_eq!(recorded.arguments, "{}");
    assert!(matches!(recorded.result, ToolCallResult::Failed { error } if error == "broken"));
}

#[test]
fn a_copied_definition_is_the_same() {
    let schema: serde_json::Value =
        serde_json::from_str("{\"type\":\"object\",\"required\":[\"value\"]}").unwrap();
    let tool = ToolDefinition {
        name: "echo".to_string(),
        description: "Echoes.".to_string(),
        parameters_schema: schema.clone(),
    };
    let copy = tool.clone();
    assert_eq!(copy, tool);
    assert_eq!(copy.parameters_schema, schema);
}
