use pyg::ids::Timestamp;
use pyg::{
    AgentEvent, AgentLoop, LlmError, LlmEvent, LoopAction, LoopInput, Message, ToolCall,
    ToolCallResult, ToolDefinition, TurnSummary, MAX_TOOL_ITERATIONS,
};

const START: Timestamp = Timestamp {
    seconds: 1_000,
    nanoseconds: 5,
};
const END: Timestamp = Timestamp {
    seconds: 2_000,
    nanoseconds: 6,
};

type Step = (AgentLoop, LoopAction<(), String>);

fn definition(name: &str) -> ToolDefinition {
    ToolDefinition {
        name: name.to_string(),
        description: format!("The tool {name}."),
        parameters_schema: serde_json::from_str("{\"type\":\"object\"}").unwrap(),
    }
}

/// What came of a turn.
struct Outcome {
    sent: Vec<Vec<Message>>,
    offered: Vec<Vec<ToolDefinition>>,
    events: Vec<AgentEvent<()>>,
    summary: Option<TurnSummary>,
    error: Option<LlmError>,
    forwarded: Option<String>,
    stopped: bool,
}

fn echo(arguments: &serde_json::Value) -> Result<String, String> {
    Ok(arguments["value"].as_str().unwrap_or("").to_string())
}

fn fail(_arguments: &serde_json::Value) -> Result<String, String> {
    Err("out of order".to_string())
}

/// Runs a turn: each response is what the model streams for one request, `None` where it does
/// not take the request; after `heard` events the listener is gone.
fn run(
    tools: &[(&str, fn(&serde_json::Value) -> Result<String, String>)],
    mut responses: Vec<Option<Vec<LlmEvent>>>,
    messages: Vec<Message>,
    heard: usize,
) -> Outcome {
    let mut outcome = Outcome {
        sent: Vec::new(),
        offered: Vec::new(),
        events: Vec::new(),
        summary: None,
        error: None,
        forwarded: None,
        stopped: false,
    };
    let mut stream: Vec<LlmEvent> = Vec::new();
    let definitions = tools.iter().map(|tool| definition(tool.0)).collect();
    let (mut turn, mut action) = AgentLoop::new(messages, definitions, START);
    loop {
        let input = match action {
            LoopAction::SendRequest { messages, tools } => {
                outcome.sent.push(messages);
                outcome.offered.push(tools);
                match responses.remove(0) {
                    Some(events) => {
                        stream = events;
                        LoopInput::StreamOpened
                    }
                    None => LoopInput::RequestFailed("refused".to_string()),
                }
            }
            LoopAction::AwaitStream => {
                if stream.is_empty() {
                    LoopInput::StreamEnded { now: END }
                } else {
                    LoopInput::Streamed(stream.remove(0))
                }
            }
            LoopAction::Emit(event) => {
                let taken = outcome.events.len() < heard;
                if taken {
                    outcome.events.push(event);
                }
                LoopInput::Delivered(taken)
            }
            LoopAction::ListTools => {
                LoopInput::ToolNames(tools.iter().map(|tool| tool.0.to_string()).collect())
            }
            LoopAction::CallTool { tool, arguments } => {
                LoopInput::ToolReturned((tools[tool].1)(&arguments))
            }
            LoopAction::HandleTurn(summary) => {
                outcome
                    .events
                    .push(AgentEvent::TextDelta(summary.final_assistant_text.clone()));
                outcome.summary = Some(summary);
                return outcome;
            }
            LoopAction::ForwardError(reason) => {
                outcome.forwarded = Some(reason);
                return outcome;
            }
            LoopAction::Fail(error) => {
                outcome.error = Some(error);
                return outcome;
            }
            LoopAction::Stop => {
                outcome.stopped = true;
                return outcome;
            }
        };
        assert!(turn.expects(&input));
        let next = turn.step(input);
        turn = next.0;
        action = next.1;
    }
}

fn delta(index: usize, id: &str, name: &str, arguments: &str) -> LlmEvent {
    LlmEvent::ToolCallDelta {
        index,
        id: Some(id.to_string()),
        name: Some(name.to_string()),
        arguments_delta: arguments.to_string(),
    }
}

#[test]
fn loop_dispatches_tool_calls_and_feeds_results_back_into_next_turn() {
    let outcome = run(
        &[("echo", echo)],
        vec![
            // First turn: the model asks to call echo.
            Some(vec![LlmEvent::ToolCallDelta {
                index: 0,
                id: Some("call_1".to_string()),
                name: Some("echo".to_string()),
                arguments_delta: "{\"value\":\"hi\"}".to_string(),
            }]),
            // Second turn: the model produces final text after seeing the tool result.
            Some(vec![LlmEvent::TextDelta("done: hi".to_string())]),
        ],
        vec![Message::user("say hi")],
        usize::MAX,
    );

    let events = &outcome.events;
    assert!(matches!(events[0], AgentEvent::ToolCallStarted { .. }));
    assert!(matches!(events[1], AgentEvent::ToolCallReady { .. }));
    assert!(matches!(events[2], AgentEvent::ToolCallFinished { .. }));
    assert!(matches!(events[3], AgentEvent::TextDelta(ref t) if t == "done: hi"));
    let summary = outcome.summary.expect("a complete turn");
    assert_eq!(summary.final_assistant_text, "done: hi");

    let sent = &outcome.sent;
    assert_eq!(sent.len(), 2);
    // The second turn must hold the assistant's tool-call message and the tool result.
    let second = &sent[1];
    assert!(matches!(second[1], Message::Assistant { .. }));
    assert!(matches!(second[2], Message::ToolResult { ref content, .. } if content == "hi"));
}

#[test]
fn loop_fails_fast_when_tool_call_delta_missing_name_on_first_chunk() {
    let outcome = run(
        &[("echo", echo)],
        vec![Some(vec![LlmEvent::ToolCallDelta {
            index: 0,
            id: Some("call_1".to_string()),
            name: None,
            arguments_delta: String::new(),
        }])],
        vec![Message::user("hi")],
        usize::MAX,
    );
    assert!(outcome.events.is_empty());
    let error = outcome.error.expect("expected error");
    assert!(error.message().contains("missing id or name"));
}

#[test]
fn a_turn_is_summed_up_in_full() {
    let outcome = run(
        &[("echo", echo), ("fail", fail)],
        vec![
            Some(vec![
                LlmEvent::TextDelta("let me ".to_string()),
                delta(1, "b", "fail", "{}"),
                LlmEvent::TextDelta("see".to_string()),
                delta(0, "a", "echo", "{\"value\":"),
                LlmEvent::ToolCallDelta {
                    index: 0,
                    id: None,
                    name: None,
                    arguments_delta: "\"x\"}".to_string(),
                },
            ]),
            Some(vec![
                LlmEvent::TextDelta("do".to_string()),
                LlmEvent::TextDelta("ne".to_string()),
            ]),
        ],
        vec![Message::system("sys"), Message::user("go")],
        usize::MAX,
    );
    let summary = outcome.summary.expect("a complete turn");
    assert_eq!(summary.started_at, START);
    assert_eq!(summary.ended_at, END);
    assert_eq!(summary.final_assistant_text, "done");
    assert_eq!(
        summary.messages_to_llm,
        vec![
            Message::system("sys"),
            Message::user("go"),
            Message::Assistant {
                text: "let me see".to_string(),
                tool_calls: vec![
                    ToolCall {
                        id: "a".to_string(),
                        name: "echo".to_string(),
                        arguments: "{\"value\":\"x\"}".to_string(),
                    },
                    ToolCall {
                        id: "b".to_string(),
                        name: "fail".to_string(),
                        arguments: "{}".to_string(),
                    },
                ],
            },
            Message::ToolResult {
                tool_call_id: "a".to_string(),
                content: "x".to_string(),
            },
            Message::ToolResult {
                tool_call_id: "b".to_string(),
                content: "out of order".to_string(),
            },
        ]
    );
    assert_eq!(summary.messages_to_llm, outcome.sent[1]);
    assert_eq!(summary.tool_calls.len(), 2);
    assert!(
        matches!(&summary.tool_calls[0].result, ToolCallResult::Succeeded { content } if content == "x")
    );
    assert!(
        matches!(&summary.tool_calls[1].result, ToolCallResult::Failed { error } if error == "out of order")
    );
    let shown: Vec<String> = outcome.events.iter().map(|e| e.debug_text()).collect();
    assert_eq!(
        shown,
        vec![
            "ToolCallStarted { id: \"b\", name: \"fail\" }",
            "ToolCallStarted { id: \"a\", name: \"echo\" }",
            "ToolCallReady { id: \"a\", name: \"echo\", arguments: \"{\\\"value\\\":\\\"x\\\"}\" }",
            "ToolCallFinished { id: \"a\", name: \"echo\", summary: \"x\" }",
            "ToolCallReady { id: \"b\", name: \"fail\", arguments: \"{}\" }",
            "ToolCallFailed { id: \"b\", name: \"fail\", error: \"out of order\" }",
            "TextDelta(\"done\")",
        ]
    );
}

#[test]
fn an_unknown_tool_and_bad_arguments_are_answered_to_the_model() {
    let outcome = run(
        &[("echo", echo)],
        vec![
            Some(vec![delta(0, "1", "nope", "{}"), delta(1, "2", "echo", "nonsense")]),
            Some(Vec::new()),
        ],
        Vec::new(),
        usize::MAX,
    );
    let reason = serde_json::from_str::<serde_json::Value>("nonsense").expect_err("not json");
    let second = &outcome.sent[1];
    assert_eq!(
        second[1],
        Message::ToolResult {
            tool_call_id: "1".to_string(),
            content: "unknown tool: nope".to_string(),
        }
    );
    assert_eq!(
        second[2],
        Message::ToolResult {
            tool_call_id: "2".to_string(),
            content: format!("invalid tool arguments JSON: {reason}"),
        }
    );
    assert_eq!(outcome.summary.expect("a complete turn").final_assistant_text, "");
}

#[test]
fn a_model_that_keeps_asking_for_tools_is_cut_off() {
    let ask = || Some(vec![delta(0, "1", "echo", "{}")]);
    let outcome = run(
        &[("echo", echo)],
        vec![ask(), ask(), ask(), ask()],
        vec![Message::user("hi")],
        usize::MAX,
    );
    assert_eq!(outcome.sent.len(), MAX_TOOL_ITERATIONS);
    assert_eq!(outcome.sent.len(), 4);
    assert_eq!(outcome.error, Some(LlmError::IterationsExceeded));
    assert!(outcome.summary.is_none());
    assert_eq!(outcome.offered, vec![vec![definition("echo")]; 4]);
    // Each request holds the one before, with a question and an answer more.
    for i in 1..4 {
        assert_eq!(outcome.sent[i].len(), outcome.sent[i - 1].len() + 2);
        assert_eq!(outcome.sent[i][..outcome.sent[i - 1].len()], outcome.sent[i - 1][..]);
        assert_eq!(
            outcome.sent[i][outcome.sent[i - 1].len()..],
            [
                Message::Assistant {
                    text: String::new(),
                    tool_calls: vec![ToolCall {
                        id: "1".to_string(),
                        name: "echo".to_string(),
                        arguments: "{}".to_string(),
                    }],
                },
                Message::ToolResult {
                    tool_call_id: "1".to_string(),
                    content: String::new(),
                },
            ]
        );
    }
}

#[test]
fn errors_of_the_model_are_handed_on() {
    let refused = run(&[], vec![None], Vec::new(), usize::MAX);
    assert_eq!(refused.forwarded.as_deref(), Some("refused"));
    assert!(refused.events.is_empty());

    let (turn, _): Step = AgentLoop::new(Vec::new(), Vec::new(), START);
    let (turn, _): Step = turn.step(LoopInput::StreamOpened);
    let (turn, action): Step = turn.step(LoopInput::StreamFailed("broken".to_string()));
    assert!(matches!(action, LoopAction::ForwardError(reason) if reason == "broken"));
    assert!(!turn.expects(&LoopInput::<String>::StreamOpened));
    assert!(!turn.expects(&LoopInput::<String>::StreamEnded { now: END }));
}

#[test]
fn a_turn_stops_where_the_listener_is_gone() {
    for heard in 0..3 {
        let outcome = run(
            &[("echo", echo)],
            vec![Some(vec![delta(0, "1", "echo", "{}")])],
            Vec::new(),
            heard,
        );
        assert!(outcome.stopped);
        assert_eq!(outcome.events.len(), heard);
        assert_eq!(outcome.sent.len(), 1);
    }
}

#[test]
fn a_result_that_cannot_be_cut_is_not_expected() {
    let (turn, _): Step = AgentLoop::new(Vec::new(), Vec::new(), START);
    let (turn, _): Step = turn.step(LoopInput::StreamOpened);
    let (turn, _): Step =
        turn.step(LoopInput::Streamed(delta(0, "1", "echo", "{}")));
    let (turn, _): Step = turn.step(LoopInput::Delivered(true));
    let (turn, _): Step = turn.step(LoopInput::StreamEnded { now: END });
    let (turn, _): Step = turn.step(LoopInput::Delivered(true));
    let (turn, action): Step =
        turn.step(LoopInput::ToolNames(vec!["echo".to_string()]));
    assert!(matches!(action, LoopAction::CallTool { tool: 0, .. }));
    let across = format!("{}é", "x".repeat(119));
    assert!(!turn.expects(&LoopInput::<String>::ToolReturned(Ok(across.clone()))));
    assert!(turn.expects(&LoopInput::<String>::ToolReturned(Err(across))));
    assert!(turn.expects(&LoopInput::<String>::ToolReturned(Ok("x".repeat(1000)))));
}
