use async_openai::types::chat::ChatCompletionRequestMessage;
use pyg::llm::LlmEvent;
use pyg::message::{Message, ToolCall};
use pyg::openai::{
    extract_events, offer_tools, request_message, to_function_calls, to_openai_message,
    to_openai_messages, to_openai_request, to_openai_tool, ChunkChoice, FunctionChunk,
    RequestMessage, StreamChunk, ToolCallChunk, ToolChoice,
};
use pyg::tool::ToolDefinition;

fn json(text: &str) -> serde_json::Value {
    serde_json::from_str(text).expect("valid JSON")
}

fn echo() -> ToolDefinition {
    ToolDefinition {
        name: "echo".to_string(),
        description: "Echoes.".to_string(),
        parameters_schema: json("{\"type\":\"object\"}"),
    }
}

#[test]
fn neutral_messages_translate_to_openai_request_messages() {
    let messages = vec![
        Message::system("sys"),
        Message::developer("dev"),
        Message::user("hi"),
        Message::Assistant {
            text: String::new(),
            tool_calls: vec![ToolCall {
                id: "call_1".to_string(),
                name: "now".to_string(),
                arguments: "{}".to_string(),
            }],
        },
        Message::ToolResult {
            tool_call_id: "call_1".to_string(),
            content: "result".to_string(),
        },
    ];

    let translated = messages
        .into_iter()
        .map(to_openai_message)
        .collect::<Result<Vec<_>, _>>()
        .expect("translation succeeds");

    assert!(matches!(translated[0], ChatCompletionRequestMessage::System(_)));
    assert!(matches!(translated[1], ChatCompletionRequestMessage::Developer(_)));
    assert!(matches!(translated[2], ChatCompletionRequestMessage::User(_)));
    assert!(matches!(translated[3], ChatCompletionRequestMessage::Assistant(_)));
    assert!(matches!(translated[4], ChatCompletionRequestMessage::Tool(_)));
}

#[test]
fn translated_messages_say_what_they_said() {
    let messages = vec![
        Message::system("sys"),
        Message::developer("dev"),
        Message::user("hi"),
        Message::Assistant {
            text: "text".to_string(),
            tool_calls: vec![ToolCall {
                id: "call_1".to_string(),
                name: "now".to_string(),
                arguments: "{}".to_string(),
            }],
        },
        Message::ToolResult {
            tool_call_id: "call_1".to_string(),
            content: "result".to_string(),
        },
    ];
    let translated = to_openai_messages(messages).expect("translation succeeds");
    assert_eq!(
        serde_json::to_value(&translated).unwrap(),
        json(
            "[{\"role\":\"system\",\"content\":\"sys\"},
              {\"role\":\"developer\",\"content\":\"dev\"},
              {\"role\":\"user\",\"content\":\"hi\"},
              {\"role\":\"assistant\",\"content\":\"text\",\"tool_calls\":[
                {\"type\":\"function\",\"id\":\"call_1\",
                 \"function\":{\"name\":\"now\",\"arguments\":\"{}\"}}]},
              {\"role\":\"tool\",\"tool_call_id\":\"call_1\",\"content\":\"result\"}]"
        )
    );
}

#[test]
fn an_assistant_that_says_nothing_leaves_its_text_and_calls_out() {
    let empty = Message::Assistant {
        text: String::new(),
        tool_calls: Vec::new(),
    };
    assert_eq!(
        request_message(empty.clone()),
        RequestMessage::Assistant {
            text: None,
            tool_calls: None,
        }
    );
    let translated = to_openai_message(empty).expect("translation succeeds");
    assert_eq!(
        serde_json::to_value(&translated).unwrap(),
        json("{\"role\":\"assistant\"}")
    );
    let spoken = Message::Assistant {
        text: "hello".to_string(),
        tool_calls: Vec::new(),
    };
    assert_eq!(
        serde_json::to_value(to_openai_message(spoken).unwrap()).unwrap(),
        json("{\"role\":\"assistant\",\"content\":\"hello\"}")
    );
}

#[test]
fn different_messages_are_requested_differently() {
    let messages = [
        Message::system("x"),
        Message::developer("x"),
        Message::user("x"),
        Message::user(""),
        Message::Assistant {
            text: "x".to_string(),
            tool_calls: Vec::new(),
        },
        Message::Assistant {
            text: String::new(),
            tool_calls: Vec::new(),
        },
        Message::ToolResult {
            tool_call_id: "x".to_string(),
            content: String::new(),
        },
    ];
    for (i, a) in messages.iter().enumerate() {
        for (j, b) in messages.iter().enumerate() {
            let same = request_message(a.clone()) == request_message(b.clone());
            assert_eq!(same, i == j);
        }
    }
}

#[test]
fn tool_calls_become_function_calls() {
    let calls = to_function_calls(vec![ToolCall {
        id: "1".to_string(),
        name: "echo".to_string(),
        arguments: "[]".to_string(),
    }]);
    assert_eq!(
        serde_json::to_value(&calls).unwrap(),
        json("[{\"type\":\"function\",\"id\":\"1\",\"function\":{\"name\":\"echo\",\"arguments\":\"[]\"}}]")
    );
}

#[test]
fn a_tool_is_told_by_its_name_description_and_parameters() {
    assert_eq!(
        serde_json::to_value(to_openai_tool(echo())).unwrap(),
        json(
            "{\"type\":\"function\",\"function\":{\"name\":\"echo\",\"description\":\"Echoes.\",
              \"parameters\":{\"type\":\"object\"}}}"
        )
    );
}

#[test]
fn a_request_offers_tools_only_where_there_are_some() {
    let (tools, choice) = offer_tools(Vec::new());
    assert!(tools.is_none());
    assert!(choice.is_none());
    let (tools, choice) = offer_tools(vec![echo()]);
    assert_eq!(tools, Some(vec![echo()]));
    assert_eq!(choice, Some(ToolChoice::Auto));

    let bare = to_openai_request("model", vec![Message::user("hi")], Vec::new()).unwrap();
    assert_eq!(
        serde_json::to_value(&bare).unwrap(),
        json("{\"model\":\"model\",\"messages\":[{\"role\":\"user\",\"content\":\"hi\"}]}")
    );
    let offering = to_openai_request("other", vec![Message::user("hi")], vec![echo()]).unwrap();
    assert_eq!(
        serde_json::to_value(&offering).unwrap(),
        json(
            "{\"model\":\"other\",\"messages\":[{\"role\":\"user\",\"content\":\"hi\"}],
              \"tools\":[{\"type\":\"function\",\"function\":{\"name\":\"echo\",
                \"description\":\"Echoes.\",\"parameters\":{\"type\":\"object\"}}}],
              \"tool_choice\":\"auto\"}"
        )
    );
}

#[test]
fn a_chunk_brings_its_text_and_then_its_tool_calls() {
    let chunk = StreamChunk {
        choices: vec![
            ChunkChoice {
                content: Some("hi".to_string()),
                tool_calls: Some(vec![
                    ToolCallChunk {
                        index: 2,
                        id: Some("1".to_string()),
                        function: Some(FunctionChunk {
                            name: Some("echo".to_string()),
                            arguments: Some("{".to_string()),
                        }),
                    },
                    ToolCallChunk {
                        index: 0,
                        id: None,
                        function: Some(FunctionChunk {
                            name: None,
                            arguments: None,
                        }),
                    },
                    ToolCallChunk {
                        index: 1,
                        id: None,
                        function: None,
                    },
                ]),
            },
            ChunkChoice {
                content: Some("not this".to_string()),
                tool_calls: None,
            },
        ],
    };
    assert_eq!(
        extract_events(chunk),
        vec![
            LlmEvent::TextDelta("hi".to_string()),
            LlmEvent::ToolCallDelta {
                index: 2,
                id: Some("1".to_string()),
                name: Some("echo".to_string()),
                arguments_delta: "{".to_string(),
            },
            LlmEvent::ToolCallDelta {
                index: 0,
                id: None,
                name: None,
                arguments_delta: String::new(),
            },
            LlmEvent::ToolCallDelta {
                index: 1,
                id: None,
                name: None,
                arguments_delta: String::new(),
            },
        ]
    );
}

#[test]
fn an_empty_chunk_brings_nothing() {
    assert!(extract_events(StreamChunk { choices: Vec::new() }).is_empty());
    let silent = ChunkChoice {
        content: None,
        tool_calls: None,
    };
    assert!(extract_events(StreamChunk { choices: vec![silent] }).is_empty());
}
