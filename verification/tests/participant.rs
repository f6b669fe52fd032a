use pyg::agent::{AgentEvent, Channel, Sender};
use pyg::event::{CompleteMessage, CoreEvent, Event, MessageHeader, Payload};
use pyg::ids::{ChannelUri, MessageUri, ParticipantId, SenderUri, Timestamp};
use pyg::participant::{
    format_tool_event, is_message_part, tool_header, AgentState, AnswerInput, EventEmitter,
    Response,
};
use pyg::AgentParticipantBuilder;

const SENT: Timestamp = Timestamp {
    seconds: 1_780_008_240,
    nanoseconds: 0,
};
const NOW: Timestamp = Timestamp {
    seconds: 1_780_008_241,
    nanoseconds: 7,
};
const LATER: Timestamp = Timestamp {
    seconds: 1_780_008_242,
    nanoseconds: 8,
};

fn header() -> MessageHeader {
    MessageHeader {
        channel_uri: ChannelUri::new("room:1"),
        sender_uri: SenderUri::new("cli:steve"),
        date_time: SENT,
        message_uri: MessageUri::new("cli:1"),
    }
}

fn from(origin: &str, event: CoreEvent) -> Event<u32> {
    Event::new(ParticipantId::new(origin), event)
}

fn room(name: &str) -> Event<u32> {
    from(
        "main",
        CoreEvent::ChannelDiscovered {
            channel_uri: ChannelUri::new("room:1"),
            display_name: name.to_string(),
        },
    )
}

fn steve() -> Event<u32> {
    from(
        "main",
        CoreEvent::SenderDiscovered {
            sender_uri: SenderUri::new("cli:steve"),
            display_name: "Steve".to_string(),
        },
    )
}

fn question() -> CompleteMessage {
    CompleteMessage {
        message_header: header(),
        content: "what time is it?".to_string(),
    }
}

fn started() -> AgentEvent<u32> {
    AgentEvent::ToolCallStarted {
        id: "call_1".to_string(),
        name: "now".to_string(),
    }
}

/// The parts of messages among a number of events, by the name of the message.
fn chunks(events: &[Event<u32>]) -> Vec<(String, String)> {
    let mut chunks = Vec::new();
    for event in events {
        if let Payload::Core(CoreEvent::MessageStreamChunk {
            message_header,
            content,
        }) = &event.payload
        {
            chunks.push((
                message_header.message_uri.as_str().to_string(),
                content.clone(),
            ));
        }
    }
    chunks
}

fn answer(response: &mut Response, inputs: Vec<AnswerInput<u32>>) -> Vec<Event<u32>> {
    let mut events = Vec::new();
    for input in inputs {
        assert!(response.accepts(&input));
        events.extend(response.step(input, LATER));
    }
    events
}

#[test]
fn tool_events_format_with_chat_prefix() {
    assert_eq!(format_tool_event(&AgentEvent::<u32>::TextDelta("x".into())), None);
    assert_eq!(
        format_tool_event(&AgentEvent::<u32>::ToolCallStarted {
            id: "1".into(),
            name: "now".into(),
        })
        .unwrap(),
        "[tool] now"
    );
    assert_eq!(
        format_tool_event(&AgentEvent::<u32>::ToolCallReady {
            id: "1".into(),
            name: "now".into(),
            arguments: "{}".into(),
        })
        .unwrap(),
        "[tool] running now with {}"
    );
}

#[test]
fn what_came_of_a_tool_formats_with_chat_prefix() {
    assert_eq!(
        format_tool_event(&AgentEvent::<u32>::ToolCallFinished {
            id: "1".into(),
            name: "now".into(),
            summary: "noon".into(),
        })
        .unwrap(),
        "[tool] now returned noon"
    );
    assert_eq!(
        format_tool_event(&AgentEvent::<u32>::ToolCallFailed {
            id: "1".into(),
            name: "now".into(),
            error: "no clock".into(),
        })
        .unwrap(),
        "[tool] now failed: no clock"
    );
    assert_eq!(format_tool_event(&AgentEvent::Custom(3_u32)), None);
}

#[test]
fn participant_emits_tool_events_with_participant_id_as_sender_uri() {
    let mut state =
        AgentParticipantBuilder::new(ParticipantId::new("scribe"), ()).into_state();
    assert!(state.receive(&room("Room"), None).is_none());
    assert!(state.receive(&steve(), None).is_none());
    let chunk = from(
        "cli",
        CoreEvent::MessageStreamChunk {
            message_header: header(),
            content: "what time is it?".to_string(),
        },
    );
    assert!(state.receive(&chunk, None).is_none());
    let completed = from(
        "cli",
        CoreEvent::MessageStreamCompleted {
            message_header: header(),
        },
    );
    let message = state
        .receive(&completed, Some(question()))
        .expect("a message to answer");

    let (mut response, request) = state.begin_response(message, NOW);
    assert_eq!(
        request.channel,
        Channel {
            uri: ChannelUri::new("room:1"),
            name: "Room".to_string(),
        }
    );
    assert_eq!(
        request.sender,
        Sender {
            uri: SenderUri::new("cli:steve"),
            name: "Steve".to_string(),
        }
    );
    assert_eq!(request.timestamp, SENT);
    assert_eq!(request.input, "what time is it?");
    assert_eq!(request.response_uri.as_str(), "scribe:cli:1");

    let events = answer(
        &mut response,
        vec![
            AnswerInput::Told(AgentEvent::ToolCallStarted {
                id: "call_1".to_string(),
                name: "now".to_string(),
            }),
            AnswerInput::Told(AgentEvent::ToolCallFinished {
                id: "call_1".to_string(),
                name: "now".to_string(),
                summary: "2026-05-28T00:00:00Z".to_string(),
            }),
            AnswerInput::Told(AgentEvent::TextDelta("done".to_string())),
            AnswerInput::Ended,
        ],
    );
    let chunks = chunks(&events);
    assert_eq!(chunks.len(), 3);
    assert_eq!(chunks[0].1, "[tool] now");
    assert!(chunks[0].0.ends_with(":tool:1"));
    assert!(chunks[0].0.starts_with("scribe:"));
    assert_eq!(chunks[1].1, "[tool] now returned 2026-05-28T00:00:00Z");
    assert_eq!(chunks[2].1, "done");

    assert_eq!(chunks[1].0, "scribe:cli:1:tool:2");
    assert_eq!(chunks[2].0, "scribe:cli:1");
    for event in &events {
        assert_eq!(event.origin.as_str(), "scribe");
        if let Payload::Core(CoreEvent::MessageStreamChunk { message_header, .. }) = &event.payload
        {
            assert_eq!(message_header.sender_uri.as_str(), "scribe");
            assert_eq!(message_header.channel_uri.as_str(), "room:1");
        }
    }
}

#[test]
fn an_answer_is_made_of_its_events_in_order() {
    let state = AgentState::new(ParticipantId::new("scribe"), ());
    let (mut response, _) = state.begin_response(question(), NOW);
    let events = answer(
        &mut response,
        vec![
            AnswerInput::Told(AgentEvent::TextDelta("a".to_string())),
            AnswerInput::Told(started()),
            AnswerInput::Told(AgentEvent::Custom(42)),
            AnswerInput::Told(AgentEvent::TextDelta("b".to_string())),
            AnswerInput::Ended,
        ],
    );
    let own = MessageHeader {
        channel_uri: ChannelUri::new("room:1"),
        sender_uri: SenderUri::new("scribe"),
        date_time: NOW,
        message_uri: MessageUri::new("scribe:cli:1"),
    };
    let tool = MessageHeader {
        channel_uri: ChannelUri::new("room:1"),
        sender_uri: SenderUri::new("scribe"),
        date_time: LATER,
        message_uri: MessageUri::new("scribe:cli:1:tool:1"),
    };
    assert_eq!(tool_header(&own, 1, LATER), tool);
    assert_eq!(
        events,
        vec![
            from(
                "scribe",
                CoreEvent::MessageStreamChunk {
                    message_header: own.clone(),
                    content: "a".to_string(),
                },
            ),
            from(
                "scribe",
                CoreEvent::MessageStreamChunk {
                    message_header: tool.clone(),
                    content: "[tool] now".to_string(),
                },
            ),
            from(
                "scribe",
                CoreEvent::MessageStreamCompleted {
                    message_header: tool,
                },
            ),
            Event::from_payload(ParticipantId::new("scribe"), 42),
            from(
                "scribe",
                CoreEvent::MessageStreamChunk {
                    message_header: own.clone(),
                    content: "b".to_string(),
                },
            ),
            from(
                "scribe",
                CoreEvent::MessageStreamCompleted {
                    message_header: own,
                },
            ),
        ]
    );
    assert!(!response.accepts(&AnswerInput::<u32>::Ended));
    assert!(!response.accepts(&AnswerInput::Told(started())));
}

#[test]
fn an_answer_that_breaks_off_fails() {
    let state = AgentState::new(ParticipantId::new("scribe"), ());
    let (mut response, _) = state.begin_response(question(), NOW);
    let events = answer(
        &mut response,
        vec![
            AnswerInput::Told(AgentEvent::TextDelta("half".to_string())),
            AnswerInput::Failed,
        ],
    );
    assert_eq!(events.len(), 2);
    assert!(matches!(
        &events[1].payload,
        Payload::Core(CoreEvent::MessageDeliveryFailed { message_header })
            if message_header.message_uri.as_str() == "scribe:cli:1"
    ));
    assert!(!response.accepts(&AnswerInput::<u32>::Failed));
}

#[test]
fn a_participant_does_not_answer_itself_or_what_is_no_message() {
    let mut state = AgentState::new(ParticipantId::new("scribe"), ());
    let completed = |origin: &str| {
        from(
            origin,
            CoreEvent::MessageStreamCompleted {
                message_header: header(),
            },
        )
    };
    assert!(state.receive(&completed("scribe"), Some(question())).is_none());
    assert!(state.receive(&completed("cli"), None).is_none());
    assert_eq!(
        state.receive(&completed("cli"), Some(question())),
        Some(question())
    );
    let failed = from(
        "cli",
        CoreEvent::MessageDeliveryFailed {
            message_header: header(),
        },
    );
    assert!(state.receive(&failed, None).is_none());
    assert!(state.receive(&from("cli", CoreEvent::Other), None).is_none());
    let foreign = Event::from_payload(ParticipantId::new("cli"), 1_u32);
    assert!(state.receive(&foreign, None).is_none());
}

#[test]
fn only_parts_of_messages_are_applied_to_the_messages() {
    assert!(is_message_part(&CoreEvent::MessageStreamChunk {
        message_header: header(),
        content: String::new(),
    }));
    assert!(is_message_part(&CoreEvent::MessageStreamCompleted {
        message_header: header(),
    }));
    assert!(!is_message_part(&CoreEvent::MessageDeliveryFailed {
        message_header: header(),
    }));
    assert!(!is_message_part(&CoreEvent::Other));
}

#[test]
fn the_last_discovered_name_is_used() {
    let mut state = AgentState::new(ParticipantId::new("scribe"), 5);
    let uri = ChannelUri::new("room:1");
    let sender = SenderUri::new("cli:steve");
    assert_eq!(state.channel_for(&uri).name, "room:1");
    assert_eq!(state.sender_for(&sender).name, "cli:steve");
    state.receive(&room("Room"), None);
    state.receive(&steve(), None);
    state.receive(&room("Hall"), None);
    assert_eq!(state.channel_for(&uri).name, "Hall");
    assert_eq!(state.sender_for(&sender).name, "Steve");
    assert_eq!(state.channel_for(&ChannelUri::new("room:2")).name, "room:2");
    assert_eq!(*state.agent(), 5);
}

#[test]
fn the_past_is_told_with_the_names_known_by_then() {
    let mut builder = AgentParticipantBuilder::new(ParticipantId::new("scribe"), "agent");
    assert_eq!(*builder.agent(), "agent");
    assert!(builder.catch_up(&room("Room"), None).is_none());
    let completed = |origin: &str| {
        from(
            origin,
            CoreEvent::MessageStreamCompleted {
                message_header: header(),
            },
        )
    };
    let told = builder
        .catch_up(&completed("cli"), Some(question()))
        .expect("a message");
    assert_eq!(told.channel.name, "Room");
    assert_eq!(told.sender.name, "cli:steve");
    assert!(!told.is_self);
    assert_eq!(told.timestamp, SENT);
    assert_eq!(told.content, "what time is it?");
    assert!(builder.catch_up(&steve(), None).is_none());
    let own = builder
        .catch_up(&completed("scribe"), Some(question()))
        .expect("a message");
    assert!(own.is_self);
    assert_eq!(own.sender.name, "Steve");
    assert!(builder.catch_up(&completed("cli"), None).is_none());
    let foreign = Event::from_payload(ParticipantId::new("cli"), 1_u32);
    assert!(builder.catch_up(&foreign, Some(question())).is_none());
    let state = builder.into_state();
    assert_eq!(state.channel_for(&ChannelUri::new("room:1")).name, "Room");
}

#[test]
fn an_emitter_signs_what_it_makes() {
    let emitter = EventEmitter {
        participant_id: ParticipantId::new("scribe"),
    };
    let failed: Event<u32> = emitter.failed(header());
    assert_eq!(failed.origin.as_str(), "scribe");
    let custom = emitter.custom(9_u32);
    assert_eq!(custom.payload, Payload::Custom(9));
    let told: Vec<Event<u32>> =
        emitter.tool_chunk(&header(), u64::MAX, "text".to_string(), LATER);
    assert_eq!(
        chunks(&told),
        vec![(
            "cli:1:tool:18446744073709551615".to_string(),
            "text".to_string()
        )]
    );
    assert_eq!(told.len(), 2);
}
