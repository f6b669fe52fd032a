use pyg::agent::{AgentEvent, Channel, Sender};
use pyg::app::{
    discover_channel, discover_sender, is_chat_event_in_set, AgentApp, BridgeStep, ChannelFilters,
    ChannelSet, Delivery, Edge, Recipient, StartStep,
};
use pyg::event::{CompleteMessage, CoreEvent, Event, MessageHeader};
use pyg::ids::{ChannelUri, MessageUri, ParticipantId, SenderUri, Timestamp};
use pyg::participant::{AgentState, AnswerInput};

const NOW: Timestamp = Timestamp {
    seconds: 0,
    nanoseconds: 0,
};

type Told = Event<()>;

fn header(channel: &str, message: &str) -> MessageHeader {
    MessageHeader {
        channel_uri: ChannelUri::new(channel),
        sender_uri: SenderUri::new("agent"),
        date_time: NOW,
        message_uri: MessageUri::new(message),
    }
}

fn chunk(channel: &str) -> Told {
    Event::new(
        ParticipantId::new("agent"),
        CoreEvent::MessageStreamChunk {
            message_header: header(channel, "x:1"),
            content: "hi".into(),
        },
    )
}

fn completed(channel: &str) -> Told {
    Event::new(
        ParticipantId::new("agent"),
        CoreEvent::MessageStreamCompleted {
            message_header: header(channel, "x:1"),
        },
    )
}

fn room() -> Channel {
    Channel {
        uri: ChannelUri::new("room:1"),
        name: "Room".to_string(),
    }
}

fn sender(uri: &str, name: &str) -> Sender {
    Sender {
        uri: SenderUri::new(uri),
        name: name.to_string(),
    }
}

#[test]
fn chat_event_filter_matches_only_message_streams_in_listed_channels() {
    let set = ChannelSet::from_channels(vec![ChannelUri::new("silent:room")]);

    let chunk_match: Told = Event::new(
        ParticipantId::new("agent"),
        CoreEvent::MessageStreamChunk {
            message_header: header("silent:room", "x:1"),
            content: "hi".into(),
        },
    );
    let chunk_other: Told = Event::new(
        ParticipantId::new("agent"),
        CoreEvent::MessageStreamChunk {
            message_header: header("loud:room", "x:2"),
            content: "hi".into(),
        },
    );
    let discovery: Told = Event::new(
        ParticipantId::new("agent"),
        CoreEvent::SenderDiscovered {
            sender_uri: SenderUri::new("agent"),
            display_name: "Agent".into(),
        },
    );

    assert!(is_chat_event_in_set(&chunk_match, &set));
    assert!(!is_chat_event_in_set(&chunk_other, &set));
    assert!(!is_chat_event_in_set(&discovery, &set));
}

#[test]
fn completions_are_chat_events_and_failures_are_not() {
    let set = ChannelSet::from_channels(vec![ChannelUri::new("a"), ChannelUri::new("a")]);
    assert!(is_chat_event_in_set(&completed("a"), &set));
    assert!(!is_chat_event_in_set(&completed("b"), &set));
    let failed: Told = Event::new(
        ParticipantId::new("agent"),
        CoreEvent::MessageDeliveryFailed {
            message_header: header("a", "x:1"),
        },
    );
    assert!(!is_chat_event_in_set(&failed, &set));
    let foreign: Told = Event::from_payload(ParticipantId::new("agent"), ());
    assert!(!is_chat_event_in_set(&foreign, &set));
    assert!(!ChannelSet::new().contains(&ChannelUri::new("a")));
}

#[test]
fn filters_keep_to_their_channels() {
    let filters = ChannelFilters {
        silenced: ChannelSet::from_channels(vec![ChannelUri::new("silent")]),
        ignored: ChannelSet::from_channels(vec![ChannelUri::new("ignored")]),
    };
    assert!(filters.passes(Edge::Inbound, &chunk("silent")));
    assert!(!filters.passes(Edge::Outbound, &chunk("silent")));
    assert!(!filters.passes(Edge::Inbound, &completed("ignored")));
    assert!(!filters.passes(Edge::Outbound, &completed("ignored")));
    assert!(filters.passes(Edge::Inbound, &chunk("loud")));
    assert!(filters.passes(Edge::Outbound, &chunk("loud")));
    let discovery: Told = discover_channel(&Channel {
        uri: ChannelUri::new("ignored"),
        name: String::new(),
    });
    assert!(filters.passes(Edge::Inbound, &discovery));
    assert!(filters.passes(Edge::Outbound, &discovery));
}

#[test]
fn answers_in_a_silenced_channel_do_not_leave() {
    let filters = ChannelFilters {
        silenced: ChannelSet::from_channels(vec![ChannelUri::new("silent")]),
        ignored: ChannelSet::new(),
    };
    let state = AgentState::new(ParticipantId::new("scribe"), ());
    let message = CompleteMessage {
        message_header: header("silent", "m"),
        content: "hi".to_string(),
    };
    let (mut response, _) = state.begin_response(message, NOW);
    let mut events: Vec<Told> = Vec::new();
    events.extend(response.step(
        AnswerInput::Told(AgentEvent::ToolCallStarted {
            id: "1".to_string(),
            name: "now".to_string(),
        }),
        NOW,
    ));
    events.extend(response.step(AnswerInput::Told(AgentEvent::TextDelta("x".to_string())), NOW));
    events.extend(response.step(AnswerInput::Ended, NOW));
    assert_eq!(events.len(), 4);
    for event in &events {
        assert!(!filters.passes(Edge::Outbound, event));
    }
}

#[test]
fn discoveries_come_from_main_under_the_name_to_show() {
    let named: Told = discover_channel(&room());
    assert_eq!(
        named,
        Event::new(
            ParticipantId::new("main"),
            CoreEvent::ChannelDiscovered {
                channel_uri: ChannelUri::new("room:1"),
                display_name: "Room".to_string(),
            },
        )
    );
    let unnamed: Told = discover_sender(&sender("cli:steve", ""));
    assert_eq!(
        unnamed,
        Event::new(
            ParticipantId::new("main"),
            CoreEvent::SenderDiscovered {
                sender_uri: SenderUri::new("cli:steve"),
                display_name: "cli:steve".to_string(),
            },
        )
    );
}

#[test]
fn everyone_is_told_the_identities_in_order() {
    let app: AgentApp<(), u8, ()> = AgentApp::new(ParticipantId::new("scribe"), (), 1)
        .with_transport("second", 2)
        .with_observer("log", 3)
        .with_bootstrap(room(), sender("cli:steve", "Steve"), sender("scribe", "Scribe"));
    let (_, _, _, wiring) = app.into_parts();
    assert_eq!(wiring.runtime(Recipient::Transport(0)), Some(&1));
    assert_eq!(wiring.runtime(Recipient::Transport(1)), Some(&2));
    assert_eq!(wiring.runtime(Recipient::Transport(2)), None);
    assert_eq!(wiring.runtime(Recipient::Observer(0)), Some(&3));
    assert_eq!(wiring.runtime(Recipient::Observer(1)), None);
    assert_eq!(wiring.runtime(Recipient::Agent), None);
    let deliveries: Vec<Delivery<()>> = wiring.deliveries();
    let to: Vec<Recipient> = deliveries.iter().map(|delivery| delivery.to).collect();
    let everyone = [
        Recipient::Transport(0),
        Recipient::Transport(1),
        Recipient::Agent,
        Recipient::Observer(0),
    ];
    assert_eq!(to, everyone.repeat(3));
    let expected: [Told; 3] = [
        discover_channel(&room()),
        discover_sender(&sender("cli:steve", "Steve")),
        discover_sender(&sender("scribe", "Scribe")),
    ];
    for recipient in everyone {
        let told: Vec<&Told> = deliveries
            .iter()
            .filter(|delivery| delivery.to == recipient)
            .map(|delivery| &delivery.event)
            .collect();
        assert_eq!(told, expected.iter().collect::<Vec<_>>());
    }

    let mut state = AgentState::new(ParticipantId::new("scribe"), ());
    for event in &expected {
        state.receive(event, None);
    }
    assert_eq!(state.channel_for(&ChannelUri::new("room:1")).name, "Room");
    assert_eq!(state.sender_for(&SenderUri::new("cli:steve")).name, "Steve");
    assert_eq!(state.sender_for(&SenderUri::new("scribe")).name, "Scribe");
}

#[test]
fn the_past_comes_before_live_traffic() {
    let app: AgentApp<(), u8, u16> = AgentApp::new(ParticipantId::new("scribe"), (), 1)
        .with_history(vec![10, 11])
        .with_bootstrap(room(), sender("cli:steve", "Steve"), sender("scribe", "Scribe"));
    let steps: Vec<StartStep<()>> = app.start_steps();
    assert_eq!(
        steps[..5],
        [
            StartStep::TellPast(0),
            StartStep::TellPast(1),
            StartStep::CatchUp(0),
            StartStep::CatchUp(1),
            StartStep::Join,
        ]
    );
    let (_, _, _, wiring) = app.into_parts();
    let deliveries: Vec<Delivery<()>> = wiring.deliveries();
    assert_eq!(deliveries.len(), 6);
    assert_eq!(steps.len(), 12);
    for (step, delivery) in steps[5..11].iter().zip(deliveries) {
        assert_eq!(*step, StartStep::Deliver(delivery));
    }
    assert_eq!(steps[11], StartStep::RunBridge);
    let bare: AgentApp<(), u8, u16> = AgentApp::new(ParticipantId::new("scribe"), (), 1);
    let steps: Vec<StartStep<()>> = bare.start_steps();
    assert_eq!(steps, vec![StartStep::Join, StartStep::RunBridge]);
}

#[test]
fn nothing_is_told_without_identities() {
    let app: AgentApp<(), u8, ()> = AgentApp::new(ParticipantId::new("scribe"), (), 1);
    let (_, _, _, wiring) = app.into_parts();
    let deliveries: Vec<Delivery<()>> = wiring.deliveries();
    assert!(deliveries.is_empty());
}

#[test]
fn the_bridge_restricts_every_transport_and_no_observer() {
    let app: AgentApp<&str, u8, u16> = AgentApp::new(ParticipantId::new("scribe"), "agent", 1)
        .with_transport("second", 2)
        .with_history(vec![10, 11])
        .with_observer("log", 3)
        .with_silenced_channels(vec![ChannelUri::new("gone")])
        .with_silenced_channels(vec![ChannelUri::new("silent")])
        .with_ignored_channels(vec![ChannelUri::new("ignored")]);
    let (id, agent, history, wiring) = app.into_parts();
    assert_eq!(id.as_str(), "scribe");
    assert_eq!(agent, "agent");
    assert_eq!(history, vec![10, 11]);
    let (steps, filters) = wiring.into_bridge(0);
    let connect = |name: &str, runtime: u8| BridgeStep::Connect {
        name: name.to_string(),
        runtime,
    };
    let restrict = |from: &str, to: &str, edge: Edge| BridgeStep::Restrict {
        from: from.to_string(),
        to: to.to_string(),
        edge,
    };
    assert_eq!(
        steps,
        vec![
            connect("agent", 0),
            connect("transport", 1),
            restrict("agent", "transport", Edge::Outbound),
            restrict("transport", "agent", Edge::Inbound),
            connect("second", 2),
            restrict("agent", "second", Edge::Outbound),
            restrict("second", "agent", Edge::Inbound),
            connect("log", 3),
        ]
    );
    assert!(filters.silenced.contains(&ChannelUri::new("silent")));
    assert!(!filters.silenced.contains(&ChannelUri::new("gone")));
    assert!(filters.ignored.contains(&ChannelUri::new("ignored")));
    assert!(!filters.ignored.contains(&ChannelUri::new("silent")));
}
