//! An agent wired to the transports through which people reach it: who is told what at the
//! start, who is connected to whom, and which events may pass.

use vstd::hash_set::StringHashSet;
use vstd::prelude::*;
use crate::agent::{self, Channel, ChannelView, Sender, SenderView};
use crate::event::{self, CoreEvent, CoreEventView, Event, EventView, Payload, PayloadView};
use crate::ids::{ChannelUri, ParticipantId};

verus! {

/// A set of channels.
pub struct ChannelSet {
    uris: StringHashSet,
}

impl View for ChannelSet {
    type V = Set<Seq<char>>;

    closed spec fn view(&self) -> Set<Seq<char>> {
        self.uris@
    }
}

/// The addresses of a list of channels.
pub open spec fn channel_texts(channels: Seq<ChannelUri>) -> Seq<Seq<char>> {
    channels.map_values(|channel: ChannelUri| channel@)
}

impl ChannelSet {
    /// No channels.
    pub fn new() -> (set: Self)
        ensures
            set@ == Set::<Seq<char>>::empty(),
    {
        ChannelSet { uris: StringHashSet::new() }
    }

    /// The channels of a list.
    pub fn from_channels(channels: Vec<ChannelUri>) -> (set: Self)
        ensures
            set@ == channel_texts(channels@).to_set(),
            forall|i: int| 0 <= i < channels@.len() ==> set@.contains(#[trigger] channels@[i]@),
            forall|text: Seq<char>| #[trigger]
                set@.contains(text) ==> exists|i: int|
                    0 <= i < channels@.len() && #[trigger] channels@[i]@ == text,
    {
        let ghost texts = channel_texts(channels@);
        let mut uris = StringHashSet::new();
        assert(texts.take(0).to_set() =~= Set::empty());
        for i in 0..channels.len()
            invariant
                texts == channel_texts(channels@),
                uris@ == texts.take(i as int).to_set(),
        {
            uris.insert(channels[i].as_str().to_owned());
            proof {
                let before = texts.take(i as int);
                let after = texts.take(i + 1);
                assert(after =~= before.push(texts[i as int]));
                assert forall|text: Seq<char>| after.contains(text) == (before.contains(text)
                    || text == texts[i as int]) by {
                    if before.contains(text) {
                        let j = choose|j: int| 0 <= j < before.len() && before[j] == text;
                        assert(after[j] == text);
                    }
                    if text == texts[i as int] {
                        assert(after[i as int] == text);
                    }
                }
                assert(after.to_set() =~= before.to_set().insert(texts[i as int]));
            }
        }
        assert(texts.take(texts.len() as int) =~= texts);
        proof {
            assert forall|i: int| 0 <= i < channels@.len() implies texts.to_set().contains(
                #[trigger] channels@[i]@,
            ) by {
                assert(texts[i] == channels@[i]@);
            }
            assert forall|text: Seq<char>| #[trigger] texts.to_set().contains(text) implies exists|
                i: int,
            | 0 <= i < channels@.len() && #[trigger] channels@[i]@ == text by {
                let i = choose|i: int| 0 <= i < texts.len() && texts[i] == text;
                assert(channels@[i]@ == text);
            }
        }
        ChannelSet { uris }
    }

    /// Tells whether a channel is in the set.
    pub fn contains(&self, channel: &ChannelUri) -> (answer: bool)
        ensures
            answer == self@.contains(channel@),
    {
        self.uris.contains(channel.as_str())
    }
}

/// Whether an event is a part of a message in one of a set of channels, or completes one.
pub open spec fn chat_event_in_set<P>(event: EventView<P>, set: Set<Seq<char>>) -> bool {
    match event.payload {
        PayloadView::Core(CoreEventView::MessageStreamChunk { message_header, .. }) => set.contains(
            message_header.channel_uri,
        ),
        PayloadView::Core(CoreEventView::MessageStreamCompleted { message_header }) => set.contains(
            message_header.channel_uri,
        ),
        _ => false,
    }
}

/// Tells whether an event is a part of a message in one of a set of channels, or completes one.
pub fn is_chat_event_in_set<P>(event: &Event<P>, set: &ChannelSet) -> (answer: bool)
    ensures
        answer == chat_event_in_set(event@, set@),
{
    match &event.payload {
        Payload::Core(CoreEvent::MessageStreamChunk { message_header, .. }) => set.contains(
            &message_header.channel_uri,
        ),
        Payload::Core(CoreEvent::MessageStreamCompleted { message_header }) => set.contains(
            &message_header.channel_uri,
        ),
        _ => false,
    }
}

/// The two ways between the agent and a transport.
#[derive(Debug, Clone, Copy, PartialEq, Eq, Structural)]
pub enum Edge {
    /// From the agent to the transport.
    Outbound,
    /// From the transport to the agent.
    Inbound,
}

/// The channels that are kept apart.
pub struct ChannelFilters {
    /// Channels whose messages reach the agent, while its own do not leave.
    pub silenced: ChannelSet,
    /// Channels whose messages pass neither way.
    pub ignored: ChannelSet,
}

/// The model of [`ChannelFilters`].
pub struct ChannelFiltersView {
    pub silenced: Set<Seq<char>>,
    pub ignored: Set<Seq<char>>,
}

impl View for ChannelFilters {
    type V = ChannelFiltersView;

    open spec fn view(&self) -> ChannelFiltersView {
        ChannelFiltersView { silenced: self.silenced@, ignored: self.ignored@ }
    }
}

impl ChannelFiltersView {
    /// Whether an event may pass between the agent and a transport.
    pub open spec fn passes<P>(self, edge: Edge, event: EventView<P>) -> bool {
        match edge {
            Edge::Outbound => !chat_event_in_set(event, self.silenced) && !chat_event_in_set(
                event,
                self.ignored,
            ),
            Edge::Inbound => !chat_event_in_set(event, self.ignored),
        }
    }
}

impl ChannelFilters {
    /// Tells whether an event may pass between the agent and a transport.
    pub fn passes<P>(&self, edge: Edge, event: &Event<P>) -> (answer: bool)
        ensures
            answer == self@.passes(edge, event@),
    {
        match edge {
            Edge::Outbound => !is_chat_event_in_set(event, &self.silenced)
                && !is_chat_event_in_set(event, &self.ignored),
            Edge::Inbound => !is_chat_event_in_set(event, &self.ignored),
        }
    }
}

/// The event that makes a channel known, under the name to show for it.
pub open spec fn channel_discovery<P>(channel: ChannelView) -> EventView<P> {
    event::core_event(
        "main"@,
        CoreEventView::ChannelDiscovered {
            channel_uri: channel.uri,
            display_name: agent::shown_name(channel.uri, channel.name),
        },
    )
}

/// Makes a channel known.
pub fn discover_channel<P>(channel: &Channel) -> (result: Event<P>)
    ensures
        result@ == channel_discovery::<P>(channel@),
{
    Event::new(
        ParticipantId::new("main"),
        CoreEvent::ChannelDiscovered {
            channel_uri: channel.uri.clone(),
            display_name: channel.display_name().to_owned(),
        },
    )
}

/// The event that makes a sender known, under the name to show for it.
pub open spec fn sender_discovery<P>(sender: SenderView) -> EventView<P> {
    event::core_event(
        "main"@,
        CoreEventView::SenderDiscovered {
            sender_uri: sender.uri,
            display_name: agent::shown_name(sender.uri, sender.name),
        },
    )
}

/// Makes a sender known.
pub fn discover_sender<P>(sender: &Sender) -> (result: Event<P>)
    ensures
        result@ == sender_discovery::<P>(sender@),
{
    Event::new(
        ParticipantId::new("main"),
        CoreEvent::SenderDiscovered {
            sender_uri: sender.uri.clone(),
            display_name: sender.display_name().to_owned(),
        },
    )
}

/// The channel and the senders that everyone is told of at the start.
pub struct BootstrapIdentities {
    pub channel: Channel,
    pub transport_sender: Sender,
    pub agent_sender: Sender,
}

/// The model of [`BootstrapIdentities`].
pub struct BootstrapView {
    pub channel: ChannelView,
    pub transport_sender: SenderView,
    pub agent_sender: SenderView,
}

impl View for BootstrapIdentities {
    type V = BootstrapView;

    open spec fn view(&self) -> BootstrapView {
        BootstrapView {
            channel: self.channel@,
            transport_sender: self.transport_sender@,
            agent_sender: self.agent_sender@,
        }
    }
}

/// The model of identities that may be missing.
pub open spec fn opt_bootstrap(bootstrap: Option<BootstrapIdentities>) -> Option<BootstrapView> {
    match bootstrap {
        Some(bootstrap) => Some(bootstrap@),
        None => None,
    }
}

/// The events that everyone is told at the start, in their order.
pub open spec fn bootstrap_events<P>(bootstrap: BootstrapView) -> Seq<EventView<P>> {
    seq![
        channel_discovery(bootstrap.channel),
        sender_discovery(bootstrap.transport_sender),
        sender_discovery(bootstrap.agent_sender),
    ]
}

/// Makes the `index`-th of the events that everyone is told at the start.
fn bootstrap_event<P>(bootstrap: &BootstrapIdentities, index: usize) -> (result: Event<P>)
    requires
        index < 3,
    ensures
        result@ == bootstrap_events::<P>(bootstrap@)[index as int],
{
    if index == 0 {
        discover_channel(&bootstrap.channel)
    } else if index == 1 {
        discover_sender(&bootstrap.transport_sender)
    } else {
        discover_sender(&bootstrap.agent_sender)
    }
}

/// Who is told something at the start: a transport or an observer by its position, or the agent.
#[derive(Debug, Clone, Copy, PartialEq, Eq, Structural)]
pub enum Recipient {
    Transport(usize),
    Agent,
    Observer(usize),
}

/// An event on its way to a recipient.
#[derive(Debug, PartialEq, Eq)]
pub struct Delivery<P> {
    pub to: Recipient,
    pub event: Event<P>,
}

/// The model of a [`Delivery`].
pub struct DeliveryView<P> {
    pub to: Recipient,
    pub event: EventView<P>,
}

impl<P> View for Delivery<P> {
    type V = DeliveryView<P>;

    open spec fn view(&self) -> DeliveryView<P> {
        DeliveryView { to: self.to, event: self.event@ }
    }
}

/// The models of a list of deliveries.
pub open spec fn delivery_views<P>(deliveries: Seq<Delivery<P>>) -> Seq<DeliveryView<P>> {
    deliveries.map_values(|delivery: Delivery<P>| delivery@)
}

/// Everyone, in the order in which they are told: the transports, the agent, the observers.
pub open spec fn recipients(transports: nat, observers: nat) -> Seq<Recipient> {
    Seq::new(transports, |i: int| Recipient::Transport(i as usize)).push(Recipient::Agent)
        + Seq::new(observers, |i: int| Recipient::Observer(i as usize))
}

fn everyone(transports: usize, observers: usize) -> (everyone: Vec<Recipient>)
    ensures
        everyone@ == recipients(transports as nat, observers as nat),
{
    let mut everyone: Vec<Recipient> = Vec::new();
    for i in 0..transports
        invariant
            everyone@ == Seq::new(i as nat, |i: int| Recipient::Transport(i as usize)),
    {
        everyone.push(Recipient::Transport(i));
    }
    everyone.push(Recipient::Agent);
    let ghost first = everyone@;
    for i in 0..observers
        invariant
            everyone@ == first + Seq::new(i as nat, |i: int| Recipient::Observer(i as usize)),
    {
        everyone.push(Recipient::Observer(i));
    }
    everyone
}

/// An event on its way to each of a number of recipients, in their order.
pub open spec fn deliveries_of<P>(event: EventView<P>, to: Seq<Recipient>) -> Seq<DeliveryView<P>> {
    to.map_values(|to: Recipient| DeliveryView { to, event })
}

/// A number of events on their way to each of a number of recipients, event by event.
pub open spec fn all_deliveries<P>(events: Seq<EventView<P>>, to: Seq<Recipient>) -> Seq<
    DeliveryView<P>,
>
    decreases events.len(),
{
    if events.len() == 0 {
        Seq::empty()
    } else {
        all_deliveries(events.drop_last(), to) + deliveries_of(events.last(), to)
    }
}

/// A step in building the bridge between the participants.
#[derive(Debug, PartialEq, Eq)]
pub enum BridgeStep<R> {
    /// Connects a participant under a name.
    Connect { name: String, runtime: R },
    /// Lets only those events through from one participant to another that may pass the edge.
    Restrict { from: String, to: String, edge: Edge },
}

/// The model of a [`BridgeStep`].
pub enum BridgeStepView<R> {
    Connect { name: Seq<char>, runtime: R },
    Restrict { from: Seq<char>, to: Seq<char>, edge: Edge },
}

impl<R> View for BridgeStep<R> {
    type V = BridgeStepView<R>;

    open spec fn view(&self) -> BridgeStepView<R> {
        match self {
            BridgeStep::Connect { name, runtime } => BridgeStepView::Connect {
                name: name@,
                runtime: *runtime,
            },
            BridgeStep::Restrict { from, to, edge } => BridgeStepView::Restrict {
                from: from@,
                to: to@,
                edge: *edge,
            },
        }
    }
}

/// The models of a list of steps.
pub open spec fn step_views<R>(steps: Seq<BridgeStep<R>>) -> Seq<BridgeStepView<R>> {
    steps.map_values(|step: BridgeStep<R>| step@)
}

/// The models of a list of named participants.
pub open spec fn named_views<R>(participants: Seq<(String, R)>) -> Seq<(Seq<char>, R)> {
    participants.map_values(|participant: (String, R)| (participant.0@, participant.1))
}

/// How a transport is connected: with the agent, both ways restricted.
pub open spec fn transport_steps<R>(transport: (Seq<char>, R)) -> Seq<BridgeStepView<R>> {
    seq![
        BridgeStepView::Connect { name: transport.0, runtime: transport.1 },
        BridgeStepView::Restrict { from: "agent"@, to: transport.0, edge: Edge::Outbound },
        BridgeStepView::Restrict { from: transport.0, to: "agent"@, edge: Edge::Inbound },
    ]
}

/// How a number of transports are connected, one after the other.
pub open spec fn transports_steps<R>(transports: Seq<(Seq<char>, R)>) -> Seq<BridgeStepView<R>>
    decreases transports.len(),
{
    if transports.len() == 0 {
        Seq::empty()
    } else {
        transports_steps(transports.drop_last()) + transport_steps(transports.last())
    }
}

/// How a number of observers are connected: with everyone, nothing restricted.
pub open spec fn observers_steps<R>(observers: Seq<(Seq<char>, R)>) -> Seq<BridgeStepView<R>> {
    observers.map_values(
        |observer: (Seq<char>, R)|
            BridgeStepView::Connect { name: observer.0, runtime: observer.1 },
    )
}

/// How the bridge is built: the agent first, the transports after it, the observers last.
pub open spec fn bridge_steps<R>(
    agent_runtime: R,
    transports: Seq<(Seq<char>, R)>,
    observers: Seq<(Seq<char>, R)>,
) -> Seq<BridgeStepView<R>> {
    seq![BridgeStepView::Connect { name: "agent"@, runtime: agent_runtime }] + transports_steps(
        transports,
    ) + observers_steps(observers)
}

/// Everyone but the agent, and what lies between them and it.
pub struct Wiring<R> {
    transports: Vec<(String, R)>,
    bootstrap: Option<BootstrapIdentities>,
    observers: Vec<(String, R)>,
    filters: ChannelFilters,
}

/// The model of a [`Wiring`].
#[verifier::ext_equal]
pub struct WiringView<R> {
    pub transports: Seq<(Seq<char>, R)>,
    pub bootstrap: Option<BootstrapView>,
    pub observers: Seq<(Seq<char>, R)>,
    pub filters: ChannelFiltersView,
}

impl<R> View for Wiring<R> {
    type V = WiringView<R>;

    closed spec fn view(&self) -> WiringView<R> {
        WiringView {
            transports: named_views(self.transports@),
            bootstrap: opt_bootstrap(self.bootstrap),
            observers: named_views(self.observers@),
            filters: self.filters@,
        }
    }
}

/// What is delivered at the start: to everyone each of the events that make the identities
/// known; nothing where there are no identities.
pub open spec fn start_deliveries<R, P>(wiring: WiringView<R>) -> Seq<DeliveryView<P>> {
    match wiring.bootstrap {
        Some(bootstrap) => all_deliveries(
            bootstrap_events(bootstrap),
            recipients(wiring.transports.len(), wiring.observers.len()),
        ),
        None => Seq::empty(),
    }
}

impl<R> Wiring<R> {
    /// What runs a transport or an observer; the agent's is not known here.
    pub fn runtime(&self, to: Recipient) -> (runtime: Option<&R>)
        ensures
            match to {
                Recipient::Transport(i) => if i < self@.transports.len() {
                    runtime == Some(&self@.transports[i as int].1)
                } else {
                    runtime is None
                },
                Recipient::Agent => runtime is None,
                Recipient::Observer(i) => if i < self@.observers.len() {
                    runtime == Some(&self@.observers[i as int].1)
                } else {
                    runtime is None
                },
            },
    {
        match to {
            Recipient::Transport(i) => if i < self.transports.len() {
                Some(&self.transports[i].1)
            } else {
                None
            },
            Recipient::Agent => None,
            Recipient::Observer(i) => if i < self.observers.len() {
                Some(&self.observers[i].1)
            } else {
                None
            },
        }
    }

    /// What is delivered at the start, in its order.
    pub fn deliveries<P>(&self) -> (deliveries: Vec<Delivery<P>>)
        ensures
            delivery_views(deliveries@) == start_deliveries::<R, P>(self@),
    {
        let mut deliveries: Vec<Delivery<P>> = Vec::new();
        assert(delivery_views(deliveries@) =~= Seq::empty());
        let bootstrap = match &self.bootstrap {
            Some(bootstrap) => bootstrap,
            None => {
                return deliveries;
            },
        };
        let everyone = everyone(self.transports.len(), self.observers.len());
        let ghost events = bootstrap_events::<P>(bootstrap@);
        assert(events.take(0) =~= Seq::empty());
        let mut index: usize = 0;
        while index < 3
            invariant
                index <= 3,
                events == bootstrap_events::<P>(bootstrap@),
                delivery_views(deliveries@) == all_deliveries(
                    events.take(index as int),
                    everyone@,
                ),
            decreases 3 - index,
        {
            let ghost earlier = delivery_views(deliveries@);
            let ghost added = deliveries_of(events[index as int], everyone@);
            assert(added.take(0) =~= Seq::empty());
            for i in 0..everyone.len()
                invariant
                    index < 3,
                    events == bootstrap_events::<P>(bootstrap@),
                    added == deliveries_of(events[index as int], everyone@),
                    delivery_views(deliveries@) == earlier + added.take(i as int),
            {
                let ghost before = deliveries@;
                let delivery = Delivery { to: everyone[i], event: bootstrap_event(bootstrap, index) };
                let ghost pushed = delivery@;
                deliveries.push(delivery);
                assert(delivery_views(deliveries@) =~= delivery_views(before).push(pushed));
                assert(earlier + added.take(i + 1) =~= (earlier + added.take(i as int)).push(
                    added[i as int],
                ));
            }
            assert(added.take(added.len() as int) =~= added);
            assert(events.take(index + 1).drop_last() =~= events.take(index as int));
            index = index + 1;
        }
        assert(events.take(3) =~= events);
        deliveries
    }

    /// How the bridge is built, and the filters that its restrictions go by.
    pub fn into_bridge(self, agent_runtime: R) -> (bridge: (Vec<BridgeStep<R>>, ChannelFilters))
        ensures
            step_views(bridge.0@) == bridge_steps(
                agent_runtime,
                self@.transports,
                self@.observers,
            ),
            bridge.1@ == self@.filters,
    {
        let ghost transports = named_views(self.transports@);
        let ghost observers = named_views(self.observers@);
        let mut steps: Vec<BridgeStep<R>> = Vec::new();
        steps.push(BridgeStep::Connect { name: "agent".to_owned(), runtime: agent_runtime });
        let ghost first = step_views(steps@);
        assert(first =~= seq![
            BridgeStepView::Connect { name: "agent"@, runtime: agent_runtime },
        ]);
        assert(first + transports_steps(transports.take(0)) =~= first);
        for transport in it: self.transports
            invariant
                transports == named_views(it.seq()),
                step_views(steps@) == first + transports_steps(transports.take(it.index())),
        {
            let ghost before = step_views(steps@);
            let (name, runtime) = transport;
            let ghost connected = (name@, runtime);
            let to_transport = name.clone();
            let from_transport = name.clone();
            steps.push(BridgeStep::Connect { name, runtime });
            steps.push(
                BridgeStep::Restrict {
                    from: "agent".to_owned(),
                    to: to_transport,
                    edge: Edge::Outbound,
                },
            );
            steps.push(
                BridgeStep::Restrict {
                    from: from_transport,
                    to: "agent".to_owned(),
                    edge: Edge::Inbound,
                },
            );
            assert(step_views(steps@) =~= before + transport_steps(connected));
            assert(transports.take(it.index() + 1).drop_last() =~= transports.take(it.index()));
            assert(transports.take(it.index() + 1).last() == connected);
        }
        assert(transports.take(transports.len() as int) =~= transports);
        let ghost second = step_views(steps@);
        let ghost added = observers_steps(observers);
        assert(second + added.take(0) =~= second);
        for observer in it: self.observers
            invariant
                observers == named_views(it.seq()),
                added == observers_steps(observers),
                step_views(steps@) == second + added.take(it.index()),
        {
            let ghost before = step_views(steps@);
            let (name, runtime) = observer;
            let ghost connected = BridgeStepView::Connect { name: name@, runtime };
            steps.push(BridgeStep::Connect { name, runtime });
            assert(step_views(steps@) =~= before.push(connected));
            assert(added.take(it.index() + 1) =~= added.take(it.index()).push(connected));
            assert(step_views(steps@) =~= second + added.take(it.index() + 1));
        }
        assert(added.take(added.len() as int) =~= added);
        (steps, self.filters)
    }
}

/// Wires an agent to one or more transports. `R` is what runs a participant, `E` an event of
/// the past.
pub struct AgentApp<A, R, E> {
    agent_participant_id: ParticipantId,
    agent: A,
    history: Vec<E>,
    wiring: Wiring<R>,
}

/// The model of an [`AgentApp`].
#[verifier::ext_equal]
pub struct AgentAppView<A, R, E> {
    pub agent_participant_id: Seq<char>,
    pub agent: A,
    pub history: Seq<E>,
    pub wiring: WiringView<R>,
}

impl<A, R, E> View for AgentApp<A, R, E> {
    type V = AgentAppView<A, R, E>;

    closed spec fn view(&self) -> AgentAppView<A, R, E> {
        AgentAppView {
            agent_participant_id: self.agent_participant_id@,
            agent: self.agent,
            history: self.history@,
            wiring: self.wiring@,
        }
    }
}

/// An agent wired to one transport, and nothing else.
pub open spec fn bare_app<A, R, E>(
    agent_participant_id: Seq<char>,
    agent: A,
    transport: R,
) -> AgentAppView<A, R, E> {
    AgentAppView {
        agent_participant_id,
        agent,
        history: Seq::empty(),
        wiring: WiringView {
            transports: seq![("transport"@, transport)],
            bootstrap: None,
            observers: Seq::empty(),
            filters: ChannelFiltersView { silenced: Set::empty(), ignored: Set::empty() },
        },
    }
}

/// A step of the start, in which events of the past are named by their position.
#[derive(Debug, PartialEq, Eq)]
pub enum StartStep<P> {
    /// The agent itself is told of an event of the past.
    TellPast(usize),
    /// The agent's participant catches up on an event of the past.
    CatchUp(usize),
    /// The agent's participant begins to take part.
    Join,
    /// An event is delivered.
    Deliver(Delivery<P>),
    /// The bridge is built and runs.
    RunBridge,
}

/// The model of a [`StartStep`].
pub enum StartStepView<P> {
    TellPast(int),
    CatchUp(int),
    Join,
    Deliver(DeliveryView<P>),
    RunBridge,
}

impl<P> View for StartStep<P> {
    type V = StartStepView<P>;

    open spec fn view(&self) -> StartStepView<P> {
        match self {
            StartStep::TellPast(i) => StartStepView::TellPast(*i as int),
            StartStep::CatchUp(i) => StartStepView::CatchUp(*i as int),
            StartStep::Join => StartStepView::Join,
            StartStep::Deliver(delivery) => StartStepView::Deliver(delivery@),
            StartStep::RunBridge => StartStepView::RunBridge,
        }
    }
}

/// The models of a list of steps of the start.
pub open spec fn start_step_views<P>(steps: Seq<StartStep<P>>) -> Seq<StartStepView<P>> {
    steps.map_values(|step: StartStep<P>| step@)
}

/// The steps in which the past is gone through: the agent is told of every event, and then its
/// participant catches up on every event.
pub open spec fn past_steps<P>(events: nat) -> Seq<StartStepView<P>> {
    Seq::new(events, |i: int| StartStepView::TellPast(i)) + Seq::new(
        events,
        |i: int| StartStepView::CatchUp(i),
    )
}

/// The steps of the start: the past first, then the agent's participant joins, then everyone is
/// told of the identities, and then the bridge runs. A step that fails is the last.
pub open spec fn start_steps_of<A, R, E, P>(app: AgentAppView<A, R, E>) -> Seq<StartStepView<P>> {
    past_steps(app.history.len()).push(StartStepView::Join) + start_deliveries::<R, P>(
        app.wiring,
    ).map_values(|delivery: DeliveryView<P>| StartStepView::Deliver(delivery)).push(
        StartStepView::RunBridge,
    )
}

impl<A, R, E> AgentApp<A, R, E> {
    /// Wires an agent to one transport.
    pub fn new(agent_participant_id: ParticipantId, agent: A, transport: R) -> (app: Self)
        ensures
            app@ == bare_app::<A, R, E>(agent_participant_id@, agent, transport),
    {
        let mut transports: Vec<(String, R)> = Vec::new();
        transports.push(("transport".to_owned(), transport));
        let app = AgentApp {
            agent_participant_id,
            agent,
            history: Vec::new(),
            wiring: Wiring {
                transports,
                bootstrap: None,
                observers: Vec::new(),
                filters: ChannelFilters { silenced: ChannelSet::new(), ignored: ChannelSet::new() },
            },
        };
        assert(app@ =~= bare_app::<A, R, E>(agent_participant_id@, agent, transport));
        app
    }

    /// Wires the agent to one more transport.
    pub fn with_transport(self, name: &str, transport: R) -> (app: Self)
        ensures
            app@ == (AgentAppView {
                wiring: WiringView {
                    transports: self@.wiring.transports.push((name@, transport)),
                    ..self@.wiring
                },
                ..self@
            }),
    {
        let mut app = self;
        app.wiring.transports.push((name.to_owned(), transport));
        assert(app@.wiring.transports =~= self@.wiring.transports.push((name@, transport)));
        app
    }

    /// Sets the events of the past.
    pub fn with_history(self, history: Vec<E>) -> (app: Self)
        ensures
            app@ == (AgentAppView { history: history@, ..self@ }),
    {
        let mut app = self;
        app.history = history;
        app
    }

    /// Sets the identities that everyone is told of at the start.
    pub fn with_bootstrap(
        self,
        channel: Channel,
        transport_sender: Sender,
        agent_sender: Sender,
    ) -> (app: Self)
        ensures
            app@ == (AgentAppView {
                wiring: WiringView {
                    bootstrap: Some(
                        BootstrapView {
                            channel: channel@,
                            transport_sender: transport_sender@,
                            agent_sender: agent_sender@,
                        },
                    ),
                    ..self@.wiring
                },
                ..self@
            }),
    {
        let mut app = self;
        app.wiring.bootstrap = Some(
            BootstrapIdentities { channel, transport_sender, agent_sender },
        );
        app
    }

    /// Adds someone who hears every event.
    pub fn with_observer(self, name: &str, observer: R) -> (app: Self)
        ensures
            app@ == (AgentAppView {
                wiring: WiringView {
                    observers: self@.wiring.observers.push((name@, observer)),
                    ..self@.wiring
                },
                ..self@
            }),
    {
        let mut app = self;
        app.wiring.observers.push((name.to_owned(), observer));
        assert(app@.wiring.observers =~= self@.wiring.observers.push((name@, observer)));
        app
    }

    /// Sets the channels in which the agent hears messages but does not speak.
    pub fn with_silenced_channels(self, channels: Vec<ChannelUri>) -> (app: Self)
        ensures
            app@ == (AgentAppView {
                wiring: WiringView {
                    filters: ChannelFiltersView {
                        silenced: channel_texts(channels@).to_set(),
                        ..self@.wiring.filters
                    },
                    ..self@.wiring
                },
                ..self@
            }),
    {
        let mut app = self;
        app.wiring.filters.silenced = ChannelSet::from_channels(channels);
        app
    }

    /// Sets the channels in which the agent neither hears messages nor speaks.
    pub fn with_ignored_channels(self, channels: Vec<ChannelUri>) -> (app: Self)
        ensures
            app@ == (AgentAppView {
                wiring: WiringView {
                    filters: ChannelFiltersView {
                        ignored: channel_texts(channels@).to_set(),
                        ..self@.wiring.filters
                    },
                    ..self@.wiring
                },
                ..self@
            }),
    {
        let mut app = self;
        app.wiring.filters.ignored = ChannelSet::from_channels(channels);
        app
    }

    /// The steps of the start, in their order.
    pub fn start_steps<P>(&self) -> (steps: Vec<StartStep<P>>)
        ensures
            start_step_views(steps@) == start_steps_of::<A, R, E, P>(self@),
    {
        let events: usize = self.history.len();
        let mut steps: Vec<StartStep<P>> = Vec::new();
        for i in 0..events
            invariant
                start_step_views(steps@) == Seq::new(
                    i as nat,
                    |i: int| StartStepView::<P>::TellPast(i),
                ),
        {
            let ghost before = start_step_views(steps@);
            steps.push(StartStep::TellPast(i));
            assert(start_step_views(steps@) =~= before.push(StartStepView::TellPast(i as int)));
        }
        let ghost told = start_step_views(steps@);
        for i in 0..events
            invariant
                start_step_views(steps@) == told + Seq::new(
                    i as nat,
                    |i: int| StartStepView::<P>::CatchUp(i),
                ),
        {
            let ghost before = start_step_views(steps@);
            steps.push(StartStep::CatchUp(i));
            assert(start_step_views(steps@) =~= before.push(StartStepView::CatchUp(i as int)));
        }
        let ghost past = start_step_views(steps@);
        assert(past =~= past_steps(events as nat));
        steps.push(StartStep::Join);
        let ghost joined = start_step_views(steps@);
        assert(joined =~= past.push(StartStepView::Join));
        let deliveries: Vec<Delivery<P>> = self.wiring.deliveries();
        let ghost added = start_deliveries::<R, P>(self.wiring@).map_values(
            |delivery: DeliveryView<P>| StartStepView::Deliver(delivery),
        );
        assert(joined + added.take(0) =~= joined);
        for delivery in it: deliveries
            invariant
                delivery_views(it.seq()) == start_deliveries::<R, P>(self.wiring@),
                added == start_deliveries::<R, P>(self.wiring@).map_values(
                    |delivery: DeliveryView<P>| StartStepView::Deliver(delivery),
                ),
                start_step_views(steps@) == joined + added.take(it.index()),
        {
            let ghost before = start_step_views(steps@);
            let ghost step = StartStepView::Deliver(delivery@);
            assert(delivery_views(it.seq())[it.index()] == delivery@);
            steps.push(StartStep::Deliver(delivery));
            assert(start_step_views(steps@) =~= before.push(step));
            assert(joined + added.take(it.index() + 1) =~= (joined + added.take(it.index())).push(
                added[it.index()],
            ));
        }
        assert(delivery_views(deliveries@).len() == added.len());
        assert(added.take(added.len() as int) =~= added);
        let ghost before = start_step_views(steps@);
        steps.push(StartStep::RunBridge);
        assert(start_step_views(steps@) =~= before.push(StartStepView::RunBridge));
        assert(start_step_views(steps@) =~= start_steps_of::<A, R, E, P>(self@));
        steps
    }

    /// Hands out what is needed to start: the agent's participant, the agent, the events of the
    /// past that it is told of, and what it is then wired to.
    pub fn into_parts(self) -> (parts: (ParticipantId, A, Vec<E>, Wiring<R>))
        ensures
            parts.0@ == self@.agent_participant_id,
            parts.1 == self@.agent,
            parts.2@ == self@.history,
            parts.3@ == self@.wiring,
    {
        (self.agent_participant_id, self.agent, self.history, self.wiring)
    }
}

} // verus!
