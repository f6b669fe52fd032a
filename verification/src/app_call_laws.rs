//! What every call gives with which an agent is wired and started.

use vstd::prelude::*;
use crate::agent::{Channel, Sender};
use crate::app::{
    self, AgentApp, BridgeStep, ChannelFilters, ChannelSet, Delivery, Edge, Recipient, StartStep,
    Wiring,
};
use crate::app_laws;
use crate::event::Event;
use crate::ids::{ChannelUri, ParticipantId};

verus! {

/// Whether two agents are wired alike, but for what the flags name.
pub open spec fn alike<A, R, E>(
    a: AgentApp<A, R, E>,
    b: AgentApp<A, R, E>,
    transports: bool,
    history: bool,
    bootstrap: bool,
    observers: bool,
    silenced: bool,
    ignored: bool,
) -> bool {
    &&& a@.agent_participant_id == b@.agent_participant_id
    &&& a@.agent == b@.agent
    &&& transports ==> a@.wiring.transports == b@.wiring.transports
    &&& history ==> a@.history == b@.history
    &&& bootstrap ==> a@.wiring.bootstrap == b@.wiring.bootstrap
    &&& observers ==> a@.wiring.observers == b@.wiring.observers
    &&& silenced ==> a@.wiring.filters.silenced == b@.wiring.filters.silenced
    &&& ignored ==> a@.wiring.filters.ignored == b@.wiring.filters.ignored
}

/// An agent is at first wired to one transport, named so, and to nothing else.
pub proof fn law_new_app<A, R, E>(
    id: ParticipantId,
    agent: A,
    transport: R,
    app: AgentApp<A, R, E>,
    uri: Seq<char>,
)
    requires
        call_ensures(AgentApp::<A, R, E>::new, (id, agent, transport), app),
    ensures
        app@.agent_participant_id == id@,
        app@.agent == agent,
        app@.history.len() == 0,
        app@.wiring.transports.len() == 1,
        app@.wiring.transports[0].0 == "transport"@,
        app@.wiring.transports[0].1 == transport,
        app@.wiring.bootstrap is None,
        app@.wiring.observers.len() == 0,
        !app@.wiring.filters.silenced.contains(uri),
        !app@.wiring.filters.ignored.contains(uri),
{
}

/// A transport is added behind those before it, and changes nothing else.
pub proof fn law_transport_is_added<A, R, E>(
    before: AgentApp<A, R, E>,
    name: &str,
    transport: R,
    after: AgentApp<A, R, E>,
)
    requires
        call_ensures(AgentApp::<A, R, E>::with_transport, (before, name, transport), after),
    ensures
        after@.wiring.transports.len() == before@.wiring.transports.len() + 1,
        before@.wiring.transports.is_prefix_of(after@.wiring.transports),
        after@.wiring.transports.last().0 == name@,
        after@.wiring.transports.last().1 == transport,
        alike(before, after, false, true, true, true, true, true),
{
}

/// An observer is added behind those before it, and changes nothing else.
pub proof fn law_observer_is_added<A, R, E>(
    before: AgentApp<A, R, E>,
    name: &str,
    observer: R,
    after: AgentApp<A, R, E>,
)
    requires
        call_ensures(AgentApp::<A, R, E>::with_observer, (before, name, observer), after),
    ensures
        after@.wiring.observers.len() == before@.wiring.observers.len() + 1,
        before@.wiring.observers.is_prefix_of(after@.wiring.observers),
        after@.wiring.observers.last().0 == name@,
        after@.wiring.observers.last().1 == observer,
        alike(before, after, true, true, true, false, true, true),
{
}

/// The past is what it is set to, all of it and in its order, and nothing else changes.
pub proof fn law_history_is_set<A, R, E>(
    before: AgentApp<A, R, E>,
    history: Vec<E>,
    after: AgentApp<A, R, E>,
)
    requires
        call_ensures(AgentApp::<A, R, E>::with_history, (before, history), after),
    ensures
        after@.history == history@,
        alike(before, after, true, false, true, true, true, true),
{
}

/// The identities are those that are given, each in its part, and nothing else changes.
pub proof fn law_identities_are_set<A, R, E>(
    before: AgentApp<A, R, E>,
    channel: Channel,
    transport_sender: Sender,
    agent_sender: Sender,
    after: AgentApp<A, R, E>,
)
    requires
        call_ensures(
            AgentApp::<A, R, E>::with_bootstrap,
            (before, channel, transport_sender, agent_sender),
            after,
        ),
    ensures
        ({
            let set = after@.wiring.bootstrap;
            &&& set is Some
            &&& set->Some_0.channel.uri == channel.uri@
            &&& set->Some_0.channel.name == channel.name@
            &&& set->Some_0.transport_sender.uri == transport_sender.uri@
            &&& set->Some_0.transport_sender.name == transport_sender.name@
            &&& set->Some_0.agent_sender.uri == agent_sender.uri@
            &&& set->Some_0.agent_sender.name == agent_sender.name@
        }),
        alike(before, after, true, true, false, true, true, true),
{
}

/// The silenced channels are those that are listed and no others, and nothing else changes; and
/// so it is with the ignored ones.
pub proof fn law_channels_are_kept_apart_as_listed<A, R, E>(
    before: AgentApp<A, R, E>,
    channels: Vec<ChannelUri>,
    after: AgentApp<A, R, E>,
    uri: Seq<char>,
)
    ensures
        call_ensures(AgentApp::<A, R, E>::with_silenced_channels, (before, channels), after) ==> {
            &&& after@.wiring.filters.silenced.contains(uri) <==> exists|i: int|
                0 <= i < channels@.len() && #[trigger] channels@[i]@ == uri
            &&& alike(before, after, true, true, true, true, false, true)
        },
        call_ensures(AgentApp::<A, R, E>::with_ignored_channels, (before, channels), after) ==> {
            &&& after@.wiring.filters.ignored.contains(uri) <==> exists|i: int|
                0 <= i < channels@.len() && #[trigger] channels@[i]@ == uri
            &&& alike(before, after, true, true, true, true, true, false)
        },
{
    app_laws::law_channel_texts_are_the_addresses(channels@, uri);
}

/// A set of channels holds those that it is made of, and no others.
pub proof fn law_set_of_channels(
    channels: Vec<ChannelUri>,
    set: ChannelSet,
    channel: &ChannelUri,
    answer: bool,
    uri: Seq<char>,
)
    ensures
        call_ensures(ChannelSet::new, (), set) ==> !set@.contains(uri),
        call_ensures(ChannelSet::from_channels, (channels,), set) ==> (set@.contains(uri)
            <==> exists|i: int| 0 <= i < channels@.len() && #[trigger] channels@[i]@ == uri),
        call_ensures(ChannelSet::contains, (&set, channel), answer) ==> (answer <==> set@.contains(
            channel@,
        )),
{
    app_laws::law_channel_texts_are_the_addresses(channels@, uri);
}

/// An event is kept apart with a set exactly if it belongs to a message in one of its channels;
/// and it may pass exactly if it is not kept apart: outbound with the silenced or the ignored
/// channels, inbound with the ignored ones.
pub proof fn law_passing_event<P>(
    event: &Event<P>,
    set: &ChannelSet,
    filters: &ChannelFilters,
    edge: Edge,
    answer: bool,
)
    ensures
        call_ensures(app::is_chat_event_in_set::<P>, (event, set), answer) ==> (answer
            <==> app_laws::chat_channel(event@) is Some && set@.contains(
            app_laws::chat_channel(event@)->Some_0,
        )),
        call_ensures(ChannelFilters::passes::<P>, (filters, edge, event), answer) ==> (answer
            <==> match app_laws::chat_channel(event@) {
            Some(channel) => !filters.ignored@.contains(channel) && (edge == Edge::Inbound
                || !filters.silenced@.contains(channel)),
            None => true,
        }),
{
    app_laws::law_only_messages_in_the_set_are_kept_apart(event@, set@);
    app_laws::law_filters_keep_to_their_channels(filters@, event@);
}

/// A discovery comes from `main` and makes its channel or sender known, by its name or, where it
/// has none, by its address.
pub proof fn law_discovery<P>(channel: &Channel, sender: &Sender, event: Event<P>)
    ensures
        call_ensures(app::discover_channel::<P>, (channel,), event)
            ==> app_laws::makes_channel_known(event@, channel.uri@, channel.name@),
        call_ensures(app::discover_sender::<P>, (sender,), event) ==> app_laws::makes_sender_known(
            event@,
            sender.uri@,
            sender.name@,
        ),
{
    app_laws::law_discovery_makes_known::<P>(channel@, sender@);
}

/// At the start, nothing is delivered without identities. With them, each transport, the agent
/// and each observer is delivered what makes them known, event by event and in this order.
pub proof fn law_deliveries_of_the_start<R, P>(
    wiring: &Wiring<R>,
    deliveries: Vec<Delivery<P>>,
    e: int,
    r: int,
)
    requires
        call_ensures(Wiring::<R>::deliveries::<P>, (wiring,), deliveries),
        wiring@.transports.len() <= usize::MAX,
        wiring@.observers.len() <= usize::MAX,
        0 <= e < 3,
        0 <= r < wiring@.transports.len() + 1 + wiring@.observers.len(),
    ensures
        wiring@.bootstrap is None ==> deliveries@.len() == 0,
        wiring@.bootstrap is Some ==> {
            let n = wiring@.transports.len() as int;
            let everyone = n + 1 + wiring@.observers.len();
            let delivery = deliveries@[e * everyone + r];
            let known = wiring@.bootstrap->Some_0;
            &&& deliveries@.len() == 3 * everyone
            &&& r < n ==> delivery.to == Recipient::Transport(r as usize)
            &&& r == n ==> delivery.to == Recipient::Agent
            &&& r > n ==> delivery.to == Recipient::Observer((r - n - 1) as usize)
            &&& e == 0 ==> app_laws::makes_channel_known(
                delivery.event@,
                known.channel.uri,
                known.channel.name,
            )
            &&& e == 1 ==> app_laws::makes_sender_known(
                delivery.event@,
                known.transport_sender.uri,
                known.transport_sender.name,
            )
            &&& e == 2 ==> app_laws::makes_sender_known(
                delivery.event@,
                known.agent_sender.uri,
                known.agent_sender.name,
            )
        },
{
    let views = app::delivery_views(deliveries@);
    assert(views.len() == deliveries@.len());
    if wiring@.bootstrap is Some {
        app_laws::law_deliveries_go_event_by_event::<R, P>(wiring@, e, r);
        let everyone = wiring@.transports.len() + 1 + wiring@.observers.len();
        assert(0 <= e * everyone + r < 3 * everyone) by (nonlinear_arith)
            requires
                0 <= e < 3,
                0 <= r < everyone,
        ;
        assert(views[e * everyone + r] == deliveries@[e * everyone + r]@);
    }
}

/// A transport or an observer is found by its position; nothing is found elsewhere.
pub proof fn law_runtime_by_position<R>(wiring: &Wiring<R>, to: Recipient, runtime: Option<&R>)
    requires
        call_ensures(Wiring::<R>::runtime, (wiring, to), runtime),
    ensures
        match to {
            Recipient::Transport(i) => {
                &&& runtime is Some <==> i < wiring@.transports.len()
                &&& runtime is Some ==> *runtime->Some_0 == wiring@.transports[i as int].1
            },
            Recipient::Agent => runtime is None,
            Recipient::Observer(i) => {
                &&& runtime is Some <==> i < wiring@.observers.len()
                &&& runtime is Some ==> *runtime->Some_0 == wiring@.observers[i as int].1
            },
        },
{
}

/// The bridge connects the agent first, then each transport, restricted to and from the agent,
/// and then each observer, unrestricted; and it goes by the filters that were set.
pub proof fn law_built_bridge<R>(
    wiring: Wiring<R>,
    agent_runtime: R,
    bridge: (Vec<BridgeStep<R>>, ChannelFilters),
    i: int,
    j: int,
)
    requires
        call_ensures(Wiring::<R>::into_bridge, (wiring, agent_runtime), bridge),
    ensures
        ({
            let steps = bridge.0@;
            let n = wiring@.transports.len() as int;
            &&& steps.len() == 1 + 3 * n + wiring@.observers.len()
            &&& steps[0] is Connect
            &&& steps[0]->name@ == "agent"@
            &&& steps[0]->runtime == agent_runtime
            &&& 0 <= i < n ==> {
                let (name, runtime) = wiring@.transports[i];
                &&& steps[1 + 3 * i] is Connect
                &&& steps[1 + 3 * i]->name@ == name
                &&& steps[1 + 3 * i]->runtime == runtime
                &&& steps[2 + 3 * i] is Restrict
                &&& steps[2 + 3 * i]->from@ == "agent"@
                &&& steps[2 + 3 * i]->to@ == name
                &&& steps[2 + 3 * i]->edge == Edge::Outbound
                &&& steps[3 + 3 * i] is Restrict
                &&& steps[3 + 3 * i]->from@ == name
                &&& steps[3 + 3 * i]->to@ == "agent"@
                &&& steps[3 + 3 * i]->edge == Edge::Inbound
            }
            &&& 0 <= j < wiring@.observers.len() ==> {
                let (name, runtime) = wiring@.observers[j];
                &&& steps[1 + 3 * n + j] is Connect
                &&& steps[1 + 3 * n + j]->name@ == name
                &&& steps[1 + 3 * n + j]->runtime == runtime
            }
        }),
        bridge.1.silenced@ == wiring@.filters.silenced,
        bridge.1.ignored@ == wiring@.filters.ignored,
{
    app_laws::law_restrictions_stand_at_every_transport(
        agent_runtime,
        wiring@.transports,
        wiring@.observers,
    );
    let views = app::step_views(bridge.0@);
    let n = wiring@.transports.len() as int;
    assert(views.len() == bridge.0@.len());
    assert(views[0] == bridge.0@[0]@);
    if 0 <= i < n {
        let transport = wiring@.transports[i];
        assert(views[1 + 3 * i] == bridge.0@[1 + 3 * i]@);
        assert(views[2 + 3 * i] == bridge.0@[2 + 3 * i]@);
        assert(views[3 + 3 * i] == bridge.0@[3 + 3 * i]@);
    }
    if 0 <= j < wiring@.observers.len() {
        let observer = wiring@.observers[j];
        assert(views[1 + 3 * n + j] == bridge.0@[1 + 3 * n + j]@);
    }
}

/// The start tells the agent of the whole past, then has its participant catch up on all of it,
/// then has it join, and runs the bridge last.
pub proof fn law_steps_of_the_start<A, R, E, P>(
    app: &AgentApp<A, R, E>,
    steps: Vec<StartStep<P>>,
    i: int,
)
    requires
        call_ensures(AgentApp::<A, R, E>::start_steps::<P>, (app,), steps),
    ensures
        ({
            let n = app@.history.len() as int;
            &&& steps@.len() == 2 * n + app::start_deliveries::<R, P>(app@.wiring).len() + 2
            &&& 0 <= i < n ==> {
                &&& steps@[i] is TellPast
                &&& steps@[i]->TellPast_0 == i
                &&& steps@[n + i] is CatchUp
                &&& steps@[n + i]->CatchUp_0 == i
            }
            &&& steps@[2 * n] is Join
            &&& 2 * n < i < steps@.len() - 1 ==> {
                &&& steps@[i] is Deliver
                &&& steps@[i]->Deliver_0@ == app::start_deliveries::<R, P>(app@.wiring)[i - 2 * n
                    - 1]
            }
            &&& steps@.last() is RunBridge
        }),
{
    app_laws::law_past_comes_before_live_traffic::<A, R, E, P>(app@);
    let views = app::start_step_views(steps@);
    let n = app@.history.len() as int;
    let deliveries = app::start_deliveries::<R, P>(app@.wiring);
    assert(views.len() == steps@.len());
    assert(views[2 * n] == steps@[2 * n]@);
    assert(views[views.len() - 1] == steps@[steps@.len() - 1]@);
    if 0 <= i < n {
        assert(views[i] == steps@[i]@);
        assert(views[n + i] == steps@[n + i]@);
    }
    if 2 * n < i < steps@.len() - 1 {
        assert(views[i] == steps@[i]@);
        let delivery = deliveries[i - 2 * n - 1];
        assert(views[2 * n + 1 + (i - 2 * n - 1)] == app::StartStepView::Deliver(delivery));
    }
}

/// What is handed out to start is all that was set.
pub proof fn law_parts_of_an_app<A, R, E>(
    app: AgentApp<A, R, E>,
    parts: (ParticipantId, A, Vec<E>, Wiring<R>),
)
    requires
        call_ensures(AgentApp::<A, R, E>::into_parts, (app,), parts),
    ensures
        parts.0@ == app@.agent_participant_id,
        parts.1 == app@.agent,
        parts.2@ == app@.history,
        parts.3@ == app@.wiring,
{
}

} // verus!
