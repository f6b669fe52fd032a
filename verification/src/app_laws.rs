//! What holds of an agent and everyone that it is wired to.

use vstd::prelude::*;
use crate::agent::{self, ChannelView, SenderView};
use crate::app::{
    self, AgentAppView, BootstrapView, BridgeStepView, ChannelFiltersView, DeliveryView, Edge, Recipient,
    StartStepView, WiringView,
};
use crate::event::{CoreEventView, EventView, MessageHeaderView, PayloadView};
use crate::ids::{ChannelUri, Timestamp};
use crate::participant::{self, AgentStateView, AnswerInputView};
use crate::participant_laws;

verus! {

/// The channel in which an event carries a part of a message or completes one.
pub open spec fn chat_channel<P>(event: EventView<P>) -> Option<Seq<char>> {
    match event.payload {
        PayloadView::Core(CoreEventView::MessageStreamChunk { message_header, .. }) => Some(
            message_header.channel_uri,
        ),
        PayloadView::Core(CoreEventView::MessageStreamCompleted { message_header }) => Some(
            message_header.channel_uri,
        ),
        _ => None,
    }
}

/// Messages in an ignored channel pass neither way. Messages in a silenced channel that is not
/// ignored reach the agent and do not leave it. All other messages, and all events that are no
/// part of a message, pass both ways.
pub proof fn law_filters_keep_to_their_channels<P>(filters: ChannelFiltersView, event: EventView<P>)
    ensures
        match chat_channel(event) {
            Some(channel) => {
                &&& filters.ignored.contains(channel) ==> !filters.passes(Edge::Inbound, event)
                    && !filters.passes(Edge::Outbound, event)
                &&& filters.silenced.contains(channel) && !filters.ignored.contains(channel) ==> {
                    filters.passes(Edge::Inbound, event) && !filters.passes(Edge::Outbound, event)
                }
                &&& !filters.silenced.contains(channel) && !filters.ignored.contains(channel) ==> {
                    filters.passes(Edge::Inbound, event) && filters.passes(Edge::Outbound, event)
                }
            },
            None => filters.passes(Edge::Inbound, event) && filters.passes(Edge::Outbound, event),
        },
{
}

/// No part of an answer to a message in a silenced or ignored channel leaves for a transport,
/// neither its text nor what it tells of tools.
pub proof fn law_silenced_answers_do_not_leave<P>(
    filters: ChannelFiltersView,
    participant_id: Seq<char>,
    message: MessageHeaderView,
    now: Timestamp,
    inputs: Seq<(AnswerInputView<P>, Timestamp)>,
    i: int,
)
    requires
        filters.silenced.contains(message.channel_uri) || filters.ignored.contains(
            message.channel_uri,
        ),
        0 <= i < participant_laws::answer_events(
            participant::begun_response(participant_id, message, now),
            inputs,
        ).len(),
    ensures
        ({
            let event = participant_laws::answer_events(
                participant::begun_response(participant_id, message, now),
                inputs,
            )[i];
            chat_channel(event) is Some ==> !filters.passes(Edge::Outbound, event)
        }),
{
    participant_laws::law_answer_is_signed(participant_id, message, now, inputs);
}

/// What is delivered to one recipient, in its order.
pub open spec fn delivered_to<P>(deliveries: Seq<DeliveryView<P>>, to: Recipient) -> Seq<
    EventView<P>,
>
    decreases deliveries.len(),
{
    if deliveries.len() == 0 {
        Seq::empty()
    } else {
        let earlier = delivered_to(deliveries.drop_last(), to);
        if deliveries.last().to == to {
            earlier.push(deliveries.last().event)
        } else {
            earlier
        }
    }
}

proof fn lemma_delivered_to_concat<P>(
    a: Seq<DeliveryView<P>>,
    b: Seq<DeliveryView<P>>,
    to: Recipient,
)
    ensures
        delivered_to(a + b, to) == delivered_to(a, to) + delivered_to(b, to),
    decreases b.len(),
{
    if b.len() == 0 {
        assert(a + b =~= a);
        assert(delivered_to(a, to) + delivered_to(b, to) =~= delivered_to(a, to));
    } else {
        assert((a + b).drop_last() =~= a + b.drop_last());
        lemma_delivered_to_concat(a, b.drop_last(), to);
        assert(delivered_to(a + b, to) =~= delivered_to(a, to) + delivered_to(b, to));
    }
}

proof fn lemma_one_delivery_each<P>(event: EventView<P>, everyone: Seq<Recipient>, to: Recipient)
    requires
        everyone.no_duplicates(),
    ensures
        delivered_to(app::deliveries_of(event, everyone), to) == (if everyone.contains(to) {
            seq![event]
        } else {
            Seq::empty()
        }),
    decreases everyone.len(),
{
    if everyone.len() > 0 {
        let before = everyone.drop_last();
        lemma_one_delivery_each(event, before, to);
        assert(app::deliveries_of(event, everyone).drop_last() =~= app::deliveries_of(
            event,
            before,
        ));
        assert(everyone.contains(to) <==> before.contains(to) || everyone.last() == to) by {
            if before.contains(to) {
                let j = choose|j: int| 0 <= j < before.len() && before[j] == to;
                assert(everyone[j] == to);
            }
            if everyone.contains(to) && everyone.last() != to {
                let j = choose|j: int| 0 <= j < everyone.len() && everyone[j] == to;
                assert(before[j] == to);
            }
        }
        if everyone.last() == to {
            assert(!before.contains(to)) by {
                if before.contains(to) {
                    let j = choose|j: int| 0 <= j < before.len() && before[j] == to;
                    assert(everyone[j] == everyone[everyone.len() - 1]);
                }
            }
            assert(Seq::empty().push(event) =~= seq![event]);
        }
    }
}

proof fn lemma_all_deliveries_each<P>(
    events: Seq<EventView<P>>,
    everyone: Seq<Recipient>,
    to: Recipient,
)
    requires
        everyone.no_duplicates(),
        everyone.contains(to),
    ensures
        delivered_to(app::all_deliveries(events, everyone), to) == events,
    decreases events.len(),
{
    if events.len() > 0 {
        lemma_all_deliveries_each(events.drop_last(), everyone, to);
        lemma_delivered_to_concat(
            app::all_deliveries(events.drop_last(), everyone),
            app::deliveries_of(events.last(), everyone),
            to,
        );
        lemma_one_delivery_each(events.last(), everyone, to);
    }
    assert(delivered_to(app::all_deliveries(events, everyone), to) =~= events);
}

/// At the start each transport, the agent and each observer is told of the same identities:
/// first the channel, then the transport's sender, then the agent's.
pub proof fn law_everyone_is_told_the_identities<R, P>(wiring: WiringView<R>, to: Recipient)
    requires
        wiring.bootstrap is Some,
        wiring.transports.len() <= usize::MAX,
        wiring.observers.len() <= usize::MAX,
        match to {
            Recipient::Transport(i) => i < wiring.transports.len(),
            Recipient::Agent => true,
            Recipient::Observer(i) => i < wiring.observers.len(),
        },
    ensures
        delivered_to(app::start_deliveries::<R, P>(wiring), to) == app::bootstrap_events::<P>(
            wiring.bootstrap->Some_0,
        ),
{
    let bootstrap = wiring.bootstrap->Some_0;
    let transports = wiring.transports.len();
    let everyone = app::recipients(transports, wiring.observers.len());
    assert(everyone.contains(to)) by {
        match to {
            Recipient::Transport(i) => {
                assert(everyone[i as int] == to);
            },
            Recipient::Agent => {
                assert(everyone[transports as int] == to);
            },
            Recipient::Observer(i) => {
                assert(everyone[transports + 1 + i] == to);
            },
        }
    }
    lemma_all_deliveries_each(app::bootstrap_events::<P>(bootstrap), everyone, to);
}

/// Before anyone takes part, the agent is told of every event of the past, each once and in its
/// order, and after that its participant catches up on each of them, in the same order. Then it
/// joins, then come the deliveries, and the bridge runs last.
pub proof fn law_past_comes_before_live_traffic<A, R, E, P>(app: AgentAppView<A, R, E>)
    ensures
        ({
            let steps = app::start_steps_of::<A, R, E, P>(app);
            let deliveries = app::start_deliveries::<R, P>(app.wiring);
            let n = app.history.len() as int;
            &&& steps.len() == 2 * n + deliveries.len() + 2
            &&& forall|i: int|
                0 <= i < n ==> {
                    &&& #[trigger] steps[i] == StartStepView::<P>::TellPast(i)
                    &&& steps[n + i] == StartStepView::<P>::CatchUp(i)
                }
            &&& steps[2 * n] == StartStepView::<P>::Join
            &&& forall|k: int|
                0 <= k < deliveries.len() ==> steps[2 * n + 1 + k] == StartStepView::Deliver(
                    #[trigger] deliveries[k],
                )
            &&& steps.last() == StartStepView::<P>::RunBridge
        }),
{
}

/// A participant that was told of the identities knows the channel and the senders by the names
/// to show for them. Of two senders at one address, the agent's name stands.
pub proof fn law_told_identities_are_known<P>(state: AgentStateView, bootstrap: BootstrapView)
    ensures
        ({
            let after = participant_laws::learned_all(
                state,
                app::bootstrap_events::<P>(bootstrap),
            );
            let channel = bootstrap.channel;
            let transport = bootstrap.transport_sender;
            let own = bootstrap.agent_sender;
            &&& after.channel(channel.uri).name == agent::shown_name(channel.uri, channel.name)
            &&& after.sender(own.uri).name == agent::shown_name(own.uri, own.name)
            &&& transport.uri != own.uri ==> after.sender(transport.uri).name == agent::shown_name(
                transport.uri,
                transport.name,
            )
        }),
{
    let events = app::bootstrap_events::<P>(bootstrap);
    reveal_with_fuel(participant_laws::learned_all, 4);
    assert(events.drop_last().drop_last().drop_last() =~= Seq::empty());
    assert(events.drop_last().drop_last().last() == events[0]);
    assert(events.drop_last().last() == events[1]);
}

proof fn lemma_transports_layout<R>(transports: Seq<(Seq<char>, R)>)
    ensures
        app::transports_steps(transports).len() == 3 * transports.len(),
        forall|i: int|
            0 <= i < transports.len() ==> {
                &&& app::transports_steps(transports)[3 * i] == app::transport_steps(
                    #[trigger] transports[i],
                )[0]
                &&& app::transports_steps(transports)[3 * i + 1] == app::transport_steps(
                    transports[i],
                )[1]
                &&& app::transports_steps(transports)[3 * i + 2] == app::transport_steps(
                    transports[i],
                )[2]
            },
    decreases transports.len(),
{
    if transports.len() > 0 {
        let before = transports.drop_last();
        lemma_transports_layout(before);
        assert forall|i: int| 0 <= i < transports.len() implies {
            &&& app::transports_steps(transports)[3 * i] == app::transport_steps(
                #[trigger] transports[i],
            )[0]
            &&& app::transports_steps(transports)[3 * i + 1] == app::transport_steps(
                transports[i],
            )[1]
            &&& app::transports_steps(transports)[3 * i + 2] == app::transport_steps(
                transports[i],
            )[2]
        } by {
            if i < before.len() {
                assert(before[i] == transports[i]);
            }
        }
    }
}

/// Every transport is connected with both its ways to and from the agent restricted; the agent
/// and every observer are connected once, and nothing else is restricted.
pub proof fn law_restrictions_stand_at_every_transport<R>(
    agent_runtime: R,
    transports: Seq<(Seq<char>, R)>,
    observers: Seq<(Seq<char>, R)>,
)
    ensures
        ({
            let steps = app::bridge_steps(agent_runtime, transports, observers);
            let n = transports.len() as int;
            &&& steps.len() == 1 + 3 * n + observers.len()
            &&& steps[0] == (BridgeStepView::Connect { name: "agent"@, runtime: agent_runtime })
            &&& forall|i: int|
                0 <= i < n ==> {
                    let (name, runtime) = #[trigger] transports[i];
                    &&& steps[1 + 3 * i] == (BridgeStepView::Connect { name, runtime })
                    &&& steps[2 + 3 * i] == (BridgeStepView::<R>::Restrict {
                        from: "agent"@,
                        to: name,
                        edge: Edge::Outbound,
                    })
                    &&& steps[3 + 3 * i] == (BridgeStepView::<R>::Restrict {
                        from: name,
                        to: "agent"@,
                        edge: Edge::Inbound,
                    })
                }
            &&& forall|j: int|
                0 <= j < observers.len() ==> {
                    let (name, runtime) = #[trigger] observers[j];
                    steps[1 + 3 * n + j] == (BridgeStepView::Connect { name, runtime })
                }
        }),
{
    lemma_transports_layout(transports);
    let steps = app::bridge_steps(agent_runtime, transports, observers);
    let middle = app::transports_steps(transports);
    assert forall|i: int| 0 <= i < transports.len() implies {
        let (name, runtime) = #[trigger] transports[i];
        &&& steps[1 + 3 * i] == (BridgeStepView::Connect { name, runtime })
        &&& steps[2 + 3 * i] == (BridgeStepView::<R>::Restrict {
            from: "agent"@,
            to: name,
            edge: Edge::Outbound,
        })
        &&& steps[3 + 3 * i] == (BridgeStepView::<R>::Restrict {
            from: name,
            to: "agent"@,
            edge: Edge::Inbound,
        })
    } by {
        assert(steps[1 + 3 * i] == middle[3 * i]);
        assert(steps[2 + 3 * i] == middle[3 * i + 1]);
        assert(steps[3 + 3 * i] == middle[3 * i + 2]);
    }
}

/// An event is kept apart with a set of channels exactly if it carries a part of a message, or
/// completes one, in a channel of the set.
pub proof fn law_only_messages_in_the_set_are_kept_apart<P>(
    event: EventView<P>,
    set: Set<Seq<char>>,
)
    ensures
        app::chat_event_in_set(event, set) <==> chat_channel(event) is Some && set.contains(
            chat_channel(event)->Some_0,
        ),
{
}

/// The addresses of a list of channels are those of its channels, one for one.
pub proof fn law_channel_texts_are_the_addresses(channels: Seq<ChannelUri>, text: Seq<char>)
    ensures
        app::channel_texts(channels).to_set().contains(text) <==> exists|i: int|
            0 <= i < channels.len() && #[trigger] channels[i]@ == text,
{
    let texts = app::channel_texts(channels);
    if exists|i: int| 0 <= i < channels.len() && #[trigger] channels[i]@ == text {
        let i = choose|i: int| 0 <= i < channels.len() && #[trigger] channels[i]@ == text;
        assert(texts[i] == text);
    }
    if texts.to_set().contains(text) {
        let i = choose|i: int| 0 <= i < texts.len() && texts[i] == text;
        assert(channels[i]@ == text);
    }
}

/// Whether an event comes from `main` and makes a channel known by a name.
pub open spec fn makes_channel_known<P>(
    event: EventView<P>,
    uri: Seq<char>,
    name: Seq<char>,
) -> bool {
    &&& event.origin == "main"@
    &&& event.payload is Core
    &&& event.payload->Core_0 is ChannelDiscovered
    &&& event.payload->Core_0->channel_uri == uri
    &&& event.payload->Core_0->ChannelDiscovered_display_name == (if name.len() > 0 {
        name
    } else {
        uri
    })
}

/// Whether an event comes from `main` and makes a sender known by a name.
pub open spec fn makes_sender_known<P>(
    event: EventView<P>,
    uri: Seq<char>,
    name: Seq<char>,
) -> bool {
    &&& event.origin == "main"@
    &&& event.payload is Core
    &&& event.payload->Core_0 is SenderDiscovered
    &&& event.payload->Core_0->sender_uri == uri
    &&& event.payload->Core_0->SenderDiscovered_display_name == (if name.len() > 0 {
        name
    } else {
        uri
    })
}

/// A discovery makes the given channel or sender known by its name, or by its address where it
/// has no name.
pub proof fn law_discovery_makes_known<P>(channel: ChannelView, sender: SenderView)
    ensures
        makes_channel_known(app::channel_discovery::<P>(channel), channel.uri, channel.name),
        makes_sender_known(app::sender_discovery::<P>(sender), sender.uri, sender.name),
{
}

/// Whether the events of the start make the channel, the transport's sender and the agent's
/// sender known, in this order, and nothing else.
pub open spec fn makes_identities_known<P>(
    events: Seq<EventView<P>>,
    bootstrap: BootstrapView,
) -> bool {
    let transport = bootstrap.transport_sender;
    let own = bootstrap.agent_sender;
    &&& events.len() == 3
    &&& makes_channel_known(events[0], bootstrap.channel.uri, bootstrap.channel.name)
    &&& makes_sender_known(events[1], transport.uri, transport.name)
    &&& makes_sender_known(events[2], own.uri, own.name)
}

/// What each transport, the agent and each observer is told at the start makes the channel, the
/// transport's sender and the agent's sender known, in this order; where there are no
/// identities, nobody is told anything.
pub proof fn law_what_everyone_is_told<R, P>(wiring: WiringView<R>, to: Recipient)
    requires
        wiring.transports.len() <= usize::MAX,
        wiring.observers.len() <= usize::MAX,
        match to {
            Recipient::Transport(i) => i < wiring.transports.len(),
            Recipient::Agent => true,
            Recipient::Observer(i) => i < wiring.observers.len(),
        },
    ensures
        wiring.bootstrap is Some ==> makes_identities_known(
            delivered_to(app::start_deliveries::<R, P>(wiring), to),
            wiring.bootstrap->Some_0,
        ),
        wiring.bootstrap is None ==> app::start_deliveries::<R, P>(wiring).len() == 0,
{
    if wiring.bootstrap is Some {
        law_everyone_is_told_the_identities::<R, P>(wiring, to);
    }
}

/// The deliveries of the start go event by event, and each event first to the transports in
/// their order, then to the agent, then to the observers in their order; to nobody else, and to
/// nobody twice.
pub proof fn law_deliveries_go_event_by_event<R, P>(wiring: WiringView<R>, e: int, r: int)
    requires
        wiring.bootstrap is Some,
        wiring.transports.len() <= usize::MAX,
        wiring.observers.len() <= usize::MAX,
        0 <= e < 3,
        0 <= r < wiring.transports.len() + 1 + wiring.observers.len(),
    ensures
        ({
            let deliveries = app::start_deliveries::<R, P>(wiring);
            let n = wiring.transports.len() as int;
            let everyone = n + 1 + wiring.observers.len();
            let delivery = deliveries[e * everyone + r];
            &&& deliveries.len() == 3 * everyone
            &&& r < n ==> delivery.to == Recipient::Transport(r as usize)
            &&& r == n ==> delivery.to == Recipient::Agent
            &&& r > n ==> delivery.to == Recipient::Observer((r - n - 1) as usize)
            &&& delivery.event == app::bootstrap_events::<P>(wiring.bootstrap->Some_0)[e]
        }),
{
    let events = app::bootstrap_events::<P>(wiring.bootstrap->Some_0);
    let everyone = app::recipients(wiring.transports.len(), wiring.observers.len());
    lemma_deliveries_layout(events, everyone, e, r);
    assert(e == 0 || e == 1 || e == 2);
}

proof fn lemma_deliveries_layout<P>(
    events: Seq<EventView<P>>,
    everyone: Seq<Recipient>,
    e: int,
    r: int,
)
    requires
        0 <= e < events.len(),
        0 <= r < everyone.len(),
    ensures
        app::all_deliveries(events, everyone).len() == events.len() * everyone.len(),
        0 <= e * everyone.len() + r < events.len() * everyone.len(),
        app::all_deliveries(events, everyone)[e * everyone.len() + r] == (DeliveryView {
            to: everyone[r],
            event: events[e],
        }),
    decreases events.len(),
{
    let before = events.drop_last();
    let n = everyone.len() as int;
    let k = events.len() as int;
    assert(k * n == (k - 1) * n + n) by (nonlinear_arith);
    assert(e <= k - 1 ==> e * n <= (k - 1) * n) by (nonlinear_arith)
        requires
            n >= 0,
    ;
    assert(e <= k - 2 ==> e * n + n <= (k - 1) * n) by (nonlinear_arith)
        requires
            n >= 0,
    ;
    assert(e * n >= 0) by (nonlinear_arith)
        requires
            n >= 0,
            e >= 0,
    ;
    if k == 1 {
        assert(before =~= Seq::empty());
        assert((k - 1) * n == 0) by (nonlinear_arith)
            requires
                k == 1,
        ;
    } else if e < k - 1 {
        lemma_deliveries_layout(before, everyone, e, r);
    } else {
        lemma_deliveries_layout(before, everyone, 0, r);
    }
}

/// An agent is at first wired to one transport, which is named so, and to nothing else: nobody
/// observes, nothing is told at the start, there is no past, and no channel is kept apart.
pub proof fn law_bare_agent_has_one_transport<A, R, E>(id: Seq<char>, agent: A, transport: R)
    ensures
        ({
            let app = app::bare_app::<A, R, E>(id, agent, transport);
            &&& app.agent_participant_id == id
            &&& app.agent == agent
            &&& app.history.len() == 0
            &&& app.wiring.transports.len() == 1
            &&& app.wiring.transports[0].0 == "transport"@
            &&& app.wiring.transports[0].1 == transport
            &&& app.wiring.bootstrap is None
            &&& app.wiring.observers.len() == 0
            &&& forall|uri: Seq<char>| !(#[trigger] app.wiring.filters.silenced.contains(uri))
            &&& forall|uri: Seq<char>| !(#[trigger] app.wiring.filters.ignored.contains(uri))
        }),
{
}

} // verus!
