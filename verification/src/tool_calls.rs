//! Tool calls as a model streams them: pieces that are gathered by their index.

use std::collections::HashMap;
use vstd::prelude::*;
use crate::agent::{AgentEvent, AgentEventView};
use crate::llm::LlmError;
use crate::message::{self, ToolCall, ToolCallView};
use crate::text;

verus! {

broadcast use vstd::std_specs::hash::group_hash_axioms;

/// What has come of a tool call so far.
#[derive(Debug)]
pub struct PartialToolCall {
    pub id: Option<String>,
    pub name: Option<String>,
    pub arguments: String,
    pub started: bool,
}

/// The model of a [`PartialToolCall`].
pub struct PartialView {
    pub id: Option<Seq<char>>,
    pub name: Option<Seq<char>>,
    pub arguments: Seq<char>,
    pub started: bool,
}

impl View for PartialToolCall {
    type V = PartialView;

    open spec fn view(&self) -> PartialView {
        PartialView {
            id: text::opt_text(self.id),
            name: text::opt_text(self.name),
            arguments: self.arguments@,
            started: self.started,
        }
    }
}

impl Default for PartialToolCall {
    fn default() -> (partial: Self)
        ensures
            partial@ == nothing_yet(),
    {
        PartialToolCall { id: None, name: None, arguments: String::new(), started: false }
    }
}

/// A tool call of which nothing has come.
pub open spec fn nothing_yet() -> PartialView {
    PartialView { id: None, name: None, arguments: Seq::empty(), started: false }
}

/// The models of the calls gathered by index.
pub open spec fn partial_views(partials: Map<usize, PartialToolCall>) -> Map<usize, PartialView> {
    partials.map_values(|partial: PartialToolCall| partial@)
}

/// A tool call that is ready to be carried out.
#[derive(Debug, PartialEq, Eq)]
pub struct CompletedToolCall {
    pub id: String,
    pub name: String,
    pub arguments: String,
}

impl View for CompletedToolCall {
    type V = ToolCallView;

    open spec fn view(&self) -> ToolCallView {
        ToolCallView {
            id: self.id@,
            name: self.name@,
            arguments: self.arguments@,
        }
    }
}

/// The models of a list of completed calls.
pub open spec fn completed_views(calls: Seq<CompletedToolCall>) -> Seq<
    ToolCallView,
> {
    calls.map_values(|call: CompletedToolCall| call@)
}

impl CompletedToolCall {
    /// The call as it stands in a message.
    pub fn to_tool_call(&self) -> (call: ToolCall)
        ensures
            call@ == self@,
    {
        ToolCall {
            id: self.id.clone(),
            name: self.name.clone(),
            arguments: self.arguments.clone(),
        }
    }
}

/// The calls as they stand in a message.
pub fn to_tool_calls(calls: &Vec<CompletedToolCall>) -> (result: Vec<ToolCall>)
    ensures
        message::tool_call_views(result@) == completed_views(calls@),
{
    let mut result: Vec<ToolCall> = Vec::new();
    for i in 0..calls.len()
        invariant
            result@.len() == i,
            forall|j: int| 0 <= j < i ==> (#[trigger] result@[j])@ == calls@[j]@,
    {
        result.push(calls[i].to_tool_call());
    }
    assert(message::tool_call_views(result@) =~= completed_views(calls@));
    result
}

/// A call after one more delta: an id or a name that comes replaces the one before, the
/// arguments grow at their end, and the call counts as started.
pub open spec fn merged(
    partial: PartialView,
    id: Option<Seq<char>>,
    name: Option<Seq<char>>,
    arguments_delta: Seq<char>,
) -> PartialView {
    PartialView {
        id: if id is Some {
            id
        } else {
            partial.id
        },
        name: if name is Some {
            name
        } else {
            partial.name
        },
        arguments: partial.arguments + arguments_delta,
        started: true,
    }
}

/// What is known of the call at `index`.
pub open spec fn partial_at(partials: Map<usize, PartialView>, index: usize) -> PartialView {
    if partials.contains_key(index) {
        partials[index]
    } else {
        nothing_yet()
    }
}

/// The gathered calls after one more delta.
pub open spec fn after_delta(
    partials: Map<usize, PartialView>,
    index: usize,
    id: Option<Seq<char>>,
    name: Option<Seq<char>>,
    arguments_delta: Seq<char>,
) -> Map<usize, PartialView> {
    partials.insert(index, merged(partial_at(partials, index), id, name, arguments_delta))
}

/// What a delta has to be answered with: nothing where the call was under way before, the news
/// of a call that starts, or the error of a call that starts without its id or name.
pub open spec fn delta_news<P>(
    partials: Map<usize, PartialView>,
    index: usize,
    id: Option<Seq<char>>,
    name: Option<Seq<char>>,
) -> Option<Result<AgentEventView<P>, LlmError>> {
    let before = partial_at(partials, index);
    let after = merged(before, id, name, Seq::empty());
    if before.started {
        None
    } else if after.id is Some && after.name is Some {
        Some(
            Ok(
                AgentEventView::ToolCallStarted {
                    id: after.id->0,
                    name: after.name->0,
                },
            ),
        )
    } else {
        Some(Err(LlmError::MissingOnFirstChunk { index }))
    }
}

/// The model of what a delta is answered with.
pub open spec fn news_view<P>(news: Option<Result<AgentEvent<P>, LlmError>>) -> Option<
    Result<AgentEventView<P>, LlmError>,
> {
    match news {
        Some(Ok(event)) => Some(Ok(event@)),
        Some(Err(error)) => Some(Err(error)),
        None => None,
    }
}

/// Adds a delta to the calls gathered so far, and tells what to send on account of it.
pub fn apply_tool_call_delta<P>(
    partials: &mut HashMap<usize, PartialToolCall>,
    index: usize,
    id: Option<String>,
    name: Option<String>,
    arguments_delta: &str,
) -> (news: Option<Result<AgentEvent<P>, LlmError>>)
    ensures
        partial_views(final(partials)@) == after_delta(
            partial_views(old(partials)@),
            index,
            text::opt_text(id),
            text::opt_text(name),
            arguments_delta@,
        ),
        news_view(news) == delta_news::<P>(
            partial_views(old(partials)@),
            index,
            text::opt_text(id),
            text::opt_text(name),
        ),
{
    let ghost before = partials@;
    let mut partial = match partials.remove(&index) {
        Some(partial) => partial,
        None => PartialToolCall::default(),
    };
    assert(partial@ == partial_at(partial_views(before), index));
    let was_started = partial.started;
    if id.is_some() {
        partial.id = id;
    }
    if name.is_some() {
        partial.name = name;
    }
    partial.arguments.append(arguments_delta);
    partial.started = true;
    let started_id = partial.id.clone();
    let started_name = partial.name.clone();
    partials.insert(index, partial);
    assert(partial_views(partials@) =~= after_delta(
        partial_views(before),
        index,
        text::opt_text(id),
        text::opt_text(name),
        arguments_delta@,
    ));
    if was_started {
        return None;
    }
    match (started_id, started_name) {
        (Some(id), Some(name)) => Some(Ok(AgentEvent::ToolCallStarted { id, name })),
        _ => Some(Err(LlmError::MissingOnFirstChunk { index })),
    }
}

/// Whether a call has its id and its name.
pub open spec fn is_complete(partial: PartialView) -> bool {
    partial.id is Some && partial.name is Some
}

/// The call that a complete partial call stands for.
pub open spec fn completed(partial: PartialView) -> ToolCallView {
    ToolCallView {
        id: partial.id->0,
        name: partial.name->0,
        arguments: partial.arguments,
    }
}

/// Whether the calls stand in the order of their ids.
pub open spec fn sorted_by_id(calls: Seq<ToolCallView>) -> bool {
    forall|i: int, j: int|
        0 <= i < j < calls.len() ==> text::text_le(
            (#[trigger] calls[i]).id,
            (#[trigger] calls[j]).id,
        )
}

/// Whether `calls` are the gathered calls, taken in the order of indices that `order` gives.
pub open spec fn lists_in_order(
    partials: Map<usize, PartialView>,
    order: Seq<usize>,
    calls: Seq<ToolCallView>,
) -> bool {
    &&& order.no_duplicates()
    &&& order.to_set() == partials.dom()
    &&& calls == order.map_values(|index: usize| completed(partials[index]))
}

/// Whether `calls` are the gathered calls, each once, in the order of their ids.
pub open spec fn lists_calls(
    partials: Map<usize, PartialView>,
    calls: Seq<ToolCallView>,
) -> bool {
    &&& sorted_by_id(calls)
    &&& exists|order: Seq<usize>| lists_in_order(partials, order, calls)
}

/// Puts a call behind those whose ids are not greater than its own.
fn insert_by_id(calls: &mut Vec<CompletedToolCall>, call: CompletedToolCall) -> (place: usize)
    requires
        sorted_by_id(completed_views(old(calls)@)),
    ensures
        place <= old(calls)@.len(),
        final(calls)@ == old(calls)@.insert(place as int, call),
        sorted_by_id(completed_views(final(calls)@)),
{
    let ghost before = completed_views(calls@);
    let mut place: usize = 0;
    while place < calls.len() && text::str_le(calls[place].id.as_str(), call.id.as_str())
        invariant
            place <= calls@.len(),
            before == completed_views(calls@),
            forall|i: int| 0 <= i < place ==> text::text_le((#[trigger] before[i]).id, call.id@),
        decreases calls@.len() - place,
    {
        place = place + 1;
    }
    proof {
        assert forall|i: int| place <= i < before.len() implies text::text_le(
            call.id@,
            (#[trigger] before[i]).id,
        ) by {
            text::lemma_text_le_total(before[place as int].id, call.id@);
            if i > place {
                text::lemma_text_le_transitive(call.id@, before[place as int].id, before[i].id);
            }
        }
    }
    let ghost added = call@;
    calls.insert(place, call);
    assert(completed_views(calls@) =~= before.insert(place as int, added));
    place
}

proof fn lemma_insert_new(order: Seq<usize>, place: int, index: usize)
    requires
        0 <= place <= order.len(),
        order.no_duplicates(),
        !order.contains(index),
    ensures
        order.insert(place, index).no_duplicates(),
        forall|k: usize| #[trigger]
            order.insert(place, index).contains(k) <==> order.contains(k) || k == index,
{
    let longer = order.insert(place, index);
    assert forall|k: usize| order.contains(k) || k == index implies #[trigger] longer.contains(
        k,
    ) by {
        if k == index {
            assert(longer[place] == k);
        } else {
            let i = choose|i: int| 0 <= i < order.len() && order[i] == k;
            if i < place {
                assert(longer[i] == k);
            } else {
                assert(longer[i + 1] == k);
            }
        }
    }
    assert forall|k: usize| #[trigger] longer.contains(k) implies order.contains(k) || k
        == index by {
        let i = choose|i: int| 0 <= i < longer.len() && longer[i] == k;
        if i < place {
            assert(order[i] == k);
        } else if i > place {
            assert(order[i - 1] == k);
        }
    }
}

/// Turns the gathered calls into calls that can be carried out, in the order of their ids.
/// Calls with the same id may stand in either order.
pub fn completed_tool_calls(partials: HashMap<usize, PartialToolCall>) -> (result: Result<
    Vec<CompletedToolCall>,
    LlmError,
>)
    ensures
        result is Ok <==> (forall|index: usize|
            partial_views(partials@).contains_key(index) ==> is_complete(
                #[trigger] partial_views(partials@)[index],
            )),
        match result {
            Ok(calls) => lists_calls(partial_views(partials@), completed_views(calls@)),
            Err(error) => exists|index: usize|
                error == (LlmError::MissingIdOrName { index }) && partial_views(
                    partials@,
                ).contains_key(index) && !is_complete(#[trigger] partial_views(partials@)[index]),
        },
{
    let ghost views = partial_views(partials@);
    let mut calls: Vec<CompletedToolCall> = Vec::new();
    let ghost mut order: Seq<usize> = Seq::empty();
    for entry in it: partials.iter()
        invariant
            views == partial_views(partials@),
            calls@.len() == order.len(),
            order.len() == it.index(),
            sorted_by_id(completed_views(calls@)),
            forall|i: int| 0 <= i < order.len() ==> (#[trigger] calls@[i])@ == completed(
                views[order[i]],
            ),
            forall|i: int|
                0 <= i < order.len() ==> views.contains_key(#[trigger] order[i]) && is_complete(
                    views[order[i]],
                ),
            order.no_duplicates(),
            it.seq().no_duplicates(),
            forall|j: int| 0 <= j < it.index() ==> order.contains(*(#[trigger] it.seq()[j]).0),
            forall|k: usize|
                #[trigger] order.contains(k) ==> exists|j: int|
                    0 <= j < it.index() && *(#[trigger] it.seq()[j]).0 == k,
    {
        let (index, partial) = entry;
        assert(views.contains_key(*index) && views[*index] == partial@);
        assert(it.seq()[it.index()] == entry);
        assert(!order.contains(*index)) by {
            if order.contains(*index) {
                let j = choose|j: int| 0 <= j < it.index() && *(#[trigger] it.seq()[j]).0 == *index;
                assert(it.seq()[j] == it.seq()[it.index()]);
            }
        }
        match (partial.id.clone(), partial.name.clone()) {
            (Some(id), Some(name)) => {
                let call = CompletedToolCall { id, name, arguments: partial.arguments.clone() };
                let place = insert_by_id(&mut calls, call);
                proof {
                    lemma_insert_new(order, place as int, *index);
                    order = order.insert(place as int, *index);
                }
            },
            _ => {
                assert(!is_complete(views[*index]));
                return Err(LlmError::MissingIdOrName { index: *index });
            },
        }
    }
    assert(completed_views(calls@) =~= order.map_values(
        |index: usize| completed(views[index]),
    ));
    assert(order.to_set() =~= views.dom());
    assert(lists_in_order(views, order, completed_views(calls@)));
    Ok(calls)
}

/// Whether no two of the gathered calls have the same id.
pub open spec fn ids_distinct(partials: Map<usize, PartialView>) -> bool {
    forall|i: usize, j: usize|
        partials.contains_key(i) && partials.contains_key(j) && i != j ==> (
        #[trigger] partials[i]).id != (#[trigger] partials[j]).id
}

proof fn lemma_same_elements_same_multiset(a: Seq<usize>, b: Seq<usize>)
    requires
        a.no_duplicates(),
        b.no_duplicates(),
        a.to_set() == b.to_set(),
    ensures
        a.to_multiset() == b.to_multiset(),
{
    broadcast use {vstd::multiset::group_multiset_axioms, vstd::seq_lib::group_to_multiset_ensures};

    a.lemma_multiset_has_no_duplicates();
    b.lemma_multiset_has_no_duplicates();
    assert forall|k: usize| a.to_multiset().count(k) == b.to_multiset().count(k) by {
        assert(a.contains(k) == a.to_set().contains(k));
        assert(b.contains(k) == b.to_set().contains(k));
        assert(a.contains(k) <==> a.to_multiset().count(k) > 0);
        assert(b.contains(k) <==> b.to_multiset().count(k) > 0);
        if a.contains(k) {
            assert(a.to_multiset().contains(k));
            assert(b.to_multiset().contains(k));
        }
    }
    assert(a.to_multiset() =~= b.to_multiset());
}

/// Where no two calls have the same id, there is one way only to list the gathered calls:
/// the order in which they are walked has no say.
pub proof fn law_distinct_ids_fix_the_order(
    partials: Map<usize, PartialView>,
    a: Seq<ToolCallView>,
    b: Seq<ToolCallView>,
)
    requires
        forall|index: usize| #[trigger]
            partials.contains_key(index) ==> is_complete(partials[index]),
        ids_distinct(partials),
        lists_calls(partials, a),
        lists_calls(partials, b),
    ensures
        a == b,
{
    let first = choose|order: Seq<usize>| lists_in_order(partials, order, a);
    let second = choose|order: Seq<usize>| lists_in_order(partials, order, b);
    let id = |k: usize| completed(partials[k]).id;
    let leq = |i: usize, j: usize|
        if id(i) == id(j) {
            i <= j
        } else {
            text::text_le(id(i), id(j))
        };
    assert(vstd::relations::total_ordering(leq)) by {
        assert forall|i: usize, j: usize| #[trigger] leq(i, j) && #[trigger] leq(j, i) implies i
            == j by {
            if id(i) != id(j) {
                text::lemma_text_le_antisymmetric(id(i), id(j));
            }
        }
        assert forall|i: usize, j: usize, k: usize| #[trigger]
            leq(i, j) && #[trigger] leq(j, k) implies leq(i, k) by {
            if id(i) != id(j) && id(j) != id(k) {
                text::lemma_text_le_transitive(id(i), id(j), id(k));
                if id(i) == id(k) {
                    text::lemma_text_le_antisymmetric(id(i), id(j));
                }
            }
        }
        assert forall|i: usize, j: usize| #[trigger] leq(i, j) || #[trigger] leq(j, i) by {
            text::lemma_text_le_total(id(i), id(j));
        }
    }
    lemma_order_sorted(partials, first, a, leq);
    lemma_order_sorted(partials, second, b, leq);
    lemma_same_elements_same_multiset(first, second);
    vstd::seq_lib::lemma_sorted_unique(first, second, leq);
}

proof fn lemma_order_sorted(
    partials: Map<usize, PartialView>,
    order: Seq<usize>,
    calls: Seq<ToolCallView>,
    leq: spec_fn(usize, usize) -> bool,
)
    requires
        forall|index: usize| #[trigger]
            partials.contains_key(index) ==> is_complete(partials[index]),
        ids_distinct(partials),
        sorted_by_id(calls),
        lists_in_order(partials, order, calls),
        forall|i: usize, j: usize| #[trigger]
            leq(i, j) == if completed(partials[i]).id == completed(partials[j]).id {
                i <= j
            } else {
                text::text_le(completed(partials[i]).id, completed(partials[j]).id)
            },
    ensures
        vstd::relations::sorted_by(order, leq),
{
    assert forall|i: int, j: int| 0 <= i < j < order.len() implies #[trigger] leq(
        order[i],
        order[j],
    ) by {
        assert(order.to_set().contains(order[i]) && order.to_set().contains(order[j]));
        assert(partials.contains_key(order[i]) && partials.contains_key(order[j]));
        assert(partials[order[i]].id != partials[order[j]].id);
        assert(calls[i] == completed(partials[order[i]]));
        assert(calls[j] == completed(partials[order[j]]));
    }
}

/// A call can be carried out exactly if its id and its name have come, and then under these and
/// with all the arguments that have come.
pub proof fn law_complete_call_is_what_was_gathered(partial: PartialView)
    ensures
        is_complete(partial) <==> partial.id is Some && partial.name is Some,
        is_complete(partial) ==> {
            &&& Some(completed(partial).id) == partial.id
            &&& Some(completed(partial).name) == partial.name
            &&& completed(partial).arguments == partial.arguments
        },
{
}

/// A piece is news exactly if its call was not under way. Then its call starts under the id and
/// the name that the piece brings, or that had come before, and it is an error if one of them
/// has not come by then.
pub proof fn law_piece_is_news_once<P>(
    partials: Map<usize, PartialView>,
    index: usize,
    id: Option<Seq<char>>,
    name: Option<Seq<char>>,
)
    ensures
        ({
            let known = partials.contains_key(index);
            let known_id = if id is Some {
                id
            } else if known {
                partials[index].id
            } else {
                None
            };
            let known_name = if name is Some {
                name
            } else if known {
                partials[index].name
            } else {
                None
            };
            let news = delta_news::<P>(partials, index, id, name);
            &&& news is None <==> known && partials[index].started
            &&& news is Some ==> match (known_id, known_name) {
                (Some(id), Some(name)) => news->Some_0 is Ok && news->Some_0->Ok_0
                    == (AgentEventView::<P>::ToolCallStarted { id, name }),
                _ => news->Some_0 is Err && news->Some_0->Err_0
                    == (LlmError::MissingOnFirstChunk { index }),
            }
        }),
{
}

/// After a piece, the call of its index has grown by the piece, and every other call is as it
/// was.
pub proof fn law_piece_changes_its_call_only(
    partials: Map<usize, PartialView>,
    index: usize,
    id: Option<Seq<char>>,
    name: Option<Seq<char>>,
    delta: Seq<char>,
    other: usize,
)
    ensures
        ({
            let after = after_delta(partials, index, id, name, delta);
            let known = partials.contains_key(index);
            &&& after.contains_key(index)
            &&& after[index].started
            &&& id is Some ==> after[index].id == id
            &&& name is Some ==> after[index].name == name
            &&& known && id is None ==> after[index].id == partials[index].id
            &&& known && name is None ==> after[index].name == partials[index].name
            &&& !known && id is None ==> after[index].id is None
            &&& !known && name is None ==> after[index].name is None
            &&& known ==> after[index].arguments == partials[index].arguments + delta
            &&& !known ==> after[index].arguments == delta
            &&& other != index ==> (after.contains_key(other) <==> partials.contains_key(other))
            &&& other != index && partials.contains_key(other) ==> after[other]
                == partials[other]
        }),
{
    assert(Seq::<char>::empty() + delta =~= delta);
}

} // verus!
