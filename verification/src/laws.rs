//! What holds of every run of the engine.

use crate::message::{DefinitionView, RequestView};
use crate::model::{ActionView, EngineView, EventView, PhaseView};
use vstd::prelude::*;

verus! {

/// The four events of an index creation in which both actors start.
pub open spec fn creation<I, M>(definition: DefinitionView, index: I, monitor: M) -> Seq<
    EventView<I, M>,
> {
    seq![
        EventView::Message(RequestView::AddIndex(definition)),
        EventView::IndexBuilt(index),
        EventView::MonitorBuilt(monitor),
        EventView::Attached,
    ]
}

/// The four events of an index creation in which the index actor starts and
/// its monitor does not.
pub open spec fn failed_creation<I, M>(definition: DefinitionView, index: I) -> Seq<
    EventView<I, M>,
> {
    seq![
        EventView::Message(RequestView::AddIndex(definition)),
        EventView::IndexBuilt(index),
        EventView::MonitorFailed,
        EventView::RolledBack,
    ]
}

/// Running over `events` and then over one more event is running over all
/// of them.
pub proof fn lemma_run_push<I, M>(
    state: EngineView<I, M>,
    events: Seq<EventView<I, M>>,
    event: EventView<I, M>,
)
    ensures
        state.run(events.push(event)) == state.run(events).next(event),
{
    assert(events.push(event).drop_last() =~= events);
}

/// A run over four events is four steps.
proof fn lemma_run_four<I, M>(
    state: EngineView<I, M>,
    a: EventView<I, M>,
    b: EventView<I, M>,
    c: EventView<I, M>,
    d: EventView<I, M>,
)
    ensures
        state.run(seq![a, b, c, d]) == state.next(a).next(b).next(c).next(d),
{
    let none = Seq::<EventView<I, M>>::empty();
    assert(state.run(none) == state);
    lemma_run_push(state, none, a);
    lemma_run_push(state, none.push(a), b);
    lemma_run_push(state, none.push(a).push(b), c);
    lemma_run_push(state, none.push(a).push(b).push(c), d);
    assert(seq![a, b, c, d] =~= none.push(a).push(b).push(c).push(d));
}

/// An event that does not belong to the current phase is refused and
/// changes nothing; an event that belongs to it is never refused.
pub proof fn lemma_refused_exactly_out_of_turn<I: Clone, M: Clone>(
    state: EngineView<I, M>,
    event: EventView<I, M>,
    action: ActionView<I, M>,
)
    requires
        state.emits(event, action),
    ensures
        state.accepts(event) <==> !(action is Refuse),
        !state.accepts(event) ==> state.next(event) == state && action == ActionView::Refuse(
            event,
        ),
{
}

/// Creating an index whose identity is registered leaves the state as it is
/// and asks for no actor to be constructed.
pub proof fn lemma_add_registered_changes_nothing<I: Clone, M: Clone>(
    state: EngineView<I, M>,
    definition: DefinitionView,
    action: ActionView<I, M>,
)
    requires
        state.phase is Idle,
        state.indexes.contains_key(definition.id),
        state.emits(EventView::Message(RequestView::AddIndex(definition)), action),
    ensures
        state.next(EventView::Message(RequestView::AddIndex(definition))) == state,
        action == ActionView::<I, M>::Receive,
{
}

/// Once an index has been created, a second request to create an index of
/// the same identity leaves the state as it is, whatever else it asks for.
pub proof fn lemma_add_twice_is_add_once<I: Clone, M: Clone>(
    state: EngineView<I, M>,
    first: DefinitionView,
    index: I,
    monitor: M,
    second: DefinitionView,
    action: ActionView<I, M>,
)
    requires
        state.phase is Idle,
        second.id == first.id,
        state.run(creation(first, index, monitor)).emits(
            EventView::Message(RequestView::AddIndex(second)),
            action,
        ),
    ensures
        state.run(creation(first, index, monitor)).next(
            EventView::Message(RequestView::AddIndex(second)),
        ) == state.run(creation(first, index, monitor)),
        action == ActionView::<I, M>::Receive,
{
    lemma_run_four(
        state,
        EventView::Message(RequestView::AddIndex(first)),
        EventView::IndexBuilt(index),
        EventView::MonitorBuilt(monitor),
        EventView::Attached,
    );
}

/// Deleting an index that is not registered leaves the state as it is and
/// asks for nothing: no actor is stopped and no stored metadata is dropped.
pub proof fn lemma_delete_absent_changes_nothing<I: Clone, M: Clone>(
    state: EngineView<I, M>,
    id: Seq<char>,
    action: ActionView<I, M>,
)
    requires
        state.phase is Idle,
        state.paired(),
        !state.indexes.contains_key(id),
        state.emits(EventView::Message(RequestView::DelIndex(id)), action),
    ensures
        state.next(EventView::Message(RequestView::DelIndex(id))) == state,
        action == ActionView::<I, M>::Receive,
{
    assert(state.indexes.remove(id) =~= state.indexes);
    assert(state.monitors.remove(id) =~= state.monitors);
}

/// Deleting a registered index takes it out of both registries at once and
/// hands out exactly the two actors that stood behind it.
pub proof fn lemma_delete_registered_retires_pair<I: Clone, M: Clone>(
    state: EngineView<I, M>,
    id: Seq<char>,
    action: ActionView<I, M>,
)
    requires
        state.phase is Idle,
        state.paired(),
        state.indexes.contains_key(id),
        state.emits(EventView::Message(RequestView::DelIndex(id)), action),
    ensures
        !state.next(EventView::Message(RequestView::DelIndex(id))).indexes.contains_key(id),
        !state.next(EventView::Message(RequestView::DelIndex(id))).monitors.contains_key(id),
        state.next(EventView::Message(RequestView::DelIndex(id))).phase is Idle,
        action == (ActionView::Retire {
            id,
            index: state.indexes[id],
            monitor: state.monitors[id],
        }),
{
}

/// No step breaks what holds between steps: the two registries keep the
/// same identities, and an index under construction stays unregistered.
pub proof fn lemma_step_keeps_invariant<I, M>(state: EngineView<I, M>, event: EventView<I, M>)
    requires
        state.inv(),
    ensures
        state.next(event).inv(),
{
    let after = state.next(event);
    match (state.phase, event) {
        (PhaseView::Idle, EventView::Message(RequestView::DelIndex(id))) => {
            assert(after.indexes.dom() =~= after.monitors.dom());
        },
        (PhaseView::Idle, EventView::Exhausted) => {
            assert(after.indexes.dom() =~= after.monitors.dom());
        },
        (PhaseView::Attaching { .. }, EventView::Attached) => {
            assert(after.indexes.dom() =~= after.monitors.dom());
        },
        _ => {},
    }
}

/// No sequence of events breaks what holds between steps: after it the two
/// registries still hold the same identities.
pub proof fn lemma_run_keeps_invariant<I, M>(
    state: EngineView<I, M>,
    events: Seq<EventView<I, M>>,
)
    requires
        state.inv(),
    ensures
        state.run(events).inv(),
        state.run(events).indexes.dom() == state.run(events).monitors.dom(),
    decreases events.len(),
{
    if events.len() > 0 {
        lemma_run_keeps_invariant(state, events.drop_last());
        lemma_step_keeps_invariant(state.run(events.drop_last()), events.last());
    }
}

/// Whatever has happened to an engine since it started, its two registries
/// hold the same identities.
pub proof fn lemma_paired_since_start<I, M>(events: Seq<EventView<I, M>>)
    ensures
        EngineView::<I, M>::initial().run(events).inv(),
        EngineView::<I, M>::initial().run(events).indexes.dom() == EngineView::<I, M>::initial().run(
            events,
        ).monitors.dom(),
{
    lemma_run_keeps_invariant(EngineView::<I, M>::initial(), events);
}

/// When the index actor starts and its monitor does not, the engine asks
/// for exactly that index actor to be stopped and awaited, takes no message
/// until that is done, and then stands where it stood before the request.
pub proof fn lemma_failed_monitor_rolls_back<I: Clone, M: Clone>(
    state: EngineView<I, M>,
    definition: DefinitionView,
    index: I,
    action: ActionView<I, M>,
    request: RequestView,
)
    requires
        state.phase is Idle,
        !state.indexes.contains_key(definition.id),
        state.next(EventView::Message(RequestView::AddIndex(definition))).next(
            EventView::IndexBuilt(index),
        ).emits(EventView::MonitorFailed, action),
    ensures
        action == (ActionView::<I, M>::RollBack { index }),
        !state.next(EventView::Message(RequestView::AddIndex(definition))).next(
            EventView::IndexBuilt(index),
        ).next(EventView::MonitorFailed).accepts(EventView::Message(request)),
        state.run(failed_creation(definition, index)) == state,
        !state.run(failed_creation(definition, index)).indexes.contains_key(definition.id),
{
    lemma_run_four(
        state,
        EventView::Message(RequestView::AddIndex(definition)),
        EventView::IndexBuilt(index),
        EventView::MonitorFailed,
        EventView::RolledBack,
    );
}

/// When the index actor cannot be constructed, the engine asks for no
/// further work and stands where it stood before the request.
pub proof fn lemma_failed_index_leaves_no_trace<I: Clone, M: Clone>(
    state: EngineView<I, M>,
    definition: DefinitionView,
    action: ActionView<I, M>,
)
    requires
        state.phase is Idle,
        !state.indexes.contains_key(definition.id),
        state.next(EventView::Message(RequestView::AddIndex(definition))).emits(
            EventView::IndexFailed,
            action,
        ),
    ensures
        action == ActionView::<I, M>::Receive,
        state.next(EventView::Message(RequestView::AddIndex(definition))).next(
            EventView::IndexFailed,
        ) == state,
{
}

/// A creation in which both actors start registers exactly the two handles
/// that were reported, under the identity that was asked for, and touches
/// no other entry.
pub proof fn lemma_creation_registers_pair<I, M>(
    state: EngineView<I, M>,
    definition: DefinitionView,
    index: I,
    monitor: M,
)
    requires
        state.phase is Idle,
        !state.indexes.contains_key(definition.id),
    ensures
        state.run(creation(definition, index, monitor)) == (EngineView {
            indexes: state.indexes.insert(definition.id, index),
            monitors: state.monitors.insert(definition.id, monitor),
            phase: PhaseView::Idle,
        }),
{
    lemma_run_four(
        state,
        EventView::Message(RequestView::AddIndex(definition)),
        EventView::IndexBuilt(index),
        EventView::MonitorBuilt(monitor),
        EventView::Attached,
    );
}

/// The engine is handing the two actors of `id` to the supervisor.
pub open spec fn attaching<I, M>(state: EngineView<I, M>, id: Seq<char>) -> bool {
    state.phase matches PhaseView::Attaching { id: pending, .. } && pending == id
}

/// An identity becomes registered by one step only: the one that ends its
/// creation, after both actors have started and the supervisor has taken
/// them over.
pub proof fn lemma_registered_only_when_attached<I, M>(
    state: EngineView<I, M>,
    event: EventView<I, M>,
    id: Seq<char>,
)
    requires
        !state.indexes.contains_key(id),
        state.next(event).indexes.contains_key(id),
    ensures
        event is Attached,
        attaching(state, id),
{
}

/// However an identity that was not registered came to be registered, a
/// creation of that very identity was completed on the way.
pub proof fn lemma_registered_after_attached<I, M>(
    state: EngineView<I, M>,
    events: Seq<EventView<I, M>>,
    id: Seq<char>,
)
    requires
        !state.indexes.contains_key(id),
        state.run(events).indexes.contains_key(id),
    ensures
        exists|n: int|
            0 <= n < events.len() && events[n] is Attached && attaching(
                #[trigger] state.run(events.take(n)),
                id,
            ),
    decreases events.len(),
{
    let earlier = events.drop_last();
    let last = events.len() - 1;
    if state.run(earlier).indexes.contains_key(id) {
        lemma_registered_after_attached(state, earlier, id);
        let n = choose|n: int|
            0 <= n < earlier.len() && earlier[n] is Attached && attaching(
                #[trigger] state.run(earlier.take(n)),
                id,
            );
        assert(events.take(n) =~= earlier.take(n));
        assert(events[n] == earlier[n]);
    } else {
        lemma_registered_only_when_attached(state.run(earlier), events.last(), id);
        assert(events.take(last) =~= earlier);
    }
}

/// A caller is handed a handle only by an idle engine, only for a
/// registered identity, and the handle is a clone of the registered one.
/// While a creation is under way no message is taken at all.
pub proof fn lemma_handle_only_when_registered<I: Clone, M: Clone>(
    state: EngineView<I, M>,
    event: EventView<I, M>,
    handle: I,
)
    requires
        state.emits(event, ActionView::ReplyIndex(Some(handle))),
    ensures
        state.phase is Idle,
        state.pending() is None,
        event matches EventView::Message(RequestView::GetIndex(id)) && state.indexes.contains_key(id)
            && cloned(state.indexes[id], handle),
{
}

/// The request to stop changes nothing in the state: the engine closes its
/// mailbox and goes on to answer every request still in it as before.
pub proof fn lemma_stop_keeps_serving<I: Clone, M: Clone>(
    state: EngineView<I, M>,
    action: ActionView<I, M>,
)
    requires
        state.phase is Idle,
        state.emits(EventView::Message(RequestView::Stop), action),
    ensures
        action == ActionView::<I, M>::Close,
        state.next(EventView::Message(RequestView::Stop)) == state,
{
}

/// The engine leaves its loop by one step only: an idle engine learns that
/// its mailbox is closed and empty. It then drops every actor it held.
pub proof fn lemma_exits_only_when_exhausted<I: Clone, M: Clone>(
    state: EngineView<I, M>,
    event: EventView<I, M>,
    action: ActionView<I, M>,
)
    requires
        !(state.phase is Exited),
        state.emits(event, action),
    ensures
        state.next(event).phase is Exited <==> state.phase is Idle && event is Exhausted,
        action is Exit <==> state.phase is Idle && event is Exhausted,
        state.next(event).phase is Exited ==> state.next(event).indexes.dom().is_empty()
            && state.next(event).monitors.dom().is_empty(),
{
}

/// As long as the mailbox is not reported exhausted, the engine stays in its
/// loop, whatever it is sent and whether or not it was asked to stop.
pub proof fn lemma_stays_until_exhausted<I, M>(
    state: EngineView<I, M>,
    events: Seq<EventView<I, M>>,
)
    requires
        !(state.phase is Exited),
        forall|i: int| 0 <= i < events.len() ==> !(#[trigger] events[i] is Exhausted),
    ensures
        !(state.run(events).phase is Exited),
    decreases events.len(),
{
    if events.len() > 0 {
        lemma_stays_until_exhausted(state, events.drop_last());
    }
}

/// A request to stop that follows other work does not cut that work short:
/// the engine is still in its loop when it takes in each earlier event, the
/// request to stop leaves the state those events led to, and the engine
/// leaves the loop only when it is then told that the mailbox is exhausted.
pub proof fn lemma_stop_drains_mailbox<I, M>(
    state: EngineView<I, M>,
    prior: Seq<EventView<I, M>>,
)
    requires
        !(state.phase is Exited),
        forall|i: int| 0 <= i < prior.len() ==> !(#[trigger] prior[i] is Exhausted),
        state.run(prior).phase is Idle,
    ensures
        forall|n: int| 0 <= n <= prior.len() ==> !(#[trigger] state.run(prior.take(n)).phase is Exited),
        state.run(prior.push(EventView::Message(RequestView::Stop))) == state.run(prior),
        state.run(
            prior.push(EventView::Message(RequestView::Stop)).push(EventView::Exhausted),
        ).phase is Exited,
{
    assert forall|n: int| 0 <= n <= prior.len() implies !(#[trigger] state.run(
        prior.take(n),
    ).phase is Exited) by {
        lemma_stays_until_exhausted(state, prior.take(n));
    }
    lemma_run_push(state, prior, EventView::Message(RequestView::Stop));
    lemma_run_push(
        state,
        prior.push(EventView::Message(RequestView::Stop)),
        EventView::Exhausted,
    );
}

} // verus!
