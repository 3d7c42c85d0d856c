//! The engine: owner of the registries and maker of the loop's decisions.
//!
//! The engine performs no outside work itself. Whoever runs the loop hands
//! it each event and carries out the action that comes back: it answers a
//! caller, constructs or stops an actor, talks to the supervisor.

use crate::ident::{names, IndexId};
use crate::message::{IndexDefinition, Request};
use crate::model::{ActionView, EngineView, EventView, PhaseView};
use crate::registry::Registry;
use vstd::prelude::*;

verus! {

/// What the processing loop learns from outside. `I` is the handle of an
/// index actor, `M` the handle of a monitor actor.
#[derive(Debug, PartialEq, Eq)]
pub enum Event<I, M> {
    /// The mailbox delivered a request.
    Message(Request),
    /// The mailbox is closed and holds no more messages.
    Exhausted,
    /// The index actor was constructed; this is its handle.
    IndexBuilt(I),
    /// The index actor could not be constructed.
    IndexFailed,
    /// The monitor actor was constructed; this is its handle.
    MonitorBuilt(M),
    /// The monitor actor could not be constructed.
    MonitorFailed,
    /// The supervisor has taken over both actors.
    Attached,
    /// The orphaned index actor has terminated.
    RolledBack,
}

impl<I, M> View for Event<I, M> {
    type V = EventView<I, M>;

    open spec fn view(&self) -> EventView<I, M> {
        match self {
            Event::Message(request) => EventView::Message(request@),
            Event::Exhausted => EventView::Exhausted,
            Event::IndexBuilt(index) => EventView::IndexBuilt(*index),
            Event::IndexFailed => EventView::IndexFailed,
            Event::MonitorBuilt(monitor) => EventView::MonitorBuilt(*monitor),
            Event::MonitorFailed => EventView::MonitorFailed,
            Event::Attached => EventView::Attached,
            Event::RolledBack => EventView::RolledBack,
        }
    }
}

/// What the processing loop has to do next.
#[derive(Debug, PartialEq, Eq)]
pub enum Action<I, M> {
    /// Take the next message from the mailbox.
    Receive,
    /// Answer with these identities, then take the next message.
    ReplyIndexes(Vec<IndexId>),
    /// Answer with this handle, then take the next message.
    ReplyIndex(Option<I>),
    /// Construct the index actor and report the outcome.
    BuildIndex(IndexDefinition),
    /// Construct the monitor that feeds `index` and report the outcome.
    BuildMonitor { definition: IndexDefinition, index: I },
    /// Hand both actors to the supervisor and report when that is done.
    Attach { index: I, monitor: M },
    /// Stop the index actor, await its termination and report it.
    RollBack { index: I },
    /// Ask both actors to stop, have the stored metadata of `id` dropped,
    /// then take the next message.
    Retire { id: IndexId, index: I, monitor: M },
    /// Close the mailbox to new messages, then take the next message.
    Close,
    /// Leave the loop.
    Exit,
    /// The event does not belong to the current phase; nothing was changed.
    Refuse(Event<I, M>),
}

impl<I, M> View for Action<I, M> {
    type V = ActionView<I, M>;

    open spec fn view(&self) -> ActionView<I, M> {
        match self {
            Action::Receive => ActionView::Receive,
            Action::ReplyIndexes(ids) => ActionView::ReplyIndexes(names(ids@)),
            Action::ReplyIndex(found) => ActionView::ReplyIndex(*found),
            Action::BuildIndex(definition) => ActionView::BuildIndex(definition@),
            Action::BuildMonitor { definition, index } => ActionView::BuildMonitor {
                definition: definition@,
                index: *index,
            },
            Action::Attach { index, monitor } => ActionView::Attach {
                index: *index,
                monitor: *monitor,
            },
            Action::RollBack { index } => ActionView::RollBack { index: *index },
            Action::Retire { id, index, monitor } => ActionView::Retire {
                id: id@,
                index: *index,
                monitor: *monitor,
            },
            Action::Close => ActionView::Close,
            Action::Exit => ActionView::Exit,
            Action::Refuse(event) => ActionView::Refuse(event@),
        }
    }
}

enum Phase<I, M> {
    Idle,
    BuildingIndex { definition: IndexDefinition },
    BuildingMonitor { definition: IndexDefinition, index: I },
    Attaching { id: IndexId, index: I, monitor: M },
    RollingBack,
    Exited,
}

impl<I, M> View for Phase<I, M> {
    type V = PhaseView<I, M>;

    closed spec fn view(&self) -> PhaseView<I, M> {
        match self {
            Phase::Idle => PhaseView::Idle,
            Phase::BuildingIndex { definition } => PhaseView::BuildingIndex {
                definition: definition@,
            },
            Phase::BuildingMonitor { definition, index } => PhaseView::BuildingMonitor {
                definition: definition@,
                index: *index,
            },
            Phase::Attaching { id, index, monitor } => PhaseView::Attaching {
                id: id@,
                index: *index,
                monitor: *monitor,
            },
            Phase::RollingBack => PhaseView::RollingBack,
            Phase::Exited => PhaseView::Exited,
        }
    }
}

/// The state that the processing loop owns: which indexes exist, the two
/// actors that stand behind each, and how far the request in hand has come.
pub struct Engine<I, M> {
    indexes: Registry<I>,
    monitors: Registry<M>,
    phase: Phase<I, M>,
}

impl<I, M> View for Engine<I, M> {
    type V = EngineView<I, M>;

    closed spec fn view(&self) -> EngineView<I, M> {
        EngineView { indexes: self.indexes@, monitors: self.monitors@, phase: self.phase@ }
    }
}

impl<I, M> Engine<I, M> {
    #[verifier::type_invariant]
    closed spec fn well_formed(&self) -> bool {
        self@.inv()
    }

    /// An engine with no index, ready for its first message.
    pub fn new() -> (engine: Engine<I, M>)
        ensures
            engine@ == EngineView::<I, M>::initial(),
    {
        Engine { indexes: Registry::new(), monitors: Registry::new(), phase: Phase::Idle }
    }
}

impl<I: Clone, M: Clone> Engine<I, M> {
    /// Takes `event` in and says what the loop has to do next.
    ///
    /// An event that does not belong to the current phase is handed back
    /// inside `Action::Refuse` and changes nothing.
    pub fn step(&mut self, event: Event<I, M>) -> (action: Action<I, M>)
        ensures
            final(self)@ == old(self)@.next(event@),
            old(self)@.emits(event@, action@),
            old(self)@.inv(),
            final(self)@.inv(),
    {
        let mut engine = Engine::new();
        core::mem::swap(self, &mut engine);
        let (engine, action) = engine.advance(event);
        *self = engine;
        action
    }

    fn advance(self, event: Event<I, M>) -> (r: (Engine<I, M>, Action<I, M>))
        ensures
            r.0@ == self@.next(event@),
            self@.emits(event@, r.1@),
            self@.inv(),
    {
        proof {
            use_type_invariant(&self);
        }
        let Engine { mut indexes, mut monitors, phase } = self;
        match (phase, event) {
            (Phase::Idle, Event::Message(Request::GetIndexes)) => {
                let ids = indexes.ids();
                (Engine { indexes, monitors, phase: Phase::Idle }, Action::ReplyIndexes(ids))
            },
            (Phase::Idle, Event::Message(Request::GetIndex(id))) => {
                let found = match indexes.get(&id) {
                    Some(handle) => Some(handle.clone()),
                    None => None,
                };
                (Engine { indexes, monitors, phase: Phase::Idle }, Action::ReplyIndex(found))
            },
            (Phase::Idle, Event::Message(Request::AddIndex(definition))) => {
                if indexes.contains(&definition.id) {
                    (Engine { indexes, monitors, phase: Phase::Idle }, Action::Receive)
                } else {
                    let wanted = definition.clone();
                    (
                        Engine { indexes, monitors, phase: Phase::BuildingIndex { definition } },
                        Action::BuildIndex(wanted),
                    )
                }
            },
            (Phase::Idle, Event::Message(Request::DelIndex(id))) => {
                let index = indexes.remove(&id);
                let monitor = monitors.remove(&id);
                assert(indexes@.dom() =~= monitors@.dom());
                // The registries hold the same identities, so either both
                // handles are there or neither is.
                let action = match (index, monitor) {
                    (Some(index), Some(monitor)) => Action::Retire { id, index, monitor },
                    _ => Action::Receive,
                };
                (Engine { indexes, monitors, phase: Phase::Idle }, action)
            },
            (Phase::Idle, Event::Message(Request::Stop)) => {
                (Engine { indexes, monitors, phase: Phase::Idle }, Action::Close)
            },
            (Phase::Idle, Event::Exhausted) => {
                (
                    Engine {
                        indexes: Registry::new(),
                        monitors: Registry::new(),
                        phase: Phase::Exited,
                    },
                    Action::Exit,
                )
            },
            (Phase::BuildingIndex { definition }, Event::IndexBuilt(index)) => {
                let wanted = definition.clone();
                let feeds = index.clone();
                (
                    Engine { indexes, monitors, phase: Phase::BuildingMonitor { definition, index } },
                    Action::BuildMonitor { definition: wanted, index: feeds },
                )
            },
            (Phase::BuildingIndex { .. }, Event::IndexFailed) => {
                (Engine { indexes, monitors, phase: Phase::Idle }, Action::Receive)
            },
            (Phase::BuildingMonitor { definition, index }, Event::MonitorBuilt(monitor)) => {
                let supervised = index.clone();
                let watched = monitor.clone();
                (
                    Engine {
                        indexes,
                        monitors,
                        phase: Phase::Attaching { id: definition.id, index, monitor },
                    },
                    Action::Attach { index: supervised, monitor: watched },
                )
            },
            (Phase::BuildingMonitor { index, .. }, Event::MonitorFailed) => {
                (Engine { indexes, monitors, phase: Phase::RollingBack }, Action::RollBack { index })
            },
            (Phase::Attaching { id, index, monitor }, Event::Attached) => {
                indexes.insert(id.clone(), index);
                monitors.insert(id, monitor);
                assert(indexes@.dom() =~= monitors@.dom());
                (Engine { indexes, monitors, phase: Phase::Idle }, Action::Receive)
            },
            (Phase::RollingBack, Event::RolledBack) => {
                (Engine { indexes, monitors, phase: Phase::Idle }, Action::Receive)
            },
            (phase, event) => {
                (Engine { indexes, monitors, phase }, Action::Refuse(event))
            },
        }
    }
}

} // verus!
