//! The engine as a transition system over plain values.
//!
//! A state holds the two registries and the phase of the processing loop.
//! An event is what the loop learns from outside: the next message of the
//! mailbox, or the outcome of work that the engine asked for. Every event
//! leads to one next state and to one action that the loop has to perform.

use crate::message::{DefinitionView, RequestView};
use vstd::prelude::*;

verus! {

/// Where the processing loop stands.
pub enum PhaseView<I, M> {
    /// Ready for the next message.
    Idle,
    /// The index actor of `definition` is being constructed.
    BuildingIndex { definition: DefinitionView },
    /// The index actor runs; the monitor that feeds it is being constructed.
    BuildingMonitor { definition: DefinitionView, index: I },
    /// Both actors run and are being handed to the supervisor.
    Attaching { id: Seq<char>, index: I, monitor: M },
    /// The monitor could not be constructed; the index actor is being
    /// stopped and awaited.
    RollingBack,
    /// The loop has ended.
    Exited,
}

/// What the processing loop learns from outside.
pub enum EventView<I, M> {
    /// The mailbox delivered a request.
    Message(RequestView),
    /// The mailbox is closed and holds no more messages.
    Exhausted,
    /// The index actor was constructed; this is its handle.
    IndexBuilt(I),
    /// The index actor could not be constructed.
    IndexFailed,
    /// The monitor actor was constructed; this is its handle.
    MonitorBuilt(M),
    /// The monitor actor could not be constructed.
    MonitorFailed,
    /// The supervisor has taken over both actors.
    Attached,
    /// The orphaned index actor has terminated.
    RolledBack,
}

/// What the processing loop has to do next.
pub enum ActionView<I, M> {
    /// Take the next message from the mailbox.
    Receive,
    /// Answer with these identities, then take the next message.
    ReplyIndexes(Seq<Seq<char>>),
    /// Answer with this handle, then take the next message.
    ReplyIndex(Option<I>),
    /// Construct the index actor and report the outcome.
    BuildIndex(DefinitionView),
    /// Construct the monitor that feeds `index` and report the outcome.
    BuildMonitor { definition: DefinitionView, index: I },
    /// Hand both actors to the supervisor and report when that is done.
    Attach { index: I, monitor: M },
    /// Stop the index actor, await its termination and report it.
    RollBack { index: I },
    /// Ask both actors to stop, have the stored metadata of `id` dropped,
    /// then take the next message.
    Retire { id: Seq<char>, index: I, monitor: M },
    /// Close the mailbox to new messages, then take the next message.
    Close,
    /// Leave the loop.
    Exit,
    /// The event does not belong to the current phase; nothing was changed.
    Refuse(EventView<I, M>),
}

/// The state that the processing loop owns.
pub struct EngineView<I, M> {
    /// The index actors that callers can look up.
    pub indexes: Map<Seq<char>, I>,
    /// The monitor that feeds each index actor.
    pub monitors: Map<Seq<char>, M>,
    /// Where the loop stands.
    pub phase: PhaseView<I, M>,
}

impl<I, M> EngineView<I, M> {
    /// The state of an engine that has just started.
    pub open spec fn initial() -> Self {
        EngineView { indexes: Map::empty(), monitors: Map::empty(), phase: PhaseView::Idle }
    }

    /// Every registered index has a monitor and every monitor has an index.
    pub open spec fn paired(self) -> bool {
        self.indexes.dom() == self.monitors.dom()
    }

    /// The identity of the index that is being created, if one is.
    pub open spec fn pending(self) -> Option<Seq<char>> {
        match self.phase {
            PhaseView::BuildingIndex { definition } => Some(definition.id),
            PhaseView::BuildingMonitor { definition, .. } => Some(definition.id),
            PhaseView::Attaching { id, .. } => Some(id),
            _ => None,
        }
    }

    /// An index that is being created is not registered yet, and an engine
    /// that has left its loop holds no actors.
    pub open spec fn coherent(self) -> bool {
        &&& self.pending() matches Some(id) ==> !self.indexes.contains_key(id)
        &&& self.phase is Exited ==> self.indexes.dom().is_empty() && self.monitors.dom().is_empty()
    }

    /// What holds of the state between any two steps of the loop.
    pub open spec fn inv(self) -> bool {
        self.paired() && self.coherent()
    }

    /// Whether `event` belongs to the current phase.
    pub open spec fn accepts(self, event: EventView<I, M>) -> bool {
        match self.phase {
            PhaseView::Idle => event is Message || event is Exhausted,
            PhaseView::BuildingIndex { .. } => event is IndexBuilt || event is IndexFailed,
            PhaseView::BuildingMonitor { .. } => event is MonitorBuilt || event is MonitorFailed,
            PhaseView::Attaching { .. } => event is Attached,
            PhaseView::RollingBack => event is RolledBack,
            PhaseView::Exited => false,
        }
    }

    /// The state after `event`.
    pub open spec fn next(self, event: EventView<I, M>) -> Self {
        match (self.phase, event) {
            (PhaseView::Idle, EventView::Message(RequestView::AddIndex(definition))) => {
                if self.indexes.contains_key(definition.id) {
                    self
                } else {
                    EngineView { phase: PhaseView::BuildingIndex { definition }, ..self }
                }
            },
            (PhaseView::Idle, EventView::Message(RequestView::DelIndex(id))) => EngineView {
                indexes: self.indexes.remove(id),
                monitors: self.monitors.remove(id),
                phase: PhaseView::Idle,
            },
            (PhaseView::Idle, EventView::Exhausted) => EngineView {
                indexes: Map::empty(),
                monitors: Map::empty(),
                phase: PhaseView::Exited,
            },
            (PhaseView::BuildingIndex { definition }, EventView::IndexBuilt(index)) => EngineView {
                phase: PhaseView::BuildingMonitor { definition, index },
                ..self
            },
            (PhaseView::BuildingIndex { .. }, EventView::IndexFailed) => EngineView {
                phase: PhaseView::Idle,
                ..self
            },
            (
                PhaseView::BuildingMonitor { definition, index },
                EventView::MonitorBuilt(monitor),
            ) => EngineView {
                phase: PhaseView::Attaching { id: definition.id, index, monitor },
                ..self
            },
            (PhaseView::BuildingMonitor { .. }, EventView::MonitorFailed) => EngineView {
                phase: PhaseView::RollingBack,
                ..self
            },
            (PhaseView::Attaching { id, index, monitor }, EventView::Attached) => EngineView {
                indexes: self.indexes.insert(id, index),
                monitors: self.monitors.insert(id, monitor),
                phase: PhaseView::Idle,
            },
            (PhaseView::RollingBack, EventView::RolledBack) => EngineView {
                phase: PhaseView::Idle,
                ..self
            },
            _ => self,
        }
    }

    /// The state after all of `events`, taken in order.
    pub open spec fn run(self, events: Seq<EventView<I, M>>) -> Self
        decreases events.len(),
    {
        if events.len() == 0 {
            self
        } else {
            self.run(events.drop_last()).next(events.last())
        }
    }
}

impl<I: Clone, M: Clone> EngineView<I, M> {
    /// Whether `action` is what the loop has to do in answer to `event`.
    ///
    /// The action is fixed by the state and the event but for two freedoms:
    /// the order in which identities are listed, and that a handle which
    /// the engine gives out while it keeps its own is a clone of that one.
    pub open spec fn emits(self, event: EventView<I, M>, action: ActionView<I, M>) -> bool {
        match (self.phase, event) {
            (PhaseView::Idle, EventView::Message(request)) => self.answers(request, action),
            (PhaseView::Idle, EventView::Exhausted) => action is Exit,
            (PhaseView::BuildingIndex { definition }, EventView::IndexBuilt(index)) => {
                &&& action matches ActionView::BuildMonitor { definition: wanted, index: feeds }
                &&& wanted == definition
                &&& cloned(index, feeds)
            },
            (PhaseView::BuildingIndex { .. }, EventView::IndexFailed) => action is Receive,
            (PhaseView::BuildingMonitor { index, .. }, EventView::MonitorBuilt(monitor)) => {
                &&& action matches ActionView::Attach { index: supervised, monitor: watched }
                &&& cloned(index, supervised)
                &&& cloned(monitor, watched)
            },
            (PhaseView::BuildingMonitor { index, .. }, EventView::MonitorFailed) => {
                action == (ActionView::<I, M>::RollBack { index })
            },
            (PhaseView::Attaching { .. }, EventView::Attached) => action is Receive,
            (PhaseView::RollingBack, EventView::RolledBack) => action is Receive,
            _ => action == ActionView::Refuse(event),
        }
    }

    /// Whether `action` is what an idle engine has to do about `request`.
    pub open spec fn answers(self, request: RequestView, action: ActionView<I, M>) -> bool {
        match request {
            RequestView::GetIndexes => {
                &&& action matches ActionView::ReplyIndexes(ids)
                &&& ids.no_duplicates()
                &&& ids.to_set() == self.indexes.dom()
            },
            RequestView::GetIndex(id) => {
                &&& action matches ActionView::ReplyIndex(found)
                &&& match found {
                    Some(handle) => self.indexes.contains_key(id) && cloned(self.indexes[id], handle),
                    None => !self.indexes.contains_key(id),
                }
            },
            RequestView::AddIndex(definition) => {
                if self.indexes.contains_key(definition.id) {
                    action is Receive
                } else {
                    action == ActionView::<I, M>::BuildIndex(definition)
                }
            },
            RequestView::DelIndex(id) => {
                if self.indexes.contains_key(id) {
                    action == (ActionView::Retire {
                        id,
                        index: self.indexes[id],
                        monitor: self.monitors[id],
                    })
                } else {
                    action is Receive
                }
            },
            RequestView::Stop => action is Close,
        }
    }
}

} // verus!
