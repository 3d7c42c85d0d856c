use vector_engine::actor::MessageStop;
use vector_engine::engine::{Action, Engine, Event};
use vector_engine::ident::IndexId;
use vector_engine::message::{IndexDefinition, Request};

/// Stands for the handle of an index actor.
#[derive(Clone, Debug, PartialEq, Eq)]
struct IndexHandle(u32);

/// Stands for the handle of a monitor actor.
#[derive(Clone, Debug, PartialEq, Eq)]
struct MonitorHandle(u32);

type TestEngine = Engine<IndexHandle, MonitorHandle>;

fn id(name: &str) -> IndexId {
    IndexId::new(name.to_string())
}

fn definition(name: &str, dimensions: usize) -> IndexDefinition {
    IndexDefinition {
        id: id(name),
        col_id: "pk".to_string(),
        col_emb: "vec".to_string(),
        dimensions,
        connectivity: 16,
        expansion_add: 200,
        expansion_search: 50,
    }
}

fn add(name: &str, dimensions: usize) -> Event<IndexHandle, MonitorHandle> {
    Event::Message(Request::add_index(
        id(name),
        "pk".to_string(),
        "vec".to_string(),
        dimensions,
        16,
        200,
        50,
    ))
}

fn del(name: &str) -> Event<IndexHandle, MonitorHandle> {
    Event::Message(Request::DelIndex(id(name)))
}

fn get(name: &str) -> Event<IndexHandle, MonitorHandle> {
    Event::Message(Request::GetIndex(id(name)))
}

fn get_all() -> Event<IndexHandle, MonitorHandle> {
    Event::Message(Request::GetIndexes)
}

/// What an index factory that accepts every definition but one without
/// dimensions reports.
fn index_outcome(definition: &IndexDefinition, handle: u32) -> Event<IndexHandle, MonitorHandle> {
    if definition.dimensions == 0 {
        Event::IndexFailed
    } else {
        Event::IndexBuilt(IndexHandle(handle))
    }
}

/// Runs a creation in which both actors start.
fn create(engine: &mut TestEngine, name: &str, index: u32, monitor: u32) {
    assert_eq!(engine.step(add(name, 128)), Action::BuildIndex(definition(name, 128)));
    assert_eq!(
        engine.step(Event::IndexBuilt(IndexHandle(index))),
        Action::BuildMonitor { definition: definition(name, 128), index: IndexHandle(index) }
    );
    assert_eq!(
        engine.step(Event::MonitorBuilt(MonitorHandle(monitor))),
        Action::Attach { index: IndexHandle(index), monitor: MonitorHandle(monitor) }
    );
    assert_eq!(engine.step(Event::Attached), Action::Receive);
}

/// The identities that the engine lists, sorted by name.
fn listed(engine: &mut TestEngine) -> Vec<String> {
    match engine.step(get_all()) {
        Action::ReplyIndexes(ids) => {
            let mut names: Vec<String> = ids.into_iter().map(|id| id.0).collect();
            names.sort();
            names
        }
        other => panic!("no list of identities: {:?}", other),
    }
}

#[test]
fn new_engine_lists_nothing() {
    let mut engine = TestEngine::new();
    assert_eq!(engine.step(get_all()), Action::ReplyIndexes(vec![]));
    assert_eq!(engine.step(get("t1")), Action::ReplyIndex(None));
}

#[test]
fn added_index_is_listed_and_found() {
    let mut engine = TestEngine::new();
    let request = Request::add_index(
        id("t1"),
        "pk".to_string(),
        "vec".to_string(),
        128,
        16,
        200,
        50,
    );
    let wanted = IndexDefinition {
        id: id("t1"),
        col_id: "pk".to_string(),
        col_emb: "vec".to_string(),
        dimensions: 128,
        connectivity: 16,
        expansion_add: 200,
        expansion_search: 50,
    };
    assert_eq!(engine.step(Event::Message(request)), Action::BuildIndex(wanted));
    let built = index_outcome(&definition("t1", 128), 7);
    assert_eq!(built, Event::IndexBuilt(IndexHandle(7)));
    assert_eq!(
        engine.step(built),
        Action::BuildMonitor { definition: definition("t1", 128), index: IndexHandle(7) }
    );
    assert_eq!(
        engine.step(Event::MonitorBuilt(MonitorHandle(9))),
        Action::Attach { index: IndexHandle(7), monitor: MonitorHandle(9) }
    );
    assert_eq!(engine.step(Event::Attached), Action::Receive);
    assert_eq!(engine.step(get_all()), Action::ReplyIndexes(vec![id("t1")]));
    assert_eq!(engine.step(get("t1")), Action::ReplyIndex(Some(IndexHandle(7))));
}

#[test]
fn index_without_dimensions_is_not_registered() {
    let mut engine = TestEngine::new();
    let wanted = match engine.step(add("t1", 0)) {
        Action::BuildIndex(wanted) => wanted,
        other => panic!("no construction asked for: {:?}", other),
    };
    assert_eq!(wanted, definition("t1", 0));
    let outcome = index_outcome(&wanted, 7);
    assert_eq!(outcome, Event::IndexFailed);
    assert_eq!(engine.step(outcome), Action::Receive);
    assert_eq!(engine.step(get_all()), Action::ReplyIndexes(vec![]));
    assert_eq!(engine.step(get("t1")), Action::ReplyIndex(None));
}

#[test]
fn deleted_index_is_gone() {
    let mut engine = TestEngine::new();
    create(&mut engine, "t1", 7, 9);
    assert_eq!(
        engine.step(del("t1")),
        Action::Retire { id: id("t1"), index: IndexHandle(7), monitor: MonitorHandle(9) }
    );
    assert_eq!(engine.step(get_all()), Action::ReplyIndexes(vec![]));
    assert_eq!(engine.step(get("t1")), Action::ReplyIndex(None));
}

#[test]
fn adding_a_registered_index_changes_nothing() {
    let mut engine = TestEngine::new();
    create(&mut engine, "t1", 7, 9);
    assert_eq!(engine.step(add("t1", 128)), Action::Receive);
    // Not even other parameters make it a new index.
    assert_eq!(engine.step(add("t1", 3)), Action::Receive);
    assert_eq!(listed(&mut engine), vec!["t1".to_string()]);
    assert_eq!(engine.step(get("t1")), Action::ReplyIndex(Some(IndexHandle(7))));
    // The engine is idle: it takes the next message, and no outcome.
    assert_eq!(
        engine.step(Event::IndexBuilt(IndexHandle(8))),
        Action::Refuse(Event::IndexBuilt(IndexHandle(8)))
    );
}

#[test]
fn deleting_an_absent_index_changes_nothing() {
    let mut engine = TestEngine::new();
    assert_eq!(engine.step(del("t1")), Action::Receive);
    create(&mut engine, "t1", 7, 9);
    assert_eq!(engine.step(del("t2")), Action::Receive);
    assert_eq!(listed(&mut engine), vec!["t1".to_string()]);
    assert_eq!(engine.step(get("t1")), Action::ReplyIndex(Some(IndexHandle(7))));
}

#[test]
fn deleting_twice_retires_once() {
    let mut engine = TestEngine::new();
    create(&mut engine, "t1", 7, 9);
    assert_eq!(
        engine.step(del("t1")),
        Action::Retire { id: id("t1"), index: IndexHandle(7), monitor: MonitorHandle(9) }
    );
    assert_eq!(engine.step(del("t1")), Action::Receive);
}

#[test]
fn every_index_keeps_its_own_monitor() {
    let mut engine = TestEngine::new();
    create(&mut engine, "a", 1, 11);
    create(&mut engine, "b", 2, 12);
    create(&mut engine, "c", 3, 13);
    assert_eq!(
        listed(&mut engine),
        vec!["a".to_string(), "b".to_string(), "c".to_string()]
    );
    assert_eq!(
        engine.step(del("b")),
        Action::Retire { id: id("b"), index: IndexHandle(2), monitor: MonitorHandle(12) }
    );
    assert_eq!(listed(&mut engine), vec!["a".to_string(), "c".to_string()]);
    create(&mut engine, "b", 4, 14);
    assert_eq!(
        engine.step(del("a")),
        Action::Retire { id: id("a"), index: IndexHandle(1), monitor: MonitorHandle(11) }
    );
    assert_eq!(
        engine.step(del("b")),
        Action::Retire { id: id("b"), index: IndexHandle(4), monitor: MonitorHandle(14) }
    );
    assert_eq!(
        engine.step(del("c")),
        Action::Retire { id: id("c"), index: IndexHandle(3), monitor: MonitorHandle(13) }
    );
    assert_eq!(listed(&mut engine), Vec::<String>::new());
}

#[test]
fn failed_monitor_rolls_the_index_actor_back() {
    let mut engine = TestEngine::new();
    create(&mut engine, "t0", 1, 2);
    assert_eq!(engine.step(add("t1", 128)), Action::BuildIndex(definition("t1", 128)));
    assert_eq!(
        engine.step(Event::IndexBuilt(IndexHandle(7))),
        Action::BuildMonitor { definition: definition("t1", 128), index: IndexHandle(7) }
    );
    assert_eq!(
        engine.step(Event::MonitorFailed),
        Action::RollBack { index: IndexHandle(7) }
    );
    // Nothing is answered before the index actor has terminated.
    assert_eq!(engine.step(get_all()), Action::Refuse(get_all()));
    assert_eq!(engine.step(get("t1")), Action::Refuse(get("t1")));
    assert_eq!(engine.step(Event::RolledBack), Action::Receive);
    assert_eq!(listed(&mut engine), vec!["t0".to_string()]);
    assert_eq!(engine.step(get("t1")), Action::ReplyIndex(None));
    // The identity is free for another attempt.
    create(&mut engine, "t1", 8, 9);
    assert_eq!(engine.step(get("t1")), Action::ReplyIndex(Some(IndexHandle(8))));
}

#[test]
fn index_is_invisible_until_creation_ends() {
    let mut engine = TestEngine::new();
    assert_eq!(engine.step(add("t1", 128)), Action::BuildIndex(definition("t1", 128)));
    assert_eq!(engine.step(get("t1")), Action::Refuse(get("t1")));
    assert_eq!(
        engine.step(Event::IndexBuilt(IndexHandle(7))),
        Action::BuildMonitor { definition: definition("t1", 128), index: IndexHandle(7) }
    );
    assert_eq!(engine.step(get("t1")), Action::Refuse(get("t1")));
    assert_eq!(engine.step(get_all()), Action::Refuse(get_all()));
    assert_eq!(
        engine.step(Event::MonitorBuilt(MonitorHandle(9))),
        Action::Attach { index: IndexHandle(7), monitor: MonitorHandle(9) }
    );
    assert_eq!(engine.step(get("t1")), Action::Refuse(get("t1")));
    assert_eq!(engine.step(del("t1")), Action::Refuse(del("t1")));
    assert_eq!(engine.step(Event::Attached), Action::Receive);
    assert_eq!(engine.step(get("t1")), Action::ReplyIndex(Some(IndexHandle(7))));
}

#[test]
fn stop_closes_the_mailbox_and_the_rest_is_drained() {
    let mut engine = TestEngine::new();
    create(&mut engine, "t1", 7, 9);
    // Three requests are in the mailbox, then the request to stop, then one
    // that was sent before the mailbox was closed.
    assert_eq!(engine.step(get_all()), Action::ReplyIndexes(vec![id("t1")]));
    assert_eq!(engine.step(get("t1")), Action::ReplyIndex(Some(IndexHandle(7))));
    assert_eq!(engine.step(get("t2")), Action::ReplyIndex(None));
    assert_eq!(engine.step(Event::Message(Request::Stop)), Action::Close);
    assert_eq!(engine.step(get("t1")), Action::ReplyIndex(Some(IndexHandle(7))));
    create(&mut engine, "t2", 1, 2);
    assert_eq!(listed(&mut engine), vec!["t1".to_string(), "t2".to_string()]);
    assert_eq!(engine.step(Event::Exhausted), Action::Exit);
}

#[test]
fn stop_twice_closes_twice() {
    let mut engine = TestEngine::new();
    assert_eq!(engine.step(Event::Message(Request::Stop)), Action::Close);
    assert_eq!(engine.step(Event::Message(Request::Stop)), Action::Close);
    assert_eq!(engine.step(Event::Exhausted), Action::Exit);
}

#[test]
fn exited_engine_refuses_everything() {
    let mut engine = TestEngine::new();
    create(&mut engine, "t1", 7, 9);
    assert_eq!(engine.step(Event::Exhausted), Action::Exit);
    assert_eq!(engine.step(get_all()), Action::Refuse(get_all()));
    assert_eq!(engine.step(get("t1")), Action::Refuse(get("t1")));
    assert_eq!(engine.step(add("t2", 128)), Action::Refuse(add("t2", 128)));
    assert_eq!(engine.step(del("t1")), Action::Refuse(del("t1")));
    assert_eq!(
        engine.step(Event::Message(Request::Stop)),
        Action::Refuse(Event::Message(Request::Stop))
    );
    assert_eq!(engine.step(Event::Exhausted), Action::Refuse(Event::Exhausted));
    assert_eq!(engine.step(Event::Attached), Action::Refuse(Event::Attached));
}

#[test]
fn exhaustion_is_refused_while_a_creation_is_under_way() {
    let mut engine = TestEngine::new();
    assert_eq!(engine.step(add("t1", 128)), Action::BuildIndex(definition("t1", 128)));
    assert_eq!(engine.step(Event::Exhausted), Action::Refuse(Event::Exhausted));
    assert_eq!(engine.step(Event::IndexFailed), Action::Receive);
    assert_eq!(engine.step(Event::Exhausted), Action::Exit);
}

#[test]
fn idle_engine_refuses_outcomes() {
    let mut engine = TestEngine::new();
    assert_eq!(
        engine.step(Event::IndexBuilt(IndexHandle(1))),
        Action::Refuse(Event::IndexBuilt(IndexHandle(1)))
    );
    assert_eq!(engine.step(Event::IndexFailed), Action::Refuse(Event::IndexFailed));
    assert_eq!(
        engine.step(Event::MonitorBuilt(MonitorHandle(1))),
        Action::Refuse(Event::MonitorBuilt(MonitorHandle(1)))
    );
    assert_eq!(engine.step(Event::MonitorFailed), Action::Refuse(Event::MonitorFailed));
    assert_eq!(engine.step(Event::Attached), Action::Refuse(Event::Attached));
    assert_eq!(engine.step(Event::RolledBack), Action::Refuse(Event::RolledBack));
    assert_eq!(engine.step(get_all()), Action::ReplyIndexes(vec![]));
}

#[test]
fn outcomes_of_the_wrong_phase_are_refused() {
    let mut engine = TestEngine::new();
    assert_eq!(engine.step(add("t1", 128)), Action::BuildIndex(definition("t1", 128)));
    assert_eq!(
        engine.step(Event::MonitorBuilt(MonitorHandle(9))),
        Action::Refuse(Event::MonitorBuilt(MonitorHandle(9)))
    );
    assert_eq!(engine.step(Event::Attached), Action::Refuse(Event::Attached));
    assert_eq!(engine.step(Event::RolledBack), Action::Refuse(Event::RolledBack));
    assert_eq!(
        engine.step(Event::IndexBuilt(IndexHandle(7))),
        Action::BuildMonitor { definition: definition("t1", 128), index: IndexHandle(7) }
    );
    assert_eq!(
        engine.step(Event::IndexBuilt(IndexHandle(8))),
        Action::Refuse(Event::IndexBuilt(IndexHandle(8)))
    );
    assert_eq!(engine.step(Event::IndexFailed), Action::Refuse(Event::IndexFailed));
    assert_eq!(
        engine.step(Event::MonitorBuilt(MonitorHandle(9))),
        Action::Attach { index: IndexHandle(7), monitor: MonitorHandle(9) }
    );
    assert_eq!(engine.step(Event::MonitorFailed), Action::Refuse(Event::MonitorFailed));
    assert_eq!(engine.step(Event::Attached), Action::Receive);
    assert_eq!(engine.step(get("t1")), Action::ReplyIndex(Some(IndexHandle(7))));
}

#[test]
fn index_can_be_created_again_after_deletion() {
    let mut engine = TestEngine::new();
    create(&mut engine, "t1", 7, 9);
    assert_eq!(
        engine.step(del("t1")),
        Action::Retire { id: id("t1"), index: IndexHandle(7), monitor: MonitorHandle(9) }
    );
    create(&mut engine, "t1", 8, 10);
    assert_eq!(engine.step(get("t1")), Action::ReplyIndex(Some(IndexHandle(8))));
    assert_eq!(
        engine.step(del("t1")),
        Action::Retire { id: id("t1"), index: IndexHandle(8), monitor: MonitorHandle(10) }
    );
}

#[test]
fn stop_message_is_the_request_to_stop() {
    assert_eq!(Request::message_stop(), Request::Stop);
}

#[test]
fn add_index_request_carries_every_parameter() {
    let request = Request::add_index(
        id("t1"),
        "pk".to_string(),
        "vec".to_string(),
        128,
        16,
        200,
        50,
    );
    match request {
        Request::AddIndex(definition) => {
            assert_eq!(definition.id, id("t1"));
            assert_eq!(definition.col_id, "pk");
            assert_eq!(definition.col_emb, "vec");
            assert_eq!(definition.dimensions, 128);
            assert_eq!(definition.connectivity, 16);
            assert_eq!(definition.expansion_add, 200);
            assert_eq!(definition.expansion_search, 50);
        }
        other => panic!("not a request to add: {:?}", other),
    }
}

#[test]
fn identities_compare_by_name() {
    assert_eq!(id("t1"), id("t1"));
    assert_ne!(id("t1"), id("t2"));
    assert_ne!(id("t1"), id("T1"));
    assert_eq!(id("t1").clone(), id("t1"));
    assert_eq!(id("").0, "");
}
