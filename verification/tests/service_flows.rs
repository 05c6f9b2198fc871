use std::collections::HashMap;

use ignite::embedding::RawEmbedding;
use ignite::error::AppError;
use ignite::model::{EdgeData, Memory, MemoryId, Timestamp};
use ignite::service::{
    add_edge, create_memory, create_memory_as, delete_memory, get_memory, list_edges,
    remove_edge, search_memory, update_memory, Flow, Outcome, StoreCall, StoreReply,
};

/// An in-memory record store that answers calls the way the store model
/// describes.
#[derive(Default)]
struct FakeStore {
    records: Vec<(Memory, Vec<f64>)>,
    edges: HashMap<(String, String), String>,
    calls: usize,
}

fn unit(raw: &RawEmbedding) -> Vec<f64> {
    let values: Vec<f64> = raw.slots.iter().map(|v| *v as f64 / 255.0).collect();
    let norm = values.iter().map(|v| v * v).sum::<f64>().sqrt();
    values.iter().map(|v| if norm > 0.0 { v / norm } else { *v }).collect()
}

impl FakeStore {
    fn position(&self, id: &MemoryId) -> Option<usize> {
        self.records.iter().position(|(m, _)| m.id == *id)
    }

    fn answer(&mut self, call: &StoreCall) -> StoreReply {
        self.calls += 1;
        match call {
            StoreCall::Select(id) => StoreReply::Selected(self.position(id).map(|i| self.records[i].0.clone())),
            StoreCall::Create(m, e) => {
                if self.position(&m.id).is_some() {
                    StoreReply::Failed
                } else {
                    self.records.push((m.clone(), unit(e)));
                    StoreReply::Created
                }
            }
            StoreCall::Update(m, e) => match self.position(&m.id) {
                Some(i) => {
                    self.records[i] = (m.clone(), unit(e));
                    StoreReply::Updated(true)
                }
                None => StoreReply::Updated(false),
            },
            StoreCall::Delete(id) => match self.position(id) {
                Some(i) => {
                    self.records.remove(i);
                    self.edges.retain(|(f, t), _| f != &id.0 && t != &id.0);
                    StoreReply::Deleted(true)
                }
                None => StoreReply::Deleted(false),
            },
            StoreCall::Relate(from, to, data) => {
                self.edges.insert((from.0.clone(), to.0.clone()), data.content.clone());
                StoreReply::Related
            }
            StoreCall::Unrelate(from, to) => {
                self.edges.remove(&(from.0.clone(), to.0.clone()));
                StoreReply::Unrelated
            }
            StoreCall::Targets(id) => {
                let mut ids: Vec<MemoryId> = self
                    .edges
                    .keys()
                    .filter(|(f, _)| f == &id.0)
                    .map(|(_, t)| MemoryId(t.clone()))
                    .collect();
                ids.sort_by(|a, b| a.0.cmp(&b.0));
                StoreReply::Targets(ids)
            }
            StoreCall::Nearest(e, limit) => {
                let query = unit(e);
                let mut scored: Vec<(f64, Memory)> = self
                    .records
                    .iter()
                    .map(|(m, v)| (v.iter().zip(query.iter()).map(|(a, b)| a * b).sum::<f64>(), m.clone()))
                    .collect();
                scored.sort_by(|a, b| b.0.partial_cmp(&a.0).unwrap());
                StoreReply::Matches(scored.into_iter().take(*limit).map(|(_, m)| m).collect())
            }
        }
    }

    fn run(&mut self, mut flow: Flow) -> Result<Outcome, AppError> {
        loop {
            let reply = match &flow {
                Flow::Finished(_) => break,
                Flow::Waiting(call, _) => self.answer(call),
            };
            flow = flow.resume(reply);
        }
        match flow {
            Flow::Finished(result) => result,
            Flow::Waiting(_, _) => unreachable!(),
        }
    }
}

fn edge(content: &str) -> EdgeData {
    EdgeData { content: content.to_string(), extra: Default::default() }
}

fn memory_of(result: Result<Outcome, AppError>) -> Memory {
    match result {
        Ok(Outcome::Memory(m)) => m,
        _ => panic!("expected a memory"),
    }
}

fn targets_of(result: Result<Outcome, AppError>) -> Vec<MemoryId> {
    match result {
        Ok(Outcome::Targets(ids)) => ids,
        _ => panic!("expected targets"),
    }
}

fn memories_of(result: Result<Outcome, AppError>) -> Vec<Memory> {
    match result {
        Ok(Outcome::Memories(found)) => found,
        _ => panic!("expected memories"),
    }
}

fn flow_memory(store: &mut FakeStore) {
    let first = memory_of(store.run(create_memory("rust web memory".to_string())));
    let second = memory_of(store.run(create_memory("surreal graph node".to_string())));

    let loaded = memory_of(store.run(get_memory(first.id.clone())));
    assert_eq!(loaded.content, "rust web memory");

    let updated = memory_of(store.run(update_memory(first.id.clone(), "rust actix memory".to_string())));
    assert_eq!(updated.content, "rust actix memory");

    let search_results = memories_of(store.run(search_memory("actix")));
    assert!(search_results.iter().any(|memory| memory.id == first.id));

    store.run(add_edge(first.id.clone(), second.id.clone(), edge("related"))).expect("edge should be added");
    let edges = targets_of(store.run(list_edges(first.id.clone())));
    assert_eq!(edges, vec![second.id.clone()]);

    store.run(remove_edge(first.id.clone(), second.id.clone())).expect("edge should be removed");
    let edges = targets_of(store.run(list_edges(first.id.clone())));
    assert!(edges.is_empty());

    store.run(delete_memory(second.id.clone())).expect("memory should delete");

    let error = store.run(get_memory(second.id.clone())).expect_err("deleted memory should be missing");
    assert!(matches!(error, AppError::NotFound));
}

#[test]
fn service_memory_flow_works() {
    flow_memory(&mut FakeStore::default());
}

#[test]
fn tests_memory_flow_works() {
    flow_memory(&mut FakeStore::default());
}

fn self_link(store: &mut FakeStore) {
    let memory = memory_of(store.run(create_memory("self edge check".to_string())));
    let error = store
        .run(add_edge(memory.id.clone(), memory.id.clone(), edge("self")))
        .expect_err("self edge should fail");
    assert!(matches!(error, AppError::BadRequest(_)));
}

#[test]
fn service_add_edge_rejects_self_links() {
    self_link(&mut FakeStore::default());
}

#[test]
fn tests_add_edge_rejects_self_links() {
    self_link(&mut FakeStore::default());
}

fn empty_content(store: &mut FakeStore) {
    let error = store.run(create_memory("   ".to_string())).expect_err("blank content");
    assert_eq!(error.status_code(), 400);
    assert_eq!(store.calls, 0);
}

#[test]
fn main_create_memory_rejects_empty_content() {
    empty_content(&mut FakeStore::default());
}

#[test]
fn tests_create_memory_rejects_empty_content() {
    empty_content(&mut FakeStore::default());
}

#[test]
fn main_edge_routes_work() {
    let mut store = FakeStore::default();
    let first = memory_of(store.run(create_memory("first node".to_string())));
    let second = memory_of(store.run(create_memory("second node".to_string())));
    assert!(store.run(add_edge(first.id.clone(), second.id.clone(), edge("parent"))).is_ok());
    assert!(store.run(remove_edge(first.id.clone(), second.id.clone())).is_ok());
    let stored = memory_of(store.run(get_memory(first.id.clone())));
    assert_eq!(stored.id, first.id);
}

#[test]
fn tests_edge_routes_work() {
    let mut store = FakeStore::default();
    let first = memory_of(store.run(create_memory("first node".to_string())));
    let second = memory_of(store.run(create_memory("second node".to_string())));

    let mut extra = serde_json::Map::new();
    extra.insert("weight".to_string(), serde_json::Value::from(2));
    extra.insert("kind".to_string(), serde_json::Value::from("reference"));
    let data = EdgeData { content: "parent".to_string(), extra };
    assert!(store.run(add_edge(first.id.clone(), second.id.clone(), data)).is_ok());

    let edges = targets_of(store.run(list_edges(first.id.clone())));
    assert_eq!(edges, vec![second.id.clone()]);

    assert!(store.run(remove_edge(first.id.clone(), second.id.clone())).is_ok());

    let edges = targets_of(store.run(list_edges(first.id.clone())));
    assert!(edges.is_empty());

    let stored = memory_of(store.run(get_memory(first.id.clone())));
    assert_eq!(stored.id, first.id);
}

#[test]
fn add_edge_rejects_blank_content() {
    let mut store = FakeStore::default();
    let first = memory_of(store.run(create_memory("first node".to_string())));
    let second = memory_of(store.run(create_memory("second node".to_string())));
    let calls = store.calls;
    let error = store.run(add_edge(first.id.clone(), second.id.clone(), edge("   "))).expect_err("blank edge");
    assert_eq!(error.status_code(), 400);
    assert_eq!(store.calls, calls);
}

#[test]
fn create_then_get_gives_the_same_memory() {
    let mut store = FakeStore::default();
    let created = memory_of(store.run(create_memory_as("note".to_string(), MemoryId("memory:a".to_string()), Timestamp { seconds: 10, nanos: 0 })));
    assert_eq!(created.created_at, created.updated_at);
    let loaded = memory_of(store.run(get_memory(MemoryId("memory:a".to_string()))));
    assert_eq!(loaded, created);
}

#[test]
fn update_then_get_keeps_identity() {
    let mut store = FakeStore::default();
    let created = memory_of(store.run(create_memory_as("old".to_string(), MemoryId("memory:a".to_string()), Timestamp { seconds: 10, nanos: 0 })));
    let mut flow = update_memory(created.id.clone(), "new".to_string());
    while let Flow::Waiting(call, _) = &flow {
        let reply = store.answer(call);
        flow = flow.resume_at(reply, Timestamp { seconds: 20, nanos: 1 });
    }
    let updated = match flow {
        Flow::Finished(result) => memory_of(result),
        Flow::Waiting(_, _) => unreachable!(),
    };
    assert_eq!(updated.id, created.id);
    assert_eq!(updated.created_at, created.created_at);
    assert_eq!(updated.updated_at, Timestamp { seconds: 20, nanos: 1 });
    assert_eq!(updated.content, "new");
    assert_eq!(memory_of(store.run(get_memory(created.id.clone()))), updated);
    let missing = store.run(update_memory(MemoryId("memory:none".to_string()), "x".to_string()));
    assert!(matches!(missing, Err(AppError::NotFound)));
}

#[test]
fn deleting_a_memory_takes_its_edges() {
    let mut store = FakeStore::default();
    let a = memory_of(store.run(create_memory("a".to_string())));
    let b = memory_of(store.run(create_memory("b".to_string())));
    store.run(add_edge(a.id.clone(), b.id.clone(), edge("ab"))).unwrap();
    store.run(delete_memory(b.id.clone())).unwrap();
    assert!(targets_of(store.run(list_edges(a.id.clone()))).is_empty());
    assert!(matches!(store.run(delete_memory(b.id.clone())), Err(AppError::NotFound)));
}

#[test]
fn relating_again_replaces_the_edge() {
    let mut store = FakeStore::default();
    let a = memory_of(store.run(create_memory("a".to_string())));
    let b = memory_of(store.run(create_memory("b".to_string())));
    store.run(add_edge(a.id.clone(), b.id.clone(), edge("first"))).unwrap();
    store.run(add_edge(a.id.clone(), b.id.clone(), edge("second"))).unwrap();
    assert_eq!(targets_of(store.run(list_edges(a.id.clone()))), vec![b.id.clone()]);
    assert_eq!(store.edges.get(&(a.id.0.clone(), b.id.0.clone())).map(String::as_str), Some("second"));
}

#[test]
fn edges_to_missing_memories_are_not_found() {
    let mut store = FakeStore::default();
    let a = memory_of(store.run(create_memory("a".to_string())));
    let missing = MemoryId("memory:none".to_string());
    assert!(matches!(store.run(add_edge(a.id.clone(), missing.clone(), edge("x"))), Err(AppError::NotFound)));
    assert!(matches!(store.run(remove_edge(missing.clone(), a.id.clone())), Err(AppError::NotFound)));
    assert!(matches!(store.run(list_edges(missing)), Err(AppError::NotFound)));
}

#[test]
fn no_operation_makes_more_than_three_calls() {
    let mut store = FakeStore::default();
    let a = memory_of(store.run(create_memory("a".to_string())));
    let b = memory_of(store.run(create_memory("b".to_string())));
    let flows = vec![
        get_memory(a.id.clone()),
        update_memory(a.id.clone(), "c".to_string()),
        add_edge(a.id.clone(), b.id.clone(), edge("e")),
        list_edges(a.id.clone()),
        remove_edge(a.id.clone(), b.id.clone()),
        search_memory("a"),
        delete_memory(b.id.clone()),
    ];
    for flow in flows {
        let before = store.calls;
        store.run(flow).unwrap();
        assert!(store.calls - before <= 3);
    }
}

#[test]
fn edges_are_directed() {
    let mut store = FakeStore::default();
    let a = memory_of(store.run(create_memory("a".to_string())));
    let b = memory_of(store.run(create_memory("b".to_string())));
    let c = memory_of(store.run(create_memory("c".to_string())));
    store.run(add_edge(b.id.clone(), c.id.clone(), edge("bc"))).unwrap();
    let before = targets_of(store.run(list_edges(b.id.clone())));
    store.run(add_edge(a.id.clone(), b.id.clone(), edge("ab"))).unwrap();
    assert_eq!(targets_of(store.run(list_edges(b.id.clone()))), before);
    assert_eq!(before, vec![c.id.clone()]);
    assert_eq!(targets_of(store.run(list_edges(a.id.clone()))), vec![b.id.clone()]);
}

#[test]
fn search_gives_as_many_as_the_limit_allows() {
    let mut store = FakeStore::default();
    for i in 0..3 {
        store.run(create_memory(format!("note {i}"))).unwrap();
    }
    assert_eq!(memories_of(store.run(search_memory("note"))).len(), 3);
    for i in 3..8 {
        store.run(create_memory(format!("note {i}"))).unwrap();
    }
    let found = memories_of(store.run(search_memory("note")));
    assert_eq!(found.len(), 5);
    for i in 0..found.len() {
        for j in i + 1..found.len() {
            assert_ne!(found[i].id, found[j].id);
        }
    }
}

#[test]
fn creates_never_overwrite() {
    let mut store = FakeStore::default();
    let at = Timestamp { seconds: 1, nanos: 0 };
    let first = memory_of(store.run(create_memory_as("one".to_string(), MemoryId("memory:x".to_string()), at)));
    let again = store.run(create_memory_as("two".to_string(), MemoryId("memory:x".to_string()), at));
    assert!(matches!(again, Err(AppError::Internal)));
    assert_eq!(memory_of(store.run(get_memory(first.id.clone()))), first);
    let a = memory_of(store.run(create_memory("same".to_string())));
    let b = memory_of(store.run(create_memory("same".to_string())));
    assert_ne!(a.id, b.id);
    assert_eq!(memory_of(store.run(get_memory(a.id.clone()))), a);
    assert_eq!(memory_of(store.run(get_memory(b.id.clone()))), b);
}

#[test]
fn removing_an_added_edge_restores_the_edges() {
    let mut store = FakeStore::default();
    let a = memory_of(store.run(create_memory("a".to_string())));
    let b = memory_of(store.run(create_memory("b".to_string())));
    let c = memory_of(store.run(create_memory("c".to_string())));
    store.run(add_edge(a.id.clone(), c.id.clone(), edge("ac"))).unwrap();
    store.run(add_edge(c.id.clone(), b.id.clone(), edge("cb"))).unwrap();
    let edges = store.edges.clone();
    let records: Vec<Memory> = store.records.iter().map(|(m, _)| m.clone()).collect();
    store.run(add_edge(a.id.clone(), b.id.clone(), edge("ab"))).unwrap();
    store.run(remove_edge(a.id.clone(), b.id.clone())).unwrap();
    assert_eq!(store.edges, edges);
    let after: Vec<Memory> = store.records.iter().map(|(m, _)| m.clone()).collect();
    assert_eq!(after, records);
}

#[test]
fn deleting_takes_edges_in_both_directions() {
    let mut store = FakeStore::default();
    let a = memory_of(store.run(create_memory("a".to_string())));
    let b = memory_of(store.run(create_memory("b".to_string())));
    let c = memory_of(store.run(create_memory("c".to_string())));
    store.run(add_edge(a.id.clone(), b.id.clone(), edge("ab"))).unwrap();
    store.run(add_edge(a.id.clone(), c.id.clone(), edge("ac"))).unwrap();
    store.run(add_edge(b.id.clone(), c.id.clone(), edge("bc"))).unwrap();
    store.run(delete_memory(b.id.clone())).unwrap();
    assert_eq!(targets_of(store.run(list_edges(a.id.clone()))), vec![c.id.clone()]);
    assert!(store.edges.keys().all(|(f, t)| f != &b.id.0 && t != &b.id.0));
    assert_eq!(memory_of(store.run(get_memory(a.id.clone()))), a);
    assert_eq!(memory_of(store.run(get_memory(c.id.clone()))), c);
}
