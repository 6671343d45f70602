use flux_capacitor::capacitor::Capacitor;
use flux_capacitor::outcome::{ExecutionOutcome, ExecutionStatus};
use flux_capacitor::route::{plan_outcome, WriteMode, WriteOp};
use flux_capacitor::store::MemStore;

fn s(text: &str) -> String {
    text.to_string()
}

fn outcome(executor: &str, status: ExecutionStatus, logs: Vec<&str>) -> ExecutionOutcome {
    ExecutionOutcome {
        executor_id: s(executor),
        status,
        logs: logs.into_iter().map(s).collect(),
    }
}

/// Plan every log of an outcome at a fixed time, unwrap every entry, and
/// apply the writes in order.
fn run(store: &mut MemStore, o: &ExecutionOutcome, now: i64) -> Vec<WriteOp> {
    let mut ops = Vec::new();
    for entry in plan_outcome(o, now) {
        let op = entry.unwrap();
        store.apply(&op);
        ops.push(op);
    }
    ops
}

#[test]
fn insert_scenario_writes_one_document() {
    let cap = Capacitor::new(vec![s("alice.near")]);
    let o = outcome(
        "alice.near",
        ExecutionStatus::SuccessValue,
        vec![r#"{"type":"post","params":{"text":"hi"}}"#],
    );
    assert!(cap.is_valid_receipt(&o));

    let mut store = MemStore::new();
    let ops = run(&mut store, &o, 42);
    assert_eq!(ops.len(), 1);
    assert_eq!(ops[0].namespace, "alice_near");
    assert_eq!(ops[0].collection, "post");
    assert_eq!(ops[0].mode, WriteMode::Insert);
    assert_eq!(ops[0].cap_id, "None");

    assert_eq!(store.len(), 1);
    let doc = store.get(0);
    assert_eq!(doc.namespace, "alice_near");
    assert_eq!(doc.collection, "post");
    assert_eq!(doc.cap_id, "None");
    assert_eq!(doc.params, r#"{"text":"hi"}"#);
    assert_eq!(doc.created_at, Some(42));
}

#[test]
fn filtered_outcome_writes_nothing() {
    let cap = Capacitor::new(vec![s("alice.near")]);
    let o = outcome(
        "bob.near",
        ExecutionStatus::SuccessValue,
        vec![r#"{"type":"post","params":{"text":"hi"}}"#],
    );
    assert!(!cap.is_valid_receipt(&o));
    assert!(cap.handle_outcome(&o).is_none());
}

#[test]
fn repeated_update_keeps_one_document() {
    let cap = Capacitor::new(vec![s("alice.near")]);
    let first = outcome(
        "alice.near",
        ExecutionStatus::SuccessValue,
        vec![r#"{"type":"profile","action":"update","cap_id":"u1","params":{"name":"Bob"}}"#],
    );
    let second = outcome(
        "alice.near",
        ExecutionStatus::SuccessValue,
        vec![r#"{"type":"profile","action":"update","cap_id":"u1","params":{"name":"Alice"}}"#],
    );
    assert!(cap.is_valid_receipt(&first));
    assert!(cap.is_valid_receipt(&second));

    let mut store = MemStore::new();
    run(&mut store, &first, 1);
    run(&mut store, &second, 2);

    assert_eq!(store.len(), 1);
    let doc = store.get(0);
    assert_eq!(doc.namespace, "alice_near");
    assert_eq!(doc.collection, "profile");
    assert_eq!(doc.cap_id, "u1");
    assert_eq!(doc.params, r#"{"name":"Alice"}"#);
}

#[test]
fn failed_outcome_writes_nothing() {
    let cap = Capacitor::new(vec![s("alice.near")]);
    let o = outcome(
        "alice.near",
        ExecutionStatus::Other,
        vec![r#"{"type":"post","params":{"text":"hi"}}"#],
    );
    assert!(!cap.is_valid_receipt(&o));
    assert!(cap.handle_outcome(&o).is_none());
}

#[test]
fn write_action_always_inserts_even_with_same_cap_id() {
    let cap = Capacitor::new(vec![s("alice.near")]);
    let o = outcome(
        "alice.near",
        ExecutionStatus::SuccessValue,
        vec![
            r#"{"type":"post","cap_id":"p1","params":{"text":"one"}}"#,
            r#"{"type":"post","action":"write","cap_id":"p1","params":{"text":"two"}}"#,
        ],
    );
    assert!(cap.is_valid_receipt(&o));

    let mut store = MemStore::new();
    let ops = run(&mut store, &o, 7);
    assert_eq!(ops[0].mode, WriteMode::Insert);
    assert_eq!(ops[1].mode, WriteMode::Insert);

    // Both documents exist: the write mode is append-only by design.
    assert_eq!(store.len(), 2);
    assert_eq!(store.get(0).params, r#"{"text":"one"}"#);
    assert_eq!(store.get(1).params, r#"{"text":"two"}"#);
    assert_eq!(store.get(0).cap_id, "p1");
    assert_eq!(store.get(1).cap_id, "p1");
}

#[test]
fn update_without_match_creates_one_document() {
    let cap = Capacitor::new(vec![s("alice.near")]);
    let o = outcome(
        "alice.near",
        ExecutionStatus::SuccessValue,
        vec![r#"{"type":"profile","action":"update","cap_id":"u9","params":{"name":"New"}}"#],
    );
    assert!(cap.is_valid_receipt(&o));

    let mut store = MemStore::new();
    let ops = run(&mut store, &o, 3);
    assert_eq!(ops[0].mode, WriteMode::Upsert);
    assert_eq!(store.len(), 1);
    let doc = store.get(0);
    assert_eq!(doc.cap_id, "u9");
    assert_eq!(doc.params, r#"{"name":"New"}"#);
    // The update path sets only body fields, so the document it creates
    // carries no creation timestamp.
    assert_eq!(doc.created_at, None);
}

#[test]
fn update_matches_only_within_target_collection() {
    let cap = Capacitor::new(vec![s("alice.near"), s("carol.near")]);
    let other_collection = outcome(
        "alice.near",
        ExecutionStatus::SuccessValue,
        vec![r#"{"type":"post","cap_id":"u1","params":{"text":"hi"}}"#],
    );
    let other_namespace = outcome(
        "carol.near",
        ExecutionStatus::SuccessValue,
        vec![r#"{"type":"profile","action":"update","cap_id":"u1","params":{"name":"Carol"}}"#],
    );
    let update = outcome(
        "alice.near",
        ExecutionStatus::SuccessValue,
        vec![r#"{"type":"profile","action":"update","cap_id":"u1","params":{"name":"Bob"}}"#],
    );

    let mut store = MemStore::new();
    run(&mut store, &other_collection, 1);
    run(&mut store, &other_namespace, 2);
    run(&mut store, &update, 3);

    // The update found no match in alice_near/profile, so it created a
    // document there and left the other two untouched.
    assert_eq!(store.len(), 3);
    assert_eq!(store.get(0).params, r#"{"text":"hi"}"#);
    assert_eq!(store.get(1).params, r#"{"name":"Carol"}"#);
    assert_eq!(store.get(2).namespace, "alice_near");
    assert_eq!(store.get(2).collection, "profile");
    assert_eq!(store.get(2).params, r#"{"name":"Bob"}"#);
}

#[test]
fn handle_outcome_plans_eligible_outcomes() {
    let cap = Capacitor::new(vec![s("alice.near")]);
    let o = outcome(
        "alice.near",
        ExecutionStatus::SuccessValue,
        vec![r#"{"type":"post","params":{"text":"hi"}}"#, "broken"],
    );
    let plan = cap.handle_outcome(&o).unwrap();
    assert_eq!(plan.len(), 2);
    assert!(plan[0].is_ok());
    assert!(plan[1].is_err());
}

#[test]
fn process_outcome_stamps_wall_clock_times() {
    let cap = Capacitor::new(vec![s("alice.near")]);
    let o = outcome(
        "alice.near",
        ExecutionStatus::SuccessValue,
        vec![r#"{"type":"post","params":{"text":"hi"}}"#],
    );
    let plan = cap.process_outcome(&o);
    assert_eq!(plan.len(), 1);
    let op = plan[0].as_ref().unwrap();
    // A wall-clock reading from this run: well after 2020, as milliseconds.
    assert!(op.created_at > 1_577_836_800_000);
}
