use flux_capacitor::capacitor::Capacitor;
use flux_capacitor::outcome::{ExecutionOutcome, ExecutionStatus};

fn s(text: &str) -> String {
    text.to_string()
}

fn outcome(executor: &str, status: ExecutionStatus, logs: Vec<&str>) -> ExecutionOutcome {
    ExecutionOutcome {
        executor_id: s(executor),
        status,
        logs: logs.into_iter().map(s).collect(),
    }
}

#[test]
fn add_account_makes_contains_true() {
    let mut cap = Capacitor::new(vec![]);
    assert!(!cap.contains(&s("alice.near")));
    cap.add_account_id(s("alice.near"), false);
    assert!(cap.contains(&s("alice.near")));
}

#[test]
fn add_account_twice_is_noop() {
    let mut cap = Capacitor::new(vec![]);
    cap.add_account_id(s("alice.near"), false);
    // The identifier is durably stored now, so a second addition reports it
    // as present and changes nothing.
    cap.add_account_id(s("alice.near"), true);
    assert!(cap.contains(&s("alice.near")));
}

#[test]
fn new_seeds_allowlist() {
    let cap = Capacitor::new(vec![s("alice.near"), s("bob.near"), s("alice.near")]);
    assert!(cap.contains(&s("alice.near")));
    assert!(cap.contains(&s("bob.near")));
    assert!(!cap.contains(&s("carol.near")));
}

#[test]
fn load_merges_stored_ids() {
    let mut cap = Capacitor::new(vec![s("seeded.near")]);
    cap.load(vec![s("stored.near"), s("seeded.near")]);
    assert!(cap.contains(&s("seeded.near")));
    assert!(cap.contains(&s("stored.near")));
    assert!(!cap.contains(&s("other.near")));
}

#[test]
fn failure_status_is_ineligible_even_when_allowlisted() {
    let cap = Capacitor::new(vec![s("alice.near")]);
    let o = outcome("alice.near", ExecutionStatus::Other, vec![]);
    assert!(!cap.is_valid_receipt(&o));
}

#[test]
fn success_statuses_follow_allowlist_membership() {
    let cap = Capacitor::new(vec![s("alice.near")]);
    let eligible_value = outcome("alice.near", ExecutionStatus::SuccessValue, vec![]);
    let eligible_receipt = outcome("alice.near", ExecutionStatus::SuccessReceiptId, vec![]);
    let unknown_executor = outcome("bob.near", ExecutionStatus::SuccessValue, vec![]);
    assert!(cap.is_valid_receipt(&eligible_value));
    assert!(cap.is_valid_receipt(&eligible_receipt));
    assert!(!cap.is_valid_receipt(&unknown_executor));
}

#[test]
fn addition_takes_effect_for_later_outcomes() {
    let mut cap = Capacitor::new(vec![]);
    let o = outcome("carol.near", ExecutionStatus::SuccessValue, vec![]);
    assert!(!cap.is_valid_receipt(&o));
    cap.add_account_id(s("carol.near"), false);
    assert!(cap.is_valid_receipt(&o));
}

#[test]
fn membership_is_exact_match_only() {
    let cap = Capacitor::new(vec![s("alice.near")]);
    assert!(!cap.contains(&s("Alice.near")));
    assert!(!cap.contains(&s("alice.near ")));
    assert!(!cap.contains(&s("alice_near")));
}
