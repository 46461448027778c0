use std::collections::HashMap;

use concordance::config::ActorRole;
use concordance::state::state_key;
use concordance::state::EntityState;
use concordance::state::StateRequest;

/// A bucket that lives in memory and serves the requests of the store.
struct Bucket {
    values: HashMap<String, Vec<u8>>,
}

impl Bucket {
    fn new() -> Bucket {
        Bucket { values: HashMap::new() }
    }

    fn serve(&mut self, request: Result<StateRequest, String>) -> Result<Option<Vec<u8>>, String> {
        match request? {
            StateRequest::Fetch { key } => Ok(self.values.get(&key).cloned()),
            StateRequest::Write { key, data } => {
                self.values.insert(key, data);
                Ok(None)
            }
            StateRequest::Purge { key } => {
                self.values.remove(&key);
                Ok(None)
            }
        }
    }
}

#[test]
fn state_keys() {
    assert_eq!(state_key(&ActorRole::Aggregate, "bankaccount", "ACT123"), "agg.bankaccount.ACT123");
    assert_eq!(state_key(&ActorRole::ProcessManager, "bankaccount", "ACT123"), "pm.bankaccount.ACT123");
    assert_eq!(state_key(&ActorRole::Aggregate, "", ""), "agg..");
    assert_eq!(state_key(&ActorRole::Projector, "bankaccount", "ACT123"), "");
    assert_eq!(state_key(&ActorRole::Notifier, "bankaccount", "ACT123"), "");
    assert_eq!(state_key(&ActorRole::Unknown, "bankaccount", "ACT123"), "");
}

#[test]
fn state_round_trip() {
    let mut bucket = Bucket::new();
    let state = EntityState::new_from_context();

    bucket
        .serve(state.write_state(
            &ActorRole::Aggregate,
            "bankaccount",
            "ACT123",
            b"bru do you even state".to_vec(),
        ))
        .unwrap();
    let data = bucket
        .serve(state.fetch_state(&ActorRole::Aggregate, "bankaccount", "ACT123"))
        .unwrap();
    assert_eq!(data, Some(b"bru do you even state".to_vec()));
    assert_eq!(
        bucket.values.keys().collect::<Vec<_>>(),
        vec!["agg.bankaccount.ACT123"]
    );
}

#[test]
fn state_delete_item() {
    let mut bucket = Bucket::new();
    let state = EntityState::new_from_context();
    bucket
        .serve(state.write_state(
            &ActorRole::Aggregate,
            "bankaccount",
            "ACT123",
            b"bru do you even state".to_vec(),
        ))
        .unwrap();
    bucket
        .serve(state.remove_state(&ActorRole::Aggregate, "bankaccount", "ACT123"))
        .unwrap();

    let data = bucket
        .serve(state.fetch_state(&ActorRole::Aggregate, "bankaccount", "ACT123"))
        .unwrap();
    assert!(data.is_none());

    // remove of non-existent doesn't panic
    assert!(bucket
        .serve(state.remove_state(&ActorRole::Aggregate, "bankaccount", "ACT123"))
        .is_ok());
    assert!(bucket.values.is_empty());
}

#[test]
fn query_nonexistent_state() {
    let mut bucket = Bucket::new();
    let state = EntityState::new_from_context();
    let data = bucket
        .serve(state.fetch_state(
            &ActorRole::Aggregate,
            "bankaccount",
            "never_gonna_let_you_down",
        ))
        .unwrap();
    assert!(data.is_none());
}

#[test]
fn states_of_roles_and_entities_do_not_meet() {
    let mut bucket = Bucket::new();
    let state = EntityState::new_from_context();
    bucket.serve(state.write_state(&ActorRole::Aggregate, "bankaccount", "K", b"a".to_vec())).unwrap();
    bucket.serve(state.write_state(&ActorRole::ProcessManager, "bankaccount", "K", b"p".to_vec())).unwrap();
    bucket.serve(state.write_state(&ActorRole::Aggregate, "order", "K", b"o".to_vec())).unwrap();
    assert_eq!(
        bucket.serve(state.fetch_state(&ActorRole::Aggregate, "bankaccount", "K")).unwrap(),
        Some(b"a".to_vec())
    );
    assert_eq!(
        bucket.serve(state.fetch_state(&ActorRole::ProcessManager, "bankaccount", "K")).unwrap(),
        Some(b"p".to_vec())
    );
    bucket.serve(state.remove_state(&ActorRole::ProcessManager, "bankaccount", "K")).unwrap();
    assert_eq!(
        bucket.serve(state.fetch_state(&ActorRole::Aggregate, "order", "K")).unwrap(),
        Some(b"o".to_vec())
    );
    assert_eq!(bucket.values.len(), 2);
}

#[test]
fn requests_of_the_store() {
    let state = EntityState::new_from_context();
    assert_eq!(
        state.write_state(&ActorRole::Aggregate, "bankaccount", "ACT123", b"s".to_vec()),
        Ok(StateRequest::Write { key: "agg.bankaccount.ACT123".to_string(), data: b"s".to_vec() })
    );
    assert_eq!(
        state.fetch_state(&ActorRole::Aggregate, "bankaccount", "ACT123"),
        Ok(StateRequest::Fetch { key: "agg.bankaccount.ACT123".to_string() })
    );
    assert_eq!(
        state.remove_state(&ActorRole::ProcessManager, "bankaccount", "ACT123"),
        Ok(StateRequest::Purge { key: "pm.bankaccount.ACT123".to_string() })
    );
}

#[test]
fn roles_without_state_are_rejected() {
    let state = EntityState::new_from_context();
    for role in [ActorRole::Projector, ActorRole::Notifier, ActorRole::Unknown] {
        let e = "Attempted to get a state key for an unsupported actor role";
        assert_eq!(state.fetch_state(&role, "x", "k").err().unwrap(), e);
        assert_eq!(state.write_state(&role, "x", "k", vec![]).err().unwrap(), e);
        assert_eq!(state.remove_state(&role, "x", "k").err().unwrap(), e);
    }
    let b = state.bucket_settings();
    assert_eq!(b.bucket, "CC_STATE");
    assert_eq!(b.history, 1);
    assert_eq!(b.description, "Concordance state for aggregates and process managers");
}
