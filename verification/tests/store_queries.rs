use habbo_verifier::store::Store;

fn s(text: &str) -> String {
    text.to_owned()
}

#[test]
fn fresh_store_is_empty() {
    let store = Store::new();
    assert_eq!(store.len(), 0);
    assert!(!store.is_verified(&s("1")));
}

#[test]
fn pending_record_is_not_verified() {
    let mut store = Store::new();
    store.insert_pending(&s("1"), &s("Alice"));
    assert_eq!(store.len(), 1);
    assert!(!store.is_verified(&s("1")));
    assert!(store.find_verified(&s("1")).is_none());
    let rec = store.get(0);
    assert_eq!(rec.id, "1");
    assert_eq!(rec.habbo, "Alice");
    assert!(!rec.verified);
}

#[test]
fn mark_verified_flips_the_matching_claim() {
    let mut store = Store::new();
    store.insert_pending(&s("1"), &s("Alice"));
    store.insert_pending(&s("2"), &s("Bob"));
    assert!(store.mark_verified(&s("1"), &s("Alice")));
    assert!(store.is_verified(&s("1")));
    assert!(!store.is_verified(&s("2")));
    let found = store.find_verified(&s("1")).expect("record");
    assert_eq!(found.habbo, "Alice");
}

#[test]
fn mark_verified_needs_both_id_and_name() {
    let mut store = Store::new();
    store.insert_pending(&s("1"), &s("Alice"));
    assert!(!store.mark_verified(&s("1"), &s("Bob")));
    assert!(!store.mark_verified(&s("2"), &s("Alice")));
    assert!(!store.is_verified(&s("1")));
}

#[test]
fn other_claimants_skips_the_winner() {
    let mut store = Store::new();
    store.insert_pending(&s("1"), &s("Alice"));
    store.insert_pending(&s("2"), &s("Alice"));
    store.insert_pending(&s("3"), &s("Bob"));
    store.insert_pending(&s("4"), &s("Alice"));
    let others = store.other_claimants(&s("Alice"), &s("2"));
    assert_eq!(others, vec![s("1"), s("4")]);
}

#[test]
fn delete_claimants_evicts_competing_claims_only() {
    let mut store = Store::new();
    store.insert_pending(&s("1"), &s("Alice"));
    store.insert_pending(&s("2"), &s("Alice"));
    store.insert_pending(&s("3"), &s("Bob"));
    store.delete_claimants(&s("Alice"), &s("2"));
    assert_eq!(store.len(), 2);
    assert_eq!(store.get(0).id, "2");
    assert_eq!(store.get(1).id, "3");
}

#[test]
fn delete_user_removes_every_record_of_the_caller() {
    let mut store = Store::new();
    store.insert_pending(&s("1"), &s("Alice"));
    store.insert_pending(&s("1"), &s("Bob"));
    store.insert_pending(&s("2"), &s("Carol"));
    store.mark_verified(&s("1"), &s("Alice"));
    store.delete_user(&s("1"));
    assert_eq!(store.len(), 1);
    assert_eq!(store.get(0).id, "2");
}

#[test]
fn two_pending_claims_to_one_name_may_coexist() {
    let mut store = Store::new();
    store.insert_pending(&s("1"), &s("Alice"));
    store.insert_pending(&s("2"), &s("Alice"));
    assert_eq!(store.len(), 2);
    assert!(!store.is_verified(&s("1")));
    assert!(!store.is_verified(&s("2")));
}
