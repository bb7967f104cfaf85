use buffalusc::capacity::{
    user_record_fits, verification_record_fits, USER_RECORD_CAPACITY, VERIFICATION_RECORD_CAPACITY,
};
use buffalusc::errors::LedgerError;
use buffalusc::records::{User, Verification};
use buffalusc::store::Store;

fn s(x: &str) -> String {
    x.to_string()
}

#[test]
fn fresh_store_is_empty() {
    let store = Store::new();
    assert!(!store.contains_user(0));
    assert!(!store.contains_verification(0));
    assert!(store.load_user(0).is_none());
    assert!(store.load_verification(0).is_none());
}

#[test]
fn persist_creates_and_replaces() {
    let mut store = Store::new();
    let mut u = User::new();
    u.register_session(s("one"));
    assert_eq!(store.persist_user(8, u), Ok(()));
    assert_eq!(store.load_user(8).unwrap().client_session_id, "one");

    let mut u2 = User::new();
    u2.register_session(s("two"));
    assert_eq!(store.persist_user(8, u2), Ok(()));
    assert_eq!(store.load_user(8).unwrap().client_session_id, "two");
}

#[test]
fn persist_rejects_oversized_record() {
    let mut store = Store::new();
    let mut u = User::new();
    u.register_session("z".repeat(600));
    assert_eq!(
        store.persist_user(8, u),
        Err(LedgerError::AllocationCapacityExceeded)
    );
    assert!(!store.contains_user(8));
}

#[test]
fn allocate_verification_stores_fields_verbatim() {
    let mut store = Store::new();
    let v = Verification::new(s("who"), s("which"), -5, s("why"));
    assert_eq!(store.allocate_verification(3, v), Ok(()));
    let got = store.load_verification(3).unwrap();
    assert_eq!(got.verified_by, "who");
    assert_eq!(got.targeted_session_id, "which");
    assert_eq!(got.timestamp, -5);
    assert_eq!(got.status, "why");
}

#[test]
fn record_fits_matches_size_model() {
    // A fresh record: 8 + (4 + 0) + 4 + 1 + 4 + 4 = 25 units.
    let fresh = User::new();
    assert!(user_record_fits(&fresh, USER_RECORD_CAPACITY));
    assert!(user_record_fits(&fresh, 25));
    assert!(!user_record_fits(&fresh, 24));

    // Three one-character strings: 8 + (4 + 1) * 3 + 8 = 31 units.
    let v = Verification::new(s("a"), s("b"), 0, s("c"));
    assert!(verification_record_fits(&v, VERIFICATION_RECORD_CAPACITY));
    assert!(verification_record_fits(&v, 31));
    assert!(!verification_record_fits(&v, 30));
}

#[test]
fn user_clone_is_exact() {
    let mut u = User::new();
    u.register_session(s("sess"));
    u.mark_verified(vec![s("v1")]);
    u.record_witness(s("sess"));
    let c = u.clone();
    assert_eq!(c.client_session_id, u.client_session_id);
    assert_eq!(c.past_session_ids, u.past_session_ids);
    assert_eq!(c.is_verified, u.is_verified);
    assert_eq!(c.verified_by, u.verified_by);
    assert_eq!(c.users_verified, u.users_verified);
}
