use buffalusc::errors::LedgerError;
use buffalusc::ops::{
    add_user, add_verification, get_verified, initialize, AddUser, AddVerification, GetVerified,
    Initialize,
};
use buffalusc::store::Store;

fn s(x: &str) -> String {
    x.to_string()
}

#[test]
fn initialize_always_succeeds() {
    assert_eq!(initialize(Initialize {}), Ok(()));
}

#[test]
fn session_rotation_scenario() {
    let mut store = Store::new();
    let a = AddUser { user: 1 };

    assert_eq!(add_user(&mut store, a, s("s1")), Ok(()));
    {
        let u = store.load_user(1).unwrap();
        assert_eq!(u.client_session_id, "s1");
        assert!(u.past_session_ids.is_empty());
        assert!(!u.is_verified);
    }

    assert_eq!(add_user(&mut store, a, s("s2")), Ok(()));
    {
        let u = store.load_user(1).unwrap();
        assert_eq!(u.client_session_id, "s2");
        assert_eq!(u.past_session_ids, vec![s("s1")]);
        assert!(!u.is_verified);
    }

    assert_eq!(
        get_verified(&mut store, GetVerified { user: 1 }, vec![s("v1"), s("v2")]),
        Ok(())
    );
    {
        let u = store.load_user(1).unwrap();
        assert!(u.is_verified);
        assert_eq!(u.verified_by, vec![s("v1"), s("v2")]);
    }

    assert_eq!(add_user(&mut store, a, s("s3")), Ok(()));
    {
        let u = store.load_user(1).unwrap();
        assert_eq!(u.client_session_id, "s3");
        assert!(!u.is_verified);
        assert!(u.verified_by.is_empty());
        assert_eq!(u.past_session_ids, vec![s("s1"), s("s2")]);
    }
}

#[test]
fn verification_recording_scenario() {
    let mut store = Store::new();
    assert_eq!(add_user(&mut store, AddUser { user: 2 }, s("bsess")), Ok(()));

    let r = add_verification(
        &mut store,
        AddVerification { verification: 10, user: 2 },
        s("B"),
        s("s2"),
        1000,
        s("accepted"),
        s("bsess"),
    );
    assert_eq!(r, Ok(()));

    let v = store.load_verification(10).unwrap();
    assert_eq!(v.verified_by, "B");
    assert_eq!(v.targeted_session_id, "s2");
    assert_eq!(v.timestamp, 1000);
    assert_eq!(v.status, "accepted");

    let u = store.load_user(2).unwrap();
    assert_eq!(u.users_verified, vec![s("bsess")]);
}

#[test]
fn rotation_clears_all_trust() {
    let mut store = Store::new();
    assert_eq!(add_user(&mut store, AddUser { user: 3 }, s("old")), Ok(()));
    assert_eq!(
        get_verified(&mut store, GetVerified { user: 3 }, vec![s("v")]),
        Ok(())
    );
    let r = add_verification(
        &mut store,
        AddVerification { verification: 11, user: 3 },
        s("me"),
        s("target"),
        7,
        s("ok"),
        s("old"),
    );
    assert_eq!(r, Ok(()));
    {
        let u = store.load_user(3).unwrap();
        assert!(u.is_verified);
        assert_eq!(u.verified_by, vec![s("v")]);
        assert_eq!(u.users_verified, vec![s("old")]);
    }

    assert_eq!(add_user(&mut store, AddUser { user: 3 }, s("new")), Ok(()));
    let u = store.load_user(3).unwrap();
    assert!(!u.is_verified);
    assert!(u.verified_by.is_empty());
    assert!(u.users_verified.is_empty());
    assert_eq!(u.past_session_ids, vec![s("old")]);
}

#[test]
fn archive_is_append_only() {
    let mut store = Store::new();
    let ids = ["a", "b", "c", "d", "e"];
    for id in ids {
        assert_eq!(add_user(&mut store, AddUser { user: 4 }, s(id)), Ok(()));
    }
    let u = store.load_user(4).unwrap();
    assert_eq!(u.client_session_id, "e");
    assert_eq!(u.past_session_ids.len(), ids.len() - 1);
    assert_eq!(u.past_session_ids, vec![s("a"), s("b"), s("c"), s("d")]);
}

#[test]
fn first_registration_has_empty_archive() {
    let mut store = Store::new();
    assert_eq!(add_user(&mut store, AddUser { user: 5 }, s("first")), Ok(()));
    let u = store.load_user(5).unwrap();
    assert!(u.past_session_ids.is_empty());
}

#[test]
fn mark_verified_replaces_not_merges() {
    let mut store = Store::new();
    assert_eq!(add_user(&mut store, AddUser { user: 6 }, s("sess")), Ok(()));
    assert_eq!(
        get_verified(&mut store, GetVerified { user: 6 }, vec![s("p"), s("q")]),
        Ok(())
    );
    assert_eq!(
        get_verified(&mut store, GetVerified { user: 6 }, vec![s("r")]),
        Ok(())
    );
    let u = store.load_user(6).unwrap();
    assert!(u.is_verified);
    assert_eq!(u.verified_by, vec![s("r")]);
}

#[test]
fn empty_verifier_list_still_marks_verified() {
    let mut store = Store::new();
    assert_eq!(add_user(&mut store, AddUser { user: 6 }, s("sess")), Ok(()));
    assert_eq!(get_verified(&mut store, GetVerified { user: 6 }, vec![]), Ok(()));
    let u = store.load_user(6).unwrap();
    assert!(u.is_verified);
    assert!(u.verified_by.is_empty());
}

#[test]
fn witness_history_accumulates() {
    let mut store = Store::new();
    assert_eq!(add_user(&mut store, AddUser { user: 7 }, s("mine")), Ok(()));
    for (i, target) in ["t1", "t2", "t3"].into_iter().enumerate() {
        let r = add_verification(
            &mut store,
            AddVerification { verification: 20 + i as u64, user: 7 },
            s("me"),
            s(target),
            i as i64,
            s("ok"),
            s("mine"),
        );
        assert_eq!(r, Ok(()));
        let u = store.load_user(7).unwrap();
        assert_eq!(u.users_verified.len(), i + 1);
    }
    let u = store.load_user(7).unwrap();
    assert_eq!(u.users_verified, vec![s("mine"), s("mine"), s("mine")]);
}

#[test]
fn empty_session_id_is_accepted_and_not_archived() {
    let mut store = Store::new();
    assert_eq!(add_user(&mut store, AddUser { user: 8 }, s("")), Ok(()));
    {
        let u = store.load_user(8).unwrap();
        assert_eq!(u.client_session_id, "");
        assert!(u.past_session_ids.is_empty());
    }
    // The empty current id is not archived by the next rotation.
    assert_eq!(add_user(&mut store, AddUser { user: 8 }, s("x")), Ok(()));
    {
        let u = store.load_user(8).unwrap();
        assert_eq!(u.client_session_id, "x");
        assert!(u.past_session_ids.is_empty());
    }
    // A non-empty current id is archived, even by a rotation to the empty id.
    assert_eq!(add_user(&mut store, AddUser { user: 8 }, s("")), Ok(()));
    let u = store.load_user(8).unwrap();
    assert_eq!(u.client_session_id, "");
    assert_eq!(u.past_session_ids, vec![s("x")]);
}

#[test]
fn duplicate_session_id_is_accepted_and_archived() {
    let mut store = Store::new();
    assert_eq!(add_user(&mut store, AddUser { user: 8 }, s("same")), Ok(()));
    assert_eq!(add_user(&mut store, AddUser { user: 8 }, s("same")), Ok(()));
    let u = store.load_user(8).unwrap();
    assert_eq!(u.client_session_id, "same");
    assert_eq!(u.past_session_ids, vec![s("same")]);
}

#[test]
fn users_are_independent() {
    let mut store = Store::new();
    assert_eq!(add_user(&mut store, AddUser { user: 1 }, s("one")), Ok(()));
    assert_eq!(add_user(&mut store, AddUser { user: 2 }, s("two")), Ok(()));
    assert_eq!(
        get_verified(&mut store, GetVerified { user: 1 }, vec![s("v")]),
        Ok(())
    );
    let u1 = store.load_user(1).unwrap();
    let u2 = store.load_user(2).unwrap();
    assert!(u1.is_verified);
    assert!(!u2.is_verified);
    assert_eq!(u2.client_session_id, "two");
}

#[test]
fn get_verified_missing_record() {
    let mut store = Store::new();
    assert_eq!(
        get_verified(&mut store, GetVerified { user: 9 }, vec![s("v")]),
        Err(LedgerError::RecordNotFound)
    );
}

#[test]
fn add_verification_missing_user_record() {
    let mut store = Store::new();
    let r = add_verification(
        &mut store,
        AddVerification { verification: 30, user: 9 },
        s("me"),
        s("t"),
        0,
        s("ok"),
        s("mine"),
    );
    assert_eq!(r, Err(LedgerError::RecordNotFound));
    assert!(!store.contains_verification(30));
}
