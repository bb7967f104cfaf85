use vstd::prelude::*;
use crate::capacity::{
    user_encoded_len, verification_encoded_len, verification_record_fits, USER_RECORD_CAPACITY,
    VERIFICATION_RECORD_CAPACITY,
};
use crate::errors::LedgerError;
use crate::records::{
    empty_user, mark_verified_spec, record_witness_spec, register_session_spec, User, UserView,
    Verification, VerificationView,
};
use crate::store::Store;

verus! {

/// Context of an `initialize` request: it touches no record.
#[derive(Clone, Copy, Debug)]
pub struct Initialize {}

/// Context of an `add_user` request: the key of the user record to create
/// or rotate.
#[derive(Clone, Copy, Debug)]
pub struct AddUser {
    pub user: u64,
}

/// Context of a `get_verified` request: the key of the user record whose
/// verified state is asserted.
#[derive(Clone, Copy, Debug)]
pub struct GetVerified {
    pub user: u64,
}

/// Context of an `add_verification` request: a fresh key for the new
/// verification record, and the key of the verifying user's own record.
#[derive(Clone, Copy, Debug)]
pub struct AddVerification {
    pub verification: u64,
    pub user: u64,
}

/// The user record the store holds under `key`, or a fresh one.
pub open spec fn user_or_fresh(users: Map<u64, UserView>, key: u64) -> UserView {
    if users.contains_key(key) {
        users[key]
    } else {
        empty_user()
    }
}

/// A no-op: it always succeeds and changes nothing.
pub fn initialize(_ctx: Initialize) -> (r: Result<(), LedgerError>)
    ensures
        r == Ok::<(), LedgerError>(()),
{
    Ok(())
}

/// Register a session for the user record under `ctx.user`, creating the
/// record on first use: the old session id is archived when non-empty, the
/// new id becomes current, and all verification trust is cleared. Fails only
/// when the rotated record would exceed its fixed capacity, in which case
/// nothing changes.
pub fn add_user(store: &mut Store, ctx: AddUser, client_session_id: String) -> (r: Result<
    (),
    LedgerError,
>)
    requires
        old(store).wf(),
    ensures
        final(store).wf(),
        final(store)@.verifications == old(store)@.verifications,
        ({
            let next = register_session_spec(
                user_or_fresh(old(store)@.users, ctx.user),
                client_session_id@,
            );
            if user_encoded_len(next) <= USER_RECORD_CAPACITY {
                &&& r == Ok::<(), LedgerError>(())
                &&& final(store)@.users == old(store)@.users.insert(ctx.user, next)
            } else {
                &&& r == Err::<(), LedgerError>(LedgerError::AllocationCapacityExceeded)
                &&& final(store)@.users == old(store)@.users
            }
        }),
{
    let mut user = match store.load_user(ctx.user) {
        Some(u) => u.clone(),
        None => User::new(),
    };
    user.register_session(client_session_id);
    store.persist_user(ctx.user, user)
}

/// Mark the user record under `ctx.user` verified, replacing its verifier
/// list wholesale. Fails when the record does not exist, or when the updated
/// record would exceed its fixed capacity; either way nothing changes.
pub fn get_verified(store: &mut Store, ctx: GetVerified, verified_by: Vec<String>) -> (r: Result<
    (),
    LedgerError,
>)
    requires
        old(store).wf(),
    ensures
        final(store).wf(),
        final(store)@.verifications == old(store)@.verifications,
        ({
            let next = mark_verified_spec(old(store)@.users[ctx.user], verified_by.deep_view());
            if !old(store)@.users.contains_key(ctx.user) {
                &&& r == Err::<(), LedgerError>(LedgerError::RecordNotFound)
                &&& final(store)@.users == old(store)@.users
            } else if user_encoded_len(next) <= USER_RECORD_CAPACITY {
                &&& r == Ok::<(), LedgerError>(())
                &&& final(store)@.users == old(store)@.users.insert(ctx.user, next)
            } else {
                &&& r == Err::<(), LedgerError>(LedgerError::AllocationCapacityExceeded)
                &&& final(store)@.users == old(store)@.users
            }
        }),
{
    let mut user = match store.load_user(ctx.user) {
        Some(u) => u.clone(),
        None => {
            return Err(LedgerError::RecordNotFound);
        },
    };
    user.mark_verified(verified_by);
    store.persist_user(ctx.user, user)
}

/// Record one verification event: a new, immutable verification record is
/// created verbatim from the first four fields under the fresh key
/// `ctx.verification`, and `verified_client_session` — the verifying user's
/// own session id — is appended to that user's witness history. The two
/// writes happen together or not at all: when the user record is missing, or
/// either record would exceed its fixed capacity, nothing changes.
pub fn add_verification(
    store: &mut Store,
    ctx: AddVerification,
    verified_by: String,
    targeted_session_id: String,
    timestamp: i64,
    status: String,
    verified_client_session: String,
) -> (r: Result<(), LedgerError>)
    requires
        old(store).wf(),
        !old(store)@.verifications.contains_key(ctx.verification),
    ensures
        final(store).wf(),
        ({
            let event = VerificationView {
                verified_by: verified_by@,
                targeted_session_id: targeted_session_id@,
                timestamp: timestamp,
                status: status@,
            };
            let next = record_witness_spec(
                old(store)@.users[ctx.user],
                verified_client_session@,
            );
            if !old(store)@.users.contains_key(ctx.user) {
                &&& r == Err::<(), LedgerError>(LedgerError::RecordNotFound)
                &&& final(store)@.users == old(store)@.users
                &&& final(store)@.verifications == old(store)@.verifications
            } else if verification_encoded_len(event) <= VERIFICATION_RECORD_CAPACITY
                && user_encoded_len(next) <= USER_RECORD_CAPACITY {
                &&& r == Ok::<(), LedgerError>(())
                &&& final(store)@.users == old(store)@.users.insert(ctx.user, next)
                &&& final(store)@.verifications == old(store)@.verifications.insert(
                    ctx.verification,
                    event,
                )
            } else {
                &&& r == Err::<(), LedgerError>(LedgerError::AllocationCapacityExceeded)
                &&& final(store)@.users == old(store)@.users
                &&& final(store)@.verifications == old(store)@.verifications
            }
        }),
{
    let mut user = match store.load_user(ctx.user) {
        Some(u) => u.clone(),
        None => {
            return Err(LedgerError::RecordNotFound);
        },
    };
    let verification = Verification::new(verified_by, targeted_session_id, timestamp, status);
    if !verification_record_fits(&verification, VERIFICATION_RECORD_CAPACITY) {
        return Err(LedgerError::AllocationCapacityExceeded);
    }
    user.record_witness(verified_client_session);
    match store.persist_user(ctx.user, user) {
        Ok(()) => {},
        Err(e) => {
            return Err(e);
        },
    }
    store.allocate_verification(ctx.verification, verification)
}

} // verus!
