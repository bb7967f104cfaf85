use vstd::prelude::*;
use crate::records::{
    empty_user, mark_verified_spec, record_witness_spec, register_session_spec, UserView,
};

verus! {

/// The record reached by registering each id of `ids` in order, starting
/// from `u`.
pub open spec fn register_all_spec(u: UserView, ids: Seq<Seq<char>>) -> UserView
    decreases ids.len(),
{
    if ids.len() == 0 {
        u
    } else {
        register_session_spec(register_all_spec(u, ids.drop_last()), ids.last())
    }
}

/// The record reached by witnessing each session id of `ids` in order,
/// starting from `u`.
pub open spec fn record_all_witnesses_spec(u: UserView, ids: Seq<Seq<char>>) -> UserView
    decreases ids.len(),
{
    if ids.len() == 0 {
        u
    } else {
        record_witness_spec(record_all_witnesses_spec(u, ids.drop_last()), ids.last())
    }
}

/// Rotating the session of a user who has a current session discards all
/// verification trust — the flag, the verifier list and the witness history
/// — and appends exactly the replaced session id to the archive.
pub proof fn lemma_session_rotation_clears_trust(u: UserView, client_session_id: Seq<char>)
    requires
        client_session_id.len() > 0,
        u.client_session_id.len() > 0,
    ensures
        !register_session_spec(u, client_session_id).is_verified,
        register_session_spec(u, client_session_id).verified_by == Seq::<Seq<char>>::empty(),
        register_session_spec(u, client_session_id).users_verified == Seq::<Seq<char>>::empty(),
        register_session_spec(u, client_session_id).past_session_ids == u.past_session_ids.push(
            u.client_session_id,
        ),
{
}

/// The archive is append-only: after registering any sequence of non-empty
/// session ids on a fresh record, the archive is exactly the list of all
/// ids but the last, in call order, and the last id is current.
pub proof fn lemma_archive_append_only(ids: Seq<Seq<char>>)
    requires
        ids.len() >= 1,
        forall|i: int| 0 <= i < ids.len() ==> (#[trigger] ids[i]).len() > 0,
        forall|i: int, j: int| 0 <= i < j < ids.len() ==> ids[i] !== ids[j],
    ensures
        register_all_spec(empty_user(), ids).client_session_id == ids.last(),
        register_all_spec(empty_user(), ids).past_session_ids =~= ids.drop_last(),
        register_all_spec(empty_user(), ids).past_session_ids.len() == ids.len() - 1,
    decreases ids.len(),
{
    if ids.len() == 1 {
        assert(ids.drop_last().len() == 0);
        assert(register_all_spec(empty_user(), ids.drop_last()) == empty_user());
        assert(register_all_spec(empty_user(), ids) == register_session_spec(
            empty_user(),
            ids.last(),
        ));
        assert(register_all_spec(empty_user(), ids).past_session_ids =~= ids.drop_last());
    } else {
        let prev_ids = ids.drop_last();
        lemma_archive_append_only(prev_ids);
        assert(prev_ids.last() == ids[ids.len() - 2]);
        assert((ids[ids.len() - 2]).len() > 0);
        assert(prev_ids.drop_last().push(prev_ids.last()) =~= prev_ids);
        assert(register_all_spec(empty_user(), ids).past_session_ids =~= ids.drop_last());
    }
}

/// A first registration archives nothing: on a fresh record, the archive
/// stays empty whatever id is registered.
pub proof fn lemma_first_registration_empty_archive(client_session_id: Seq<char>)
    ensures
        register_session_spec(empty_user(), client_session_id).past_session_ids == Seq::<
            Seq<char>,
        >::empty(),
{
}

/// Marking verified replaces, never merges: after two updates with lists
/// `l1` then `l2`, the verifier list is exactly `l2` and the flag is set.
pub proof fn lemma_verification_replaces(u: UserView, l1: Seq<Seq<char>>, l2: Seq<Seq<char>>)
    ensures
        mark_verified_spec(mark_verified_spec(u, l1), l2).verified_by == l2,
        mark_verified_spec(mark_verified_spec(u, l1), l2).is_verified,
{
}

/// Every archived session id is non-empty.
pub open spec fn archive_all_nonempty(u: UserView) -> bool {
    forall|i: int| 0 <= i < u.past_session_ids.len() ==> (#[trigger] u.past_session_ids[i]).len()
        > 0
}

/// The archive never gains an empty id: only a non-empty current session id
/// is ever archived, so each transition preserves the invariant.
pub proof fn lemma_archive_never_holds_empty_id(
    u: UserView,
    client_session_id: Seq<char>,
    verified_by: Seq<Seq<char>>,
    own_session_id: Seq<char>,
)
    requires
        archive_all_nonempty(u),
    ensures
        archive_all_nonempty(register_session_spec(u, client_session_id)),
        archive_all_nonempty(mark_verified_spec(u, verified_by)),
        archive_all_nonempty(record_witness_spec(u, own_session_id)),
{
    let rotated = register_session_spec(u, client_session_id);
    if u.client_session_id.len() > 0 {
        assert forall|i: int| 0 <= i < rotated.past_session_ids.len() implies (
        #[trigger] rotated.past_session_ids[i]).len() > 0 by {
            if i < u.past_session_ids.len() {
                assert(rotated.past_session_ids[i] == u.past_session_ids[i]);
            } else {
                assert(rotated.past_session_ids[i] == u.client_session_id);
            }
        }
    }
}

/// Witnessing accumulates: a sequence of witness recordings appends exactly
/// those session ids, in call order, one per call, and touches no other
/// field — only the user's own session rotation ever clears the history.
pub proof fn lemma_witness_accumulation(u: UserView, ids: Seq<Seq<char>>)
    ensures
        record_all_witnesses_spec(u, ids).users_verified =~= u.users_verified + ids,
        record_all_witnesses_spec(u, ids).users_verified.len() == u.users_verified.len()
            + ids.len(),
        record_all_witnesses_spec(u, ids).client_session_id == u.client_session_id,
        record_all_witnesses_spec(u, ids).past_session_ids == u.past_session_ids,
        record_all_witnesses_spec(u, ids).is_verified == u.is_verified,
        record_all_witnesses_spec(u, ids).verified_by == u.verified_by,
    decreases ids.len(),
{
    if ids.len() > 0 {
        lemma_witness_accumulation(u, ids.drop_last());
        assert(record_all_witnesses_spec(u, ids).users_verified =~= u.users_verified + ids);
    }
}

} // verus!
