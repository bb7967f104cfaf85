use vstd::prelude::*;
use vstd::string::StrSliceExecFns;
use crate::records::{User, UserView, Verification, VerificationView};

verus! {

/// Capacity, in encoding units, reserved for one user record when the
/// ledger allocates it. Fixed once; a record never grows past it.
pub const USER_RECORD_CAPACITY: u64 = 520;

/// Capacity, in encoding units, reserved for one verification record.
pub const VERIFICATION_RECORD_CAPACITY: u64 = 264;

/// Units one string field takes in a record's encoded form: a four-unit
/// length word, then one unit per character.
pub open spec fn string_encoded_len(s: Seq<char>) -> int {
    4 + s.len() as int
}

/// Units the elements of a string list take, element by element.
pub open spec fn string_list_encoded_len(ss: Seq<Seq<char>>) -> int
    decreases ss.len(),
{
    if ss.len() == 0 {
        0
    } else {
        string_list_encoded_len(ss.drop_last()) + string_encoded_len(ss.last())
    }
}

/// Units a whole user record takes: an eight-unit record tag, the current
/// session id, then each list behind a four-unit count word, and one unit
/// for the flag.
pub open spec fn user_encoded_len(u: UserView) -> int {
    8 + string_encoded_len(u.client_session_id) + 4 + string_list_encoded_len(u.past_session_ids)
        + 1 + 4 + string_list_encoded_len(u.verified_by) + 4 + string_list_encoded_len(
        u.users_verified,
    )
}

/// Units a whole verification record takes: an eight-unit record tag, three
/// string fields and an eight-unit timestamp.
pub open spec fn verification_encoded_len(v: VerificationView) -> int {
    8 + string_encoded_len(v.verified_by) + string_encoded_len(v.targeted_session_id) + 8
        + string_encoded_len(v.status)
}

/// A string list never has a negative encoded length.
pub proof fn lemma_string_list_encoded_len_nonneg(ss: Seq<Seq<char>>)
    ensures
        string_list_encoded_len(ss) >= 0,
    decreases ss.len(),
{
    if ss.len() > 0 {
        lemma_string_list_encoded_len_nonneg(ss.drop_last());
    }
}

/// A prefix of a string list never takes more units than the whole list.
pub proof fn lemma_string_list_encoded_len_prefix(ss: Seq<Seq<char>>, i: int)
    requires
        0 <= i <= ss.len(),
    ensures
        string_list_encoded_len(ss.take(i)) <= string_list_encoded_len(ss),
    decreases ss.len() - i,
{
    if i < ss.len() {
        assert(ss.take(i + 1).drop_last() =~= ss.take(i));
        assert(ss.take(i + 1).last() == ss[i]);
        lemma_string_list_encoded_len_prefix(ss, i + 1);
    } else {
        assert(ss.take(i) =~= ss);
    }
}

/// The exact units a string list takes, measured against a budget: `None`
/// as soon as the running total exceeds `cap`, otherwise the total.
fn string_list_len_within(ss: &Vec<String>, cap: u64) -> (r: Option<u64>)
    ensures
        match r {
            Some(n) => n == string_list_encoded_len(ss.deep_view()) && n <= cap,
            None => string_list_encoded_len(ss.deep_view()) > cap,
        },
{
    let ghost view: Seq<Seq<char>> = ss.deep_view();
    let mut acc: u64 = 0;
    let mut idx: usize = 0;
    while idx < ss.len()
        invariant
            idx <= ss@.len(),
            view == ss.deep_view(),
            acc == string_list_encoded_len(view.take(idx as int)),
            acc <= cap,
        decreases ss@.len() - idx,
    {
        let chars = ss[idx].as_str().unicode_len();
        proof {
            assert(view[idx as int] == ss@[idx as int]@);
            assert(view.take(idx as int + 1).drop_last() =~= view.take(idx as int));
            assert(view.take(idx as int + 1).last() == view[idx as int]);
        }
        let cost: u128 = 4u128 + chars as u128;
        if cost > (cap - acc) as u128 {
            proof {
                lemma_string_list_encoded_len_prefix(view, idx as int + 1);
            }
            return None;
        }
        acc = acc + cost as u64;
        idx = idx + 1;
    }
    proof {
        assert(view.take(idx as int) =~= view);
    }
    Some(acc)
}

/// Whether a user record's encoded form fits within `cap` units.
pub fn user_record_fits(u: &User, cap: u64) -> (r: bool)
    ensures
        r == (user_encoded_len(u@) <= cap),
{
    let csid_chars = u.client_session_id.as_str().unicode_len();
    let past = match string_list_len_within(&u.past_session_ids, cap) {
        Some(n) => n,
        None => {
            proof {
                lemma_string_list_encoded_len_nonneg(u.verified_by.deep_view());
                lemma_string_list_encoded_len_nonneg(u.users_verified.deep_view());
            }
            return false;
        },
    };
    let verifiers = match string_list_len_within(&u.verified_by, cap) {
        Some(n) => n,
        None => {
            proof {
                lemma_string_list_encoded_len_nonneg(u.past_session_ids.deep_view());
                lemma_string_list_encoded_len_nonneg(u.users_verified.deep_view());
            }
            return false;
        },
    };
    let witnessed = match string_list_len_within(&u.users_verified, cap) {
        Some(n) => n,
        None => {
            proof {
                lemma_string_list_encoded_len_nonneg(u.past_session_ids.deep_view());
                lemma_string_list_encoded_len_nonneg(u.verified_by.deep_view());
            }
            return false;
        },
    };
    let total: u128 = 8 + (4 + csid_chars as u128) + 4 + past as u128 + 1 + 4 + verifiers as u128
        + 4 + witnessed as u128;
    total <= cap as u128
}

/// Whether a verification record's encoded form fits within `cap` units.
pub fn verification_record_fits(v: &Verification, cap: u64) -> (r: bool)
    ensures
        r == (verification_encoded_len(v@) <= cap),
{
    let by_chars = v.verified_by.as_str().unicode_len();
    let target_chars = v.targeted_session_id.as_str().unicode_len();
    let status_chars = v.status.as_str().unicode_len();
    let total: u128 = 8 + (4 + by_chars as u128) + (4 + target_chars as u128) + 8 + (4
        + status_chars as u128);
    total <= cap as u128
}

} // verus!
