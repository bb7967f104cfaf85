use vstd::prelude::*;
use crate::capacity::{
    user_encoded_len, user_record_fits, verification_encoded_len, verification_record_fits,
    USER_RECORD_CAPACITY, VERIFICATION_RECORD_CAPACITY,
};
use crate::errors::LedgerError;
use crate::records::{User, UserView, Verification, VerificationView};

verus! {

/// No key occurs twice among the entries of a record list.
pub open spec fn distinct_keys<V>(s: Seq<(u64, V)>) -> bool {
    forall|i: int, j: int|
        0 <= i < j < s.len() ==> (#[trigger] s[i]).0 != (#[trigger] s[j]).0
}

/// The map a record list denotes: each key to the view of its record.
pub open spec fn map_of<V: View>(s: Seq<(u64, V)>) -> Map<u64, V::V>
    decreases s.len(),
{
    if s.len() == 0 {
        Map::empty()
    } else {
        map_of(s.drop_last()).insert(s.last().0, s.last().1@)
    }
}

/// A key is in the denoted map exactly when some entry carries it.
pub proof fn lemma_map_of_dom<V: View>(s: Seq<(u64, V)>, k: u64)
    ensures
        map_of(s).contains_key(k) <==> exists|i: int|
            0 <= i < s.len() && (#[trigger] s[i]).0 == k,
    decreases s.len(),
{
    if s.len() > 0 {
        let prev = s.drop_last();
        lemma_map_of_dom(prev, k);
        if s.last().0 == k {
            assert((s[s.len() - 1]).0 == k);
        } else {
            if map_of(s).contains_key(k) {
                let i = choose|i: int| 0 <= i < prev.len() && (#[trigger] prev[i]).0 == k;
                assert((s[i]).0 == k);
            }
            if exists|i: int| 0 <= i < s.len() && (#[trigger] s[i]).0 == k {
                let i = choose|i: int| 0 <= i < s.len() && (#[trigger] s[i]).0 == k;
                assert((prev[i]).0 == k);
            }
        }
    }
}

/// With distinct keys, the entry at `i` is what the denoted map holds for
/// its key.
pub proof fn lemma_map_of_index<V: View>(s: Seq<(u64, V)>, i: int)
    requires
        distinct_keys(s),
        0 <= i < s.len(),
    ensures
        map_of(s).contains_key(s[i].0),
        map_of(s)[s[i].0] == s[i].1@,
    decreases s.len(),
{
    if i < s.len() - 1 {
        let prev = s.drop_last();
        assert(prev[i] == s[i]);
        lemma_map_of_index(prev, i);
        assert(s.last().0 != s[i].0);
    }
}

/// With distinct keys, removing the entry at `i` removes exactly its key
/// from the denoted map, and keeps the keys distinct.
pub proof fn lemma_map_of_remove<V: View>(s: Seq<(u64, V)>, i: int)
    requires
        distinct_keys(s),
        0 <= i < s.len(),
    ensures
        distinct_keys(s.remove(i)),
        map_of(s.remove(i)) =~= map_of(s).remove(s[i].0),
    decreases s.len(),
{
    let k = s[i].0;
    let prev = s.drop_last();
    if i == s.len() - 1 {
        assert(s.remove(i) =~= prev);
        lemma_map_of_dom(prev, k);
        assert(forall|j: int| 0 <= j < prev.len() ==> (#[trigger] prev[j]).0 != k);
        assert(map_of(prev) =~= map_of(prev).remove(k));
    } else {
        lemma_map_of_remove(prev, i);
        assert(s.remove(i).drop_last() =~= prev.remove(i));
        assert(s.remove(i).last() == s.last());
    }
}

/// Appending an entry denotes inserting its key; a fresh key keeps the keys
/// distinct.
pub proof fn lemma_map_of_push<V: View>(s: Seq<(u64, V)>, k: u64, v: V)
    ensures
        map_of(s.push((k, v))) == map_of(s).insert(k, v@),
        (distinct_keys(s) && (forall|i: int|
            0 <= i < s.len() ==> (#[trigger] s[i]).0 != k)) ==> distinct_keys(s.push((k, v))),
{
    assert(s.push((k, v)).drop_last() =~= s);
    assert(s.push((k, v)).last() == (k, v));
    if distinct_keys(s) && (forall|i: int| 0 <= i < s.len() ==> (#[trigger] s[i]).0 != k) {
        assert forall|i: int, j: int|
            0 <= i < j < s.push((k, v)).len() implies (#[trigger] s.push((k, v))[i]).0 != (
        #[trigger] s.push((k, v))[j]).0 by {
            if j < s.len() {
                assert(s.push((k, v))[i] == s[i] && s.push((k, v))[j] == s[j]);
            } else {
                assert(s.push((k, v))[i] == s[i] && s.push((k, v))[j] == (k, v));
            }
        }
    }
}

/// The index of the entry carrying `key`, if any entry does.
fn find_key<V>(s: &Vec<(u64, V)>, key: u64) -> (r: Option<usize>)
    ensures
        match r {
            Some(i) => i < s@.len() && s@[i as int].0 == key,
            None => forall|i: int| 0 <= i < s@.len() ==> (#[trigger] s@[i]).0 != key,
        },
{
    let mut idx: usize = 0;
    while idx < s.len()
        invariant
            idx <= s@.len(),
            forall|i: int| 0 <= i < idx ==> (#[trigger] s@[i]).0 != key,
        decreases s@.len() - idx,
    {
        if s[idx].0 == key {
            return Some(idx);
        }
        idx = idx + 1;
    }
    None
}

/// What a store denotes: one map of user records and one of verification
/// records, each keyed by the identifier the caller assigned.
#[verifier::ext_equal]
pub ghost struct StoreView {
    pub users: Map<u64, UserView>,
    pub verifications: Map<u64, VerificationView>,
}

/// The key-addressed record store: it keeps user and verification records,
/// and refuses any commit whose encoded form exceeds the capacity fixed for
/// that record kind.
#[derive(Debug)]
pub struct Store {
    users: Vec<(u64, User)>,
    verifications: Vec<(u64, Verification)>,
}

impl View for Store {
    type V = StoreView;

    closed spec fn view(&self) -> StoreView {
        StoreView { users: map_of(self.users@), verifications: map_of(self.verifications@) }
    }
}

impl Store {
    /// Each record list carries every key at most once.
    pub closed spec fn wf(&self) -> bool {
        distinct_keys(self.users@) && distinct_keys(self.verifications@)
    }

    /// An empty store.
    pub fn new() -> (s: Store)
        ensures
            s.wf(),
            s@.users == Map::<u64, UserView>::empty(),
            s@.verifications == Map::<u64, VerificationView>::empty(),
    {
        Store { users: Vec::new(), verifications: Vec::new() }
    }

    /// Whether a user record exists under `key`.
    pub fn contains_user(&self, key: u64) -> (r: bool)
        ensures
            r == self@.users.contains_key(key),
    {
        proof {
            lemma_map_of_dom(self.users@, key);
        }
        find_key(&self.users, key).is_some()
    }

    /// Whether a verification record exists under `key`.
    pub fn contains_verification(&self, key: u64) -> (r: bool)
        ensures
            r == self@.verifications.contains_key(key),
    {
        proof {
            lemma_map_of_dom(self.verifications@, key);
        }
        find_key(&self.verifications, key).is_some()
    }

    /// Load the user record under `key`, if it exists.
    pub fn load_user(&self, key: u64) -> (r: Option<&User>)
        requires
            self.wf(),
        ensures
            match r {
                Some(u) => self@.users.contains_key(key) && u@ == self@.users[key],
                None => !self@.users.contains_key(key),
            },
    {
        proof {
            lemma_map_of_dom(self.users@, key);
        }
        match find_key(&self.users, key) {
            Some(i) => {
                proof {
                    lemma_map_of_index(self.users@, i as int);
                }
                Some(&self.users[i].1)
            },
            None => None,
        }
    }

    /// Load the verification record under `key`, if it exists.
    pub fn load_verification(&self, key: u64) -> (r: Option<&Verification>)
        requires
            self.wf(),
        ensures
            match r {
                Some(v) => self@.verifications.contains_key(key) && v@ == self@.verifications[key],
                None => !self@.verifications.contains_key(key),
            },
    {
        proof {
            lemma_map_of_dom(self.verifications@, key);
        }
        match find_key(&self.verifications, key) {
            Some(i) => {
                proof {
                    lemma_map_of_index(self.verifications@, i as int);
                }
                Some(&self.verifications[i].1)
            },
            None => None,
        }
    }

    /// Commit a user record under `key`, creating or replacing it, after
    /// checking that its encoded form fits the capacity fixed for user
    /// records. On failure the store is unchanged.
    pub fn persist_user(&mut self, key: u64, user: User) -> (r: Result<(), LedgerError>)
        requires
            old(self).wf(),
        ensures
            final(self).wf(),
            final(self)@.verifications == old(self)@.verifications,
            if user_encoded_len(user@) <= USER_RECORD_CAPACITY {
                r == Ok::<(), LedgerError>(()) && final(self)@.users == old(self)@.users.insert(
                    key,
                    user@,
                )
            } else {
                r == Err::<(), LedgerError>(LedgerError::AllocationCapacityExceeded) && final(self)@.users == old(self)@.users
            },
    {
        if !user_record_fits(&user, USER_RECORD_CAPACITY) {
            return Err(LedgerError::AllocationCapacityExceeded);
        }
        let ghost before: Seq<(u64, User)> = self.users@;
        match find_key(&self.users, key) {
            Some(i) => {
                proof {
                    lemma_map_of_remove(self.users@, i as int);
                }
                let _ = self.users.remove(i);
                proof {
                    assert(forall|j: int|
                        0 <= j < self.users@.len() ==> (#[trigger] self.users@[j]).0 != key);
                    lemma_map_of_push(self.users@, key, user);
                }
                self.users.push((key, user));
                proof {
                    assert(map_of(self.users@) =~= map_of(before).insert(key, user@));
                }
            },
            None => {
                proof {
                    lemma_map_of_push(self.users@, key, user);
                }
                self.users.push((key, user));
            },
        }
        Ok(())
    }

    /// Allocate a new verification record under a fresh `key`, after
    /// checking that its encoded form fits the capacity fixed for
    /// verification records. On failure the store is unchanged.
    pub fn allocate_verification(&mut self, key: u64, verification: Verification) -> (r: Result<
        (),
        LedgerError,
    >)
        requires
            old(self).wf(),
            !old(self)@.verifications.contains_key(key),
        ensures
            final(self).wf(),
            final(self)@.users == old(self)@.users,
            if verification_encoded_len(verification@) <= VERIFICATION_RECORD_CAPACITY {
                r == Ok::<(), LedgerError>(()) && final(self)@.verifications == old(
                    self,
                )@.verifications.insert(key, verification@)
            } else {
                r == Err::<(), LedgerError>(LedgerError::AllocationCapacityExceeded) && final(self)@.verifications == old(self)@.verifications
            },
    {
        if !verification_record_fits(&verification, VERIFICATION_RECORD_CAPACITY) {
            return Err(LedgerError::AllocationCapacityExceeded);
        }
        proof {
            lemma_map_of_dom(self.verifications@, key);
            lemma_map_of_push(self.verifications@, key, verification);
        }
        self.verifications.push((key, verification));
        Ok(())
    }
}

} // verus!
