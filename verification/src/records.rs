use vstd::prelude::*;

verus! {

/// Mathematical model of a user record: each string as a sequence of
/// characters, each string list as a sequence of such sequences.
#[verifier::ext_equal]
pub ghost struct UserView {
    pub client_session_id: Seq<char>,
    pub past_session_ids: Seq<Seq<char>>,
    pub is_verified: bool,
    pub verified_by: Seq<Seq<char>>,
    pub users_verified: Seq<Seq<char>>,
}

/// Mathematical model of a verification record.
#[verifier::ext_equal]
pub ghost struct VerificationView {
    pub verified_by: Seq<char>,
    pub targeted_session_id: Seq<char>,
    pub timestamp: i64,
    pub status: Seq<char>,
}

/// A fresh user record: no session yet, no history, no trust.
pub open spec fn empty_user() -> UserView {
    UserView {
        client_session_id: Seq::empty(),
        past_session_ids: Seq::empty(),
        is_verified: false,
        verified_by: Seq::empty(),
        users_verified: Seq::empty(),
    }
}

/// How a session rotation transforms a user record: the old session id is
/// archived when non-empty, the new id becomes current, and all verification
/// trust — the flag, the verifier list and the witness history — is discarded.
pub open spec fn register_session_spec(u: UserView, client_session_id: Seq<char>) -> UserView {
    UserView {
        client_session_id: client_session_id,
        past_session_ids: if u.client_session_id.len() == 0 {
            u.past_session_ids
        } else {
            u.past_session_ids.push(u.client_session_id)
        },
        is_verified: false,
        verified_by: Seq::empty(),
        users_verified: Seq::empty(),
    }
}

/// How a verification-flag update transforms a user record: the flag is set
/// unconditionally and the verifier list is replaced wholesale, duplicates
/// and empty entries included.
pub open spec fn mark_verified_spec(u: UserView, verified_by: Seq<Seq<char>>) -> UserView {
    UserView { is_verified: true, verified_by: verified_by, ..u }
}

/// How witnessing a verification transforms the verifying user's own record:
/// its session id is appended to the accumulated witness history.
pub open spec fn record_witness_spec(u: UserView, own_session_id: Seq<char>) -> UserView {
    UserView { users_verified: u.users_verified.push(own_session_id), ..u }
}

/// One user record: the active session, the insertion-ordered archive of
/// earlier sessions, and the verification state.
#[derive(Debug)]
pub struct User {
    pub client_session_id: String,
    pub past_session_ids: Vec<String>,
    pub is_verified: bool,
    pub verified_by: Vec<String>,
    pub users_verified: Vec<String>,
}

impl View for User {
    type V = UserView;

    open spec fn view(&self) -> UserView {
        UserView {
            client_session_id: self.client_session_id@,
            past_session_ids: self.past_session_ids.deep_view(),
            is_verified: self.is_verified,
            verified_by: self.verified_by.deep_view(),
            users_verified: self.users_verified.deep_view(),
        }
    }
}

impl Clone for User {
    fn clone(&self) -> (res: User)
        ensures
            res@ == self@,
    {
        let res = User {
            client_session_id: self.client_session_id.clone(),
            past_session_ids: clone_string_list(&self.past_session_ids),
            is_verified: self.is_verified,
            verified_by: clone_string_list(&self.verified_by),
            users_verified: clone_string_list(&self.users_verified),
        };
        assert(res@ =~= self@);
        res
    }
}

/// An exact duplicate of a list of strings.
fn clone_string_list(v: &Vec<String>) -> (res: Vec<String>)
    ensures
        res.deep_view() == v.deep_view(),
{
    let res = v.clone();
    assert forall|i: int| 0 <= i < v@.len() implies res@[i]@ == v@[i]@ by {
        assert(cloned::<String>(v@[i], res@[i]));
    }
    assert(res.deep_view() =~= v.deep_view());
    res
}

impl User {
    /// A fresh record, as the ledger allocates it before the first
    /// registration.
    pub fn new() -> (u: User)
        ensures
            u@ == empty_user(),
    {
        let u = User {
            client_session_id: String::new(),
            past_session_ids: Vec::new(),
            is_verified: false,
            verified_by: Vec::new(),
            users_verified: Vec::new(),
        };
        assert(u@ =~= empty_user());
        u
    }

    /// Rotate to a new session: archive the old id when non-empty, install
    /// the new one, and clear all verification trust.
    pub fn register_session(&mut self, client_session_id: String)
        ensures
            final(self)@ == register_session_spec(old(self)@, client_session_id@),
    {
        let ghost new_id: Seq<char> = client_session_id@;
        let old_session = self.client_session_id.clone();
        if !old_session.as_str().is_empty() {
            self.past_session_ids.push(old_session);
            assert(self.past_session_ids.deep_view() =~= old(
                self,
            ).past_session_ids.deep_view().push(old(self).client_session_id@));
        }
        self.client_session_id = client_session_id;
        self.is_verified = false;
        self.verified_by.clear();
        self.users_verified.clear();
        assert(self.verified_by.deep_view() =~= Seq::<Seq<char>>::empty());
        assert(self.users_verified.deep_view() =~= Seq::<Seq<char>>::empty());
        assert(self@ =~= register_session_spec(old(self)@, new_id));
    }

    /// Set the verified flag and replace the verifier list wholesale.
    pub fn mark_verified(&mut self, verified_by: Vec<String>)
        ensures
            final(self)@ == mark_verified_spec(old(self)@, verified_by.deep_view()),
    {
        let ghost names: Seq<Seq<char>> = verified_by.deep_view();
        self.is_verified = true;
        self.verified_by = verified_by;
        assert(self@ =~= mark_verified_spec(old(self)@, names));
    }

    /// Append one session id to the accumulated witness history.
    pub fn record_witness(&mut self, own_session_id: String)
        ensures
            final(self)@ == record_witness_spec(old(self)@, own_session_id@),
    {
        let ghost sid: Seq<char> = own_session_id@;
        self.users_verified.push(own_session_id);
        assert(self.users_verified.deep_view() =~= old(self).users_verified.deep_view().push(sid));
        assert(self@ =~= record_witness_spec(old(self)@, sid));
    }
}

/// One verification event: who attested, which session was attested, when,
/// and with what outcome label. Immutable once created.
#[derive(Debug)]
pub struct Verification {
    pub verified_by: String,
    pub targeted_session_id: String,
    pub timestamp: i64,
    pub status: String,
}

impl View for Verification {
    type V = VerificationView;

    open spec fn view(&self) -> VerificationView {
        VerificationView {
            verified_by: self.verified_by@,
            targeted_session_id: self.targeted_session_id@,
            timestamp: self.timestamp,
            status: self.status@,
        }
    }
}

impl Verification {
    /// A new verification record, populated verbatim from its four fields.
    pub fn new(verified_by: String, targeted_session_id: String, timestamp: i64, status: String) -> (v:
        Verification)
        ensures
            v@ == (VerificationView {
                verified_by: verified_by@,
                targeted_session_id: targeted_session_id@,
                timestamp: timestamp,
                status: status@,
            }),
    {
        Verification { verified_by, targeted_session_id, timestamp, status }
    }
}

} // verus!
