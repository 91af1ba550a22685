use vstd::prelude::*;
use crate::crypto::{hash_password, issue_token, token_of, verify_outcome, verify_password};
use crate::errors::StoreError;
use crate::ids::{digits_value, parse_id, valid_id_str};
use crate::models::User;
use crate::outcomes::InsertOneResult;

verus! {

/// True when some record in `s` carries `email`.
pub open spec fn has_email_in(s: Seq<User>, email: Seq<char>) -> bool {
    exists|i: int| 0 <= i < s.len() && (#[trigger] s[i]).email@ == email
}

/// The record at `i` is the first one in `s` carrying `email`.
pub open spec fn first_email_match(s: Seq<User>, email: Seq<char>, i: int) -> bool {
    &&& 0 <= i < s.len()
    &&& s[i].email@ == email
    &&& forall|j: int| 0 <= j < i ==> (#[trigger] s[j]).email@ != email
}

/// At most one index is the first match of an email.
pub proof fn lemma_first_email_match_unique(s: Seq<User>, email: Seq<char>, a: int, b: int)
    requires
        first_email_match(s, email, a),
        first_email_match(s, email, b),
    ensures
        a == b,
{
    if a < b {
        assert(s[a].email@ != email);
    } else if b < a {
        assert(s[b].email@ != email);
    }
}

/// What `user_login` reports for a store `users`, credentials and secret:
/// `UserNotFound` exactly when no record carries the email; otherwise the
/// stored hash of the first record with the email decides between the signed
/// token (or a token-issuer failure), `InvalidCredentials`, and
/// `VerifyFailure`.
pub open spec fn login_outcome(
    users: Seq<User>,
    email: Seq<char>,
    password: Seq<char>,
    secret: Seq<char>,
    r: Result<String, StoreError>,
) -> bool {
    match r {
        Ok(tok) => exists|i: int|
            {
                &&& #[trigger] first_email_match(users, email, i)
                &&& verify_outcome(password, users[i].password@) == Some(true)
                &&& tok@ == token_of(users[i].id.unwrap(), users[i].is_admin, secret)
            },
        Err(e) => match e {
            StoreError::UserNotFound => !has_email_in(users, email),
            StoreError::InvalidCredentials => exists|i: int|
                #[trigger] first_email_match(users, email, i) && verify_outcome(
                    password,
                    users[i].password@,
                ) == Some(false),
            StoreError::VerifyFailure => exists|i: int|
                #[trigger] first_email_match(users, email, i) && verify_outcome(
                    password,
                    users[i].password@,
                ) is None,
            StoreError::TokenFailure => exists|i: int|
                #[trigger] first_email_match(users, email, i) && verify_outcome(
                    password,
                    users[i].password@,
                ) == Some(true),
            _ => false,
        },
    }
}

/// A user whose record was just stored with a fresh email — no earlier
/// record carries it, and the stored hash verifies the password — can log
/// in: every outcome `user_login` may report for that store and those
/// credentials is the signed token for that user's identity and role, or a
/// token-issuer failure; never an unknown user, invalid credentials or an
/// unverifiable hash.
pub proof fn lemma_fresh_signup_enables_login(
    users: Seq<User>,
    email: Seq<char>,
    password: Seq<char>,
    secret: Seq<char>,
    r: Result<String, StoreError>,
)
    requires
        users.len() > 0,
        forall|j: int| 0 <= j < users.len() - 1 ==> (#[trigger] users[j]).email@ != email,
        users.last().email@ == email,
        verify_outcome(password, users.last().password@) == Some(true),
        login_outcome(users, email, password, secret, r),
    ensures
        r is Ok || r == Err::<String, StoreError>(StoreError::TokenFailure),
        r matches Ok(tok) ==> tok@ == token_of(
            users.last().id.unwrap(),
            users.last().is_admin,
            secret,
        ),
{
    let last = users.len() - 1;
    assert(first_email_match(users, email, last));
    match r {
        Ok(tok) => {
            let i = choose|i: int|
                {
                    &&& #[trigger] first_email_match(users, email, i)
                    &&& verify_outcome(password, users[i].password@) == Some(true)
                    &&& tok@ == token_of(users[i].id.unwrap(), users[i].is_admin, secret)
                };
            lemma_first_email_match_unique(users, email, i, last);
        },
        Err(e) => match e {
            StoreError::UserNotFound => {
                assert(has_email_in(users, email));
            },
            StoreError::InvalidCredentials => {
                let i = choose|i: int|
                    #[trigger] first_email_match(users, email, i) && verify_outcome(
                        password,
                        users[i].password@,
                    ) == Some(false);
                lemma_first_email_match_unique(users, email, i, last);
            },
            StoreError::VerifyFailure => {
                let i = choose|i: int|
                    #[trigger] first_email_match(users, email, i) && verify_outcome(
                        password,
                        users[i].password@,
                    ) is None;
                lemma_first_email_match_unique(users, email, i, last);
            },
            _ => {},
        },
    }
}

/// Whether `v` holds `x`.
pub(crate) fn contains_u64(v: &Vec<u64>, x: u64) -> (r: bool)
    ensures
        r == v@.contains(x),
{
    let mut k: usize = 0;
    let n = v.len();
    while k < n
        invariant
            k <= n,
            n == v@.len(),
            forall|j: int| 0 <= j < k ==> v@[j] != x,
        decreases n - k,
    {
        if v[k] == x {
            return true;
        }
        k = k + 1;
    }
    false
}

/// Removes the occurrence of `x` from `v`, which holds no duplicates; leaves
/// `v` as it is when `x` is not there.
pub(crate) fn remove_u64(v: &mut Vec<u64>, x: u64)
    requires
        old(v)@.no_duplicates(),
    ensures
        !final(v)@.contains(x),
        final(v)@.no_duplicates(),
        old(v)@.contains(x) ==> exists|a: int|
            0 <= a < old(v)@.len() && old(v)@[a] == x && final(v)@ == old(v)@.remove(a),
        !old(v)@.contains(x) ==> final(v)@ == old(v)@,
{
    let mut k: usize = 0;
    let n = v.len();
    while k < n
        invariant
            k <= n,
            n == v@.len(),
            v@ == old(v)@,
            v@.no_duplicates(),
            forall|j: int| 0 <= j < k ==> v@[j] != x,
        decreases n - k,
    {
        if v[k] == x {
            v.remove(k);
            proof {
                assert forall|j: int| 0 <= j < v@.len() implies v@[j] != x by {
                    if j < k {
                        assert(v@[j] == old(v)@[j]);
                    } else {
                        assert(v@[j] == old(v)@[j + 1]);
                    }
                }
            }
            return ;
        }
        k = k + 1;
    }
}

/// The user store. It owns the collection of user records and assigns each
/// new record the next free id.
pub struct UserRepo {
    pub users: Vec<User>,
    pub next_id: u64,
}

impl UserRepo {
    /// Well-formed store: every record carries an id, ids are unique and
    /// below the next one to be assigned, and no user's booked-room list
    /// holds a room twice.
    pub open spec fn wf(&self) -> bool {
        &&& forall|i: int|
            0 <= i < self.users@.len() ==> (#[trigger] self.users@[i]).id is Some
                && self.users@[i].id.unwrap() < self.next_id
        &&& forall|i: int, j: int|
            0 <= i < j < self.users@.len() ==> (#[trigger] self.users@[i]).id != (
            #[trigger] self.users@[j]).id
        &&& forall|i: int|
            0 <= i < self.users@.len() ==> (#[trigger] self.users@[i]).total_booked_rooms@.no_duplicates()
    }

    /// True when some record carries the id.
    pub open spec fn has_id(&self, id: u64) -> bool {
        exists|i: int| 0 <= i < self.users@.len() && (#[trigger] self.users@[i]).id == Some(id)
    }

    /// True when some record carries the email.
    pub open spec fn has_email(&self, email: Seq<char>) -> bool {
        has_email_in(self.users@, email)
    }

    /// Creates an empty user store.
    pub fn new() -> (r: Self)
        ensures
            r.wf(),
            r.users@.len() == 0,
            r.next_id == 0,
    {
        UserRepo { users: Vec::new(), next_id: 0 }
    }

    /// The index of the record carrying `id`, if any.
    pub(crate) fn find_by_id(&self, id: u64) -> (r: Option<usize>)
        ensures
            match r {
                Some(i) => i < self.users@.len() && self.users@[i as int].id == Some(id),
                None => !self.has_id(id),
            },
    {
        let mut k: usize = 0;
        let n = self.users.len();
        while k < n
            invariant
                k <= n,
                n == self.users@.len(),
                forall|i: int| 0 <= i < k ==> (#[trigger] self.users@[i]).id != Some(id),
            decreases n - k,
        {
            if let Some(found) = self.users[k].id {
                if found == id {
                    return Some(k);
                }
            }
            k = k + 1;
        }
        None
    }

    /// Stores a new user record: the password is replaced by its one-way
    /// hash — the plaintext is never persisted — the booked-room list starts
    /// empty, and the store assigns the id. Fails only when the hashing
    /// primitive does, leaving the store untouched.
    pub fn user_signup(&mut self, new_user: User) -> (r: Result<InsertOneResult, StoreError>)
        requires
            old(self).wf(),
            old(self).next_id < u64::MAX,
        ensures
            final(self).wf(),
            match r {
                Ok(ir) => {
                    let u = final(self).users@.last();
                    &&& ir == (InsertOneResult { inserted_id: old(self).next_id })
                    &&& final(self).next_id == old(self).next_id + 1
                    &&& final(self).users@.len() == old(self).users@.len() + 1
                    &&& final(self).users@.drop_last() == old(self).users@
                    &&& u.id == Some(old(self).next_id)
                    &&& u.username@ == new_user.username@
                    &&& u.email@ == new_user.email@
                    &&& u.is_admin == new_user.is_admin
                    &&& u.total_booked_rooms@ == Seq::<u64>::empty()
                    &&& u.password@.len() == 60
                    &&& u.password@[0] == '$'
                    &&& verify_outcome(new_user.password@, u.password@) == Some(true)
                    &&& u.password@ != new_user.password@ || new_user.password@.len() == 60
                },
                Err(e) => e == StoreError::HashFailure && final(self).users@ == old(self).users@
                    && final(self).next_id == old(self).next_id,
            },
    {
        let hashed_password = match hash_password(&new_user.password) {
            Some(h) => h,
            None => {
                return Err(StoreError::HashFailure);
            },
        };
        let id = self.next_id;
        let new_doc = User {
            id: Some(id),
            username: new_user.username,
            email: new_user.email,
            password: hashed_password,
            total_booked_rooms: Vec::new(),
            is_admin: new_user.is_admin,
        };
        self.users.push(new_doc);
        self.next_id = self.next_id + 1;
        proof {
            assert(final(self).users@.drop_last() =~= old(self).users@);
        }
        Ok(InsertOneResult { inserted_id: id })
    }

    /// Looks a user up by the identity string. Yields the record whose id the
    /// string names; `MalformedId` when the string is not a valid id, and
    /// `NotFound` when no record carries it.
    pub fn get_user(&self, id: &String) -> (r: Result<User, StoreError>)
        requires
            self.wf(),
        ensures
            match r {
                Ok(u) => valid_id_str(id@) && exists|i: int|
                    0 <= i < self.users@.len() && (#[trigger] self.users@[i])@ == u@ && u.id
                        == Some(digits_value(id@) as u64),
                Err(e) => (e == StoreError::MalformedId && !valid_id_str(id@)) || (e
                    == StoreError::NotFound && valid_id_str(id@) && !self.has_id(
                    digits_value(id@) as u64,
                )),
            },
    {
        let idv = match parse_id(id) {
            Ok(v) => v,
            Err(e) => {
                return Err(e);
            },
        };
        match self.find_by_id(idv) {
            Some(i) => Ok(self.users[i].clone()),
            None => Err(StoreError::NotFound),
        }
    }

    /// Looks a user up by email (the business key). Yields the first record
    /// with that email; `NotFound` when there is none.
    pub fn get_user_using_email(&self, email: &String) -> (r: Result<User, StoreError>)
        ensures
            match r {
                Ok(u) => exists|i: int|
                    #[trigger] first_email_match(self.users@, email@, i) && self.users@[i]@ == u@,
                Err(e) => e == StoreError::UserNotFound && !self.has_email(email@),
            },
    {
        let mut k: usize = 0;
        let n = self.users.len();
        while k < n
            invariant
                k <= n,
                n == self.users@.len(),
                forall|j: int| 0 <= j < k ==> (#[trigger] self.users@[j]).email@ != email@,
            decreases n - k,
        {
            if self.users[k].email.eq(email) {
                let u = self.users[k].clone();
                proof {
                    assert(first_email_match(self.users@, email@, k as int));
                }
                return Ok(u);
            }
            k = k + 1;
        }
        Err(StoreError::UserNotFound)
    }

    /// Yields every user record, in store order.
    pub fn get_all_users(&self) -> (r: Result<Vec<User>, StoreError>)
        ensures
            match r {
                Ok(v) => v@.len() == self.users@.len() && forall|i: int|
                    0 <= i < v@.len() ==> (#[trigger] v@[i])@ == self.users@[i]@,
                Err(_) => false,
            },
    {
        let v = self.users.clone();
        proof {
            assert forall|i: int| 0 <= i < v@.len() implies (#[trigger] v@[i])@
                == self.users@[i]@ by {
                assert(vstd::pervasive::cloned::<User>(self.users@[i], v@[i]));
            }
        }
        Ok(v)
    }

    /// Checks the credentials and issues a signed token. The outcome is
    /// exact: `UserNotFound` when no record carries the email; otherwise the
    /// stored hash of the first such record decides — a match yields the
    /// token for that user's identity and role (or `TokenFailure` should the
    /// issuer fail), a mismatch `InvalidCredentials`, and a stored string
    /// that is no bcrypt hash `VerifyFailure`.
    pub fn user_login(&self, email: &String, provided_password: &String, secret: &String) -> (r:
        Result<String, StoreError>)
        requires
            self.wf(),
        ensures
            login_outcome(self.users@, email@, provided_password@, secret@, r),
    {
        let mut k: usize = 0;
        let n = self.users.len();
        while k < n
            invariant
                self.wf(),
                k <= n,
                n == self.users@.len(),
                forall|j: int| 0 <= j < k ==> (#[trigger] self.users@[j]).email@ != email@,
            decreases n - k,
        {
            if self.users[k].email.eq(email) {
                proof {
                    assert(first_email_match(self.users@, email@, k as int));
                }
                let stored_password = &self.users[k].password;
                match verify_password(provided_password, stored_password) {
                    Some(true) => {
                        let uid = self.users[k].id.unwrap();
                        match issue_token(uid, self.users[k].is_admin, secret) {
                            Some(t) => {
                                return Ok(t);
                            },
                            None => {
                                return Err(StoreError::TokenFailure);
                            },
                        }
                    },
                    Some(false) => {
                        return Err(StoreError::InvalidCredentials);
                    },
                    None => {
                        return Err(StoreError::VerifyFailure);
                    },
                }
            }
            k = k + 1;
        }
        Err(StoreError::UserNotFound)
    }
}

} // verus!
