use vstd::prelude::*;
use crate::crypto::{token_of, verify_outcome};
use crate::envelope::{error_says, response_fn, Message};
use crate::errors::StoreError;
use crate::ids::{digits_value, valid_id_str};
use crate::models::User;
use crate::outcomes::InsertOneResult;
use crate::user_repo::{first_email_match, UserRepo};

verus! {

/// Health-check greeting returned at the service root.
pub fn hello() -> (r: String)
    ensures
        r@ == "Hello World"@,
{
    let r: String = "Hello World".to_owned();
    r
}

/// Signs a user up: an empty password is rejected before anything is hashed
/// or stored, a taken email is reported with the existing record instead of
/// creating a second one, and otherwise the record is stored with the
/// password replaced by its one-way hash — the plaintext is never persisted.
pub fn user_signup(db: &mut UserRepo, new_user: User) -> (r: Result<
    Message<InsertOneResult>,
    Message<User>,
>)
    requires
        old(db).wf(),
        old(db).next_id < u64::MAX,
    ensures
        final(db).wf(),
        match r {
            Ok(m) => {
                &&& new_user.password@.len() > 0
                &&& !old(db).has_email(new_user.email@)
                &&& m.success == true
                &&& m.message@ == "User signed up successfully"@
                &&& m.data == Some((InsertOneResult { inserted_id: old(db).next_id }))
                &&& m.error is None
                &&& final(db).next_id == old(db).next_id + 1
                &&& final(db).users@.len() == old(db).users@.len() + 1
                &&& final(db).users@.drop_last() == old(db).users@
                &&& {
                    let u = final(db).users@.last();
                    &&& u.id == Some(old(db).next_id)
                    &&& u.username@ == new_user.username@
                    &&& u.email@ == new_user.email@
                    &&& u.is_admin == new_user.is_admin
                    &&& u.total_booked_rooms@ == Seq::<u64>::empty()
                    &&& u.password@.len() == 60
                    &&& verify_outcome(new_user.password@, u.password@) == Some(true)
                    &&& (new_user.password@.len() != 60 ==> u.password@ != new_user.password@)
                }
            },
            Err(m) => {
                &&& final(db).users@ == old(db).users@
                &&& final(db).next_id == old(db).next_id
                &&& m.success == false
                &&& (new_user.password@.len() == 0 ==> m.message@ == "Password is required"@
                    && m.data is None && m.error is None)
                &&& (new_user.password@.len() > 0 && old(db).has_email(new_user.email@)
                    ==> m.message@ == "User with this email already exists"@ && (
                m.data matches Some(u) && exists|i: int|
                    #[trigger] first_email_match(old(db).users@, new_user.email@, i) && old(
                        db,
                    ).users@[i]@ == u@) && m.error is None)
                &&& (new_user.password@.len() > 0 && !old(db).has_email(new_user.email@)
                    ==> m.message@ == "Server error"@ && error_says(
                    m.error,
                    StoreError::HashFailure.spec_describe(),
                ) && m.data is None)
            },
        },
{
    if new_user.password.as_str().is_empty() {
        return Err(response_fn(false, "Password is required".to_owned(), None, String::new()));
    }
    match db.get_user_using_email(&new_user.email) {
        Ok(existing_user) => {
            return Err(
                response_fn(
                    false,
                    "User with this email already exists".to_owned(),
                    Some(existing_user),
                    String::new(),
                ),
            );
        },
        Err(_) => {},
    }
    match db.user_signup(new_user) {
        Ok(insert_result) => Ok(
            response_fn(
                true,
                "User signed up successfully".to_owned(),
                Some(insert_result),
                String::new(),
            ),
        ),
        Err(e) => Err(response_fn(false, "Server error".to_owned(), None, e.describe())),
    }
}

/// Lists every user.
pub fn get_all_users(db: &UserRepo) -> (r: Result<Message<Vec<User>>, Message<Vec<User>>>)
    ensures
        match r {
            Ok(m) => {
                &&& m.success == true
                &&& m.message@ == "Users fetched successfully"@
                &&& m.data matches Some(v) && v@.len() == db.users@.len() && (forall|i: int|
                    0 <= i < v@.len() ==> (#[trigger] v@[i])@ == db.users@[i]@)
                &&& m.error is None
            },
            Err(_) => false,
        },
{
    match db.get_all_users() {
        Ok(users) => Ok(
            response_fn(true, "Users fetched successfully".to_owned(), Some(users), String::new()),
        ),
        Err(e) => Err(response_fn(false, "Server error".to_owned(), None, e.describe())),
    }
}

/// Fetches one user by the identity string. An empty or malformed id is
/// rejected before and instead of any store access.
pub fn get_user(db: &UserRepo, id: String) -> (r: Result<Message<User>, Message<User>>)
    requires
        db.wf(),
    ensures
        match r {
            Ok(m) => {
                &&& id@.len() > 0 && valid_id_str(id@)
                &&& m.success == true
                &&& m.message@ == "User fetched successfully"@
                &&& m.data matches Some(u) && exists|i: int|
                    0 <= i < db.users@.len() && (#[trigger] db.users@[i])@ == u@ && u.id == Some(
                        digits_value(id@) as u64,
                    )
                &&& m.error is None
            },
            Err(m) => {
                &&& m.success == false
                &&& m.data is None
                &&& (id@.len() == 0 ==> m.message@ == "Id is required"@ && m.error is None)
                &&& (id@.len() > 0 ==> m.message@ == "Server error"@ && ((!valid_id_str(id@)
                    && error_says(m.error, StoreError::MalformedId.spec_describe())) || (
                valid_id_str(id@) && !db.has_id(digits_value(id@) as u64) && error_says(
                    m.error,
                    StoreError::NotFound.spec_describe(),
                ))))
            },
        },
{
    if id.as_str().is_empty() {
        return Err(response_fn(false, "Id is required".to_owned(), None, String::new()));
    }
    match db.get_user(&id) {
        Ok(user) => Ok(
            response_fn(true, "User fetched successfully".to_owned(), Some(user), String::new()),
        ),
        Err(e) => Err(response_fn(false, "Server error".to_owned(), None, e.describe())),
    }
}

/// Fetches one user by email (the business key). An empty email is rejected
/// before any store access.
pub fn get_user_using_email(db: &UserRepo, email: String) -> (r: Result<Message<User>, Message<User>>)
    ensures
        match r {
            Ok(m) => {
                &&& email@.len() > 0
                &&& m.success == true
                &&& m.message@ == "User fetched successfully"@
                &&& m.data matches Some(u) && exists|i: int|
                    #[trigger] first_email_match(db.users@, email@, i) && db.users@[i]@ == u@
                &&& m.error is None
            },
            Err(m) => {
                &&& m.success == false
                &&& m.data is None
                &&& (email@.len() == 0 ==> m.message@ == "Email is required"@ && m.error is None)
                &&& (email@.len() > 0 ==> !db.has_email(email@) && m.message@ == "Server error"@
                    && error_says(m.error, StoreError::UserNotFound.spec_describe()))
            },
        },
{
    if email.as_str().is_empty() {
        return Err(response_fn(false, "Email is required".to_owned(), None, String::new()));
    }
    match db.get_user_using_email(&email) {
        Ok(user) => Ok(
            response_fn(true, "User fetched successfully".to_owned(), Some(user), String::new()),
        ),
        Err(e) => Err(response_fn(false, "Server error".to_owned(), None, e.describe())),
    }
}

/// Logs a user in. Empty credentials are rejected before any store access;
/// otherwise the first record with the email decides: an unknown email, a
/// password that does not match its stored hash, a stored hash that cannot
/// be checked, and a token issuer failure are each reported apart, and on
/// success the data holds the signed token for that user's identity and
/// role.
pub fn user_login(db: &UserRepo, email: String, password: String, secret: &String) -> (r: Result<
    Message<String>,
    Message<User>,
>)
    requires
        db.wf(),
    ensures
        match r {
            Ok(m) => {
                &&& email@.len() > 0 && password@.len() > 0
                &&& m.success == true
                &&& m.message@ == "User logged in successfully"@
                &&& m.error is None
                &&& m.data matches Some(tok) && exists|i: int|
                    {
                        &&& #[trigger] first_email_match(db.users@, email@, i)
                        &&& verify_outcome(password@, db.users@[i].password@) == Some(true)
                        &&& tok@ == token_of(
                            db.users@[i].id.unwrap(),
                            db.users@[i].is_admin,
                            secret@,
                        )
                    }
            },
            Err(m) => {
                &&& m.success == false
                &&& m.data is None
                &&& ((email@.len() == 0 || password@.len() == 0) ==> m.message@
                    == "Email and password are required"@ && m.error is None)
                &&& (email@.len() > 0 && password@.len() > 0 ==> m.message@ == "Server error"@ && (
                (!db.has_email(email@) && error_says(
                    m.error,
                    StoreError::UserNotFound.spec_describe(),
                )) || (exists|i: int|
                    #[trigger] first_email_match(db.users@, email@, i) && verify_outcome(
                        password@,
                        db.users@[i].password@,
                    ) == Some(false) && error_says(
                        m.error,
                        StoreError::InvalidCredentials.spec_describe(),
                    )) || (exists|i: int|
                    #[trigger] first_email_match(db.users@, email@, i) && verify_outcome(
                        password@,
                        db.users@[i].password@,
                    ) is None && error_says(m.error, StoreError::VerifyFailure.spec_describe()))
                    || (exists|i: int|
                    #[trigger] first_email_match(db.users@, email@, i) && verify_outcome(
                        password@,
                        db.users@[i].password@,
                    ) == Some(true) && error_says(
                        m.error,
                        StoreError::TokenFailure.spec_describe(),
                    ))))
            },
        },
{
    if email.as_str().is_empty() || password.as_str().is_empty() {
        return Err(
            response_fn(false, "Email and password are required".to_owned(), None, String::new()),
        );
    }
    match db.user_login(&email, &password, secret) {
        Ok(token) => Ok(
            response_fn(true, "User logged in successfully".to_owned(), Some(token), String::new()),
        ),
        Err(e) => Err(response_fn(false, "Server error".to_owned(), None, e.describe())),
    }
}

} // verus!
