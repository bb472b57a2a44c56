use vstd::prelude::*;

verus! {

/// The mathematical shape of a persisted user row: every contract of the
/// repository and the lifecycle service is stated over this model.
/// Timestamps are seconds since the epoch.
pub ghost struct UserModel {
    pub id: Seq<char>,
    pub email: Seq<char>,
    pub email_verified_at: Option<i64>,
    pub password: Seq<char>,
    pub created_at: Option<i64>,
    pub updated_at: Option<i64>,
}

/// The persisted user entity. `password` holds the hashed credential; the
/// plaintext never persists past creation. `email_verified_at` is `None`
/// until the one successful verification, which also sets `updated_at`.
#[derive(Debug)]
pub struct User {
    pub id: String,
    pub email: String,
    pub email_verified_at: Option<i64>,
    pub password: String,
    pub created_at: Option<i64>,
    pub updated_at: Option<i64>,
}

impl Clone for User {
    fn clone(&self) -> (r: Self)
        ensures
            r@ == self@,
    {
        User {
            id: self.id.clone(),
            email: self.email.clone(),
            email_verified_at: self.email_verified_at,
            password: self.password.clone(),
            created_at: self.created_at,
            updated_at: self.updated_at,
        }
    }
}

impl View for User {
    type V = UserModel;

    open spec fn view(&self) -> UserModel {
        UserModel {
            id: self.id@,
            email: self.email@,
            email_verified_at: self.email_verified_at,
            password: self.password@,
            created_at: self.created_at,
            updated_at: self.updated_at,
        }
    }
}

/// Relies on `uuid::Uuid::new_v4` and its `Display` impl: a random
/// identifier rendered in the hyphenated form, which is always 36
/// characters. Nothing else holds of a random identifier.
#[verifier::external_body]
pub(crate) fn fresh_id() -> (r: String)
    ensures
        r@.len() == 36,
{
    uuid::Uuid::new_v4().to_string()
}

/// Relies on `chrono::Local::now`: the current local wall-clock time,
/// reduced to seconds since the epoch. Nothing holds of the clock's value.
#[verifier::external_body]
pub(crate) fn now_seconds() -> i64 {
    chrono::Local::now().naive_local().and_utc().timestamp()
}

impl User {
    /// A freshly created, unverified user: random identifier, creation time
    /// taken from the clock, the credential kept exactly as supplied (the
    /// lifecycle service hashes it before anything persists).
    pub fn new(email: String, password: String) -> (r: User)
        ensures
            r@.id.len() == 36,
            r@.email == email@,
            r@.password == password@,
            r@.email_verified_at is None,
            r@.created_at is Some,
            r@.updated_at is None,
    {
        let id = fresh_id();
        let local_now = now_seconds();
        User {
            id,
            email,
            password,
            email_verified_at: None,
            created_at: Some(local_now),
            updated_at: None,
        }
    }
}

} // verus!
