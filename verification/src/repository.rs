use vstd::prelude::*;
use crate::user::{User, UserModel, fresh_id, now_seconds};

verus! {

// ---------------------------------------------------------------------------
// Spec helpers over the store's contents
// ---------------------------------------------------------------------------

/// Some row carries this identifier.
pub open spec fn has_id(s: Seq<UserModel>, id: Seq<char>) -> bool {
    exists|i: int| 0 <= i < s.len() && s[i].id == id
}

/// An index of a row carrying this identifier (the index, once identifiers
/// are pairwise distinct).
pub open spec fn idx_of_id(s: Seq<UserModel>, id: Seq<char>) -> int {
    choose|i: int| 0 <= i < s.len() && s[i].id == id
}

/// The row carrying this identifier (meaningful when `has_id` holds).
pub open spec fn user_of_id(s: Seq<UserModel>, id: Seq<char>) -> UserModel {
    s[idx_of_id(s, id)]
}

/// Some row carries this email.
pub open spec fn has_email(s: Seq<UserModel>, email: Seq<char>) -> bool {
    exists|i: int| 0 <= i < s.len() && s[i].email == email
}

/// An index of a row carrying this email.
pub open spec fn idx_of_email(s: Seq<UserModel>, email: Seq<char>) -> int {
    choose|i: int| 0 <= i < s.len() && s[i].email == email
}

/// The row carrying this email (meaningful when `has_email` holds).
pub open spec fn user_of_email(s: Seq<UserModel>, email: Seq<char>) -> UserModel {
    s[idx_of_email(s, email)]
}

/// Identifiers are pairwise distinct.
pub open spec fn ids_unique(s: Seq<UserModel>) -> bool {
    forall|i: int, j: int| 0 <= i < j < s.len() ==> s[i].id != s[j].id
}

/// Emails are pairwise distinct: at most one row per email.
pub open spec fn emails_unique(s: Seq<UserModel>) -> bool {
    forall|i: int, j: int| 0 <= i < j < s.len() ==> s[i].email != s[j].email
}

/// The row a successful insert appends: unverified, created at `t`, never
/// updated.
pub open spec fn created(id: Seq<char>, email: Seq<char>, password: Seq<char>, t: i64) -> UserModel {
    UserModel {
        id: id,
        email: email,
        email_verified_at: None,
        password: password,
        created_at: Some(t),
        updated_at: None,
    }
}

/// A row after its one verification at time `t`: the verification timestamp
/// and the update timestamp are set, everything else is kept.
pub open spec fn verified(u: UserModel, t: i64) -> UserModel {
    UserModel { email_verified_at: Some(t), updated_at: Some(t), ..u }
}

// ---------------------------------------------------------------------------
// Facts about how the store operations act on uniqueness
// ---------------------------------------------------------------------------

/// Appending a row whose identifier and email are both absent keeps
/// identifiers and emails pairwise distinct.
pub proof fn lemma_push_keeps_unique(s: Seq<UserModel>, u: UserModel)
    requires
        ids_unique(s),
        emails_unique(s),
        !has_id(s, u.id),
        !has_email(s, u.email),
    ensures
        ids_unique(s.push(u)),
        emails_unique(s.push(u)),
{
    assert forall|i: int, j: int| 0 <= i < j < s.push(u).len() implies s.push(u)[i].id != s.push(u)[j].id by {
        if j == s.len() {
            assert(s.push(u)[i] == s[i]);
        }
    }
    assert forall|i: int, j: int| 0 <= i < j < s.push(u).len() implies s.push(u)[i].email != s.push(u)[j].email by {
        if j == s.len() {
            assert(s.push(u)[i] == s[i]);
        }
    }
}

/// Replacing a row by one that keeps its identifier and email keeps
/// identifiers and emails pairwise distinct.
pub proof fn lemma_update_keeps_unique(s: Seq<UserModel>, k: int, u: UserModel)
    requires
        ids_unique(s),
        emails_unique(s),
        0 <= k < s.len(),
        u.id == s[k].id,
        u.email == s[k].email,
    ensures
        ids_unique(s.update(k, u)),
        emails_unique(s.update(k, u)),
{
}

/// Removing a row keeps identifiers pairwise distinct, and the removed
/// identifier is gone.
pub proof fn lemma_remove_keeps_unique(s: Seq<UserModel>, k: int)
    requires
        ids_unique(s),
        0 <= k < s.len(),
    ensures
        ids_unique(s.remove(k)),
        !has_id(s.remove(k), s[k].id),
{
    assert forall|i: int, j: int| 0 <= i < j < s.remove(k).len() implies s.remove(k)[i].id != s.remove(
        k,
    )[j].id by {
        let i0: int = if i < k { i } else { i + 1 };
        let j0: int = if j < k { j } else { j + 1 };
        assert(s.remove(k)[i] == s[i0]);
        assert(s.remove(k)[j] == s[j0]);
    }
    assert forall|i: int| 0 <= i < s.remove(k).len() implies s.remove(k)[i].id != s[k].id by {
        let i0: int = if i < k { i } else { i + 1 };
        assert(s.remove(k)[i] == s[i0]);
    }
}

/// Removing a row keeps emails pairwise distinct.
pub proof fn lemma_remove_keeps_emails_unique(s: Seq<UserModel>, k: int)
    requires
        emails_unique(s),
        0 <= k < s.len(),
    ensures
        emails_unique(s.remove(k)),
{
    assert forall|i: int, j: int| 0 <= i < j < s.remove(k).len() implies s.remove(k)[i].email != s.remove(
        k,
    )[j].email by {
        let i0: int = if i < k { i } else { i + 1 };
        let j0: int = if j < k { j } else { j + 1 };
        assert(s.remove(k)[i] == s[i0]);
        assert(s.remove(k)[j] == s[j0]);
    }
}

// ---------------------------------------------------------------------------
// The persistence gateway's interface
// ---------------------------------------------------------------------------

/// The narrow interface of the persistence gateway for the one user table.
/// The lifecycle service depends only on these contracts; any store that
/// meets them can stand behind it.
pub trait UserRepostory: Sized {
    /// The rows the gateway holds, as mathematical models, in store order.
    /// The default stands for gateways outside this crate, whose contents
    /// nothing here reasons about; a verified gateway overrides it.
    open spec fn users(&self) -> Seq<UserModel> {
        Seq::empty()
    }

    /// All rows, in store order.
    fn find_all(&self) -> (r: Vec<User>)
        ensures
            r@.len() == self.users().len(),
            forall|i: int| 0 <= i < r@.len() ==> r@[i]@ == self.users()[i],
    ;

    /// The row with the given identifier, if any.
    fn find_by_id(&self, user_id: String) -> (r: Option<User>)
        requires
            ids_unique(self.users()),
        ensures
            (r is Some) == has_id(self.users(), user_id@),
            r is Some ==> r.unwrap()@ == user_of_id(self.users(), user_id@),
    ;

    /// The row with the given email, if any.
    fn find_by_email(&self, user_email: String) -> (r: Option<User>)
        requires
            emails_unique(self.users()),
        ensures
            (r is Some) == has_email(self.users(), user_email@),
            r is Some ==> r.unwrap()@ == user_of_email(self.users(), user_email@),
    ;

    /// Inserts a new row built from the given email and credential, under a
    /// freshly generated identifier and the current time; the identifier is
    /// returned. `None` is the store refusing the insert (a generated
    /// identifier that was not fresh): nothing changed.
    fn save(&mut self, user: User) -> (r: Option<String>)
        ensures
            r is Some ==> {
                &&& !has_id(old(self).users(), r.unwrap()@)
                &&& r.unwrap()@.len() > 0
                &&& exists|t: i64|
                    final(self).users() == old(self).users().push(
                        created(r.unwrap()@, user@.email, user@.password, t),
                    )
            },
            r is None ==> final(self).users() == old(self).users(),
    ;

    /// Marks the row carrying `user`'s identifier as verified at the given
    /// time, returning the refreshed row; `None` when no row carries it.
    fn set_verified_by_id(&mut self, user: User, verified_time: i64) -> (r: Option<User>)
        requires
            ids_unique(old(self).users()),
        ensures
            (r is Some) == has_id(old(self).users(), user@.id),
            r is Some ==> {
                &&& r.unwrap()@ == verified(user_of_id(old(self).users(), user@.id), verified_time)
                &&& final(self).users() == old(self).users().update(
                    idx_of_id(old(self).users(), user@.id),
                    r.unwrap()@,
                )
            },
            r is None ==> final(self).users() == old(self).users(),
    ;

    /// Removes the row with the given identifier, returning its pre-delete
    /// state; `None` (and no change) when no row carries it.
    fn delete_by_id(&mut self, user_id: String) -> (r: Option<User>)
        requires
            ids_unique(old(self).users()),
        ensures
            (r is Some) == has_id(old(self).users(), user_id@),
            r is Some ==> {
                &&& r.unwrap()@ == user_of_id(old(self).users(), user_id@)
                &&& final(self).users() == old(self).users().remove(
                    idx_of_id(old(self).users(), user_id@),
                )
            },
            r is None ==> final(self).users() == old(self).users(),
            !has_id(final(self).users(), user_id@),
    ;
}

// ---------------------------------------------------------------------------
// The in-memory gateway
// ---------------------------------------------------------------------------

/// The substitutable in-memory persistence gateway: one table of user rows,
/// held in insertion order.
pub struct MemUserRepository {
    store: Vec<User>,
}

impl MemUserRepository {
    /// An empty table.
    pub fn new() -> (r: MemUserRepository)
        ensures
            r.users() == Seq::<UserModel>::empty(),
    {
        let r = MemUserRepository { store: Vec::new() };
        proof {
            assert(r.users() =~= Seq::<UserModel>::empty());
        }
        r
    }

    /// Whether some row carries this identifier.
    pub fn contains_id(&self, user_id: &String) -> (r: bool)
        ensures
            r == has_id(self.users(), user_id@),
    {
        let n = self.store.len();
        let mut i: usize = 0;
        while i < n
            invariant
                n == self.store.len(),
                i <= n,
                forall|j: int| 0 <= j < i ==> self.users()[j].id != user_id@,
            decreases n - i,
        {
            if self.store[i].id == *user_id {
                proof {
                    assert(self.users()[i as int].id == user_id@);
                }
                return true;
            }
            i += 1;
        }
        false
    }

    /// Appends a row built from the given email and credential under a
    /// caller-chosen identifier that no row carries yet, created at the
    /// given time.
    pub fn insert_with(&mut self, user: User, id: String, created_time: i64)
        requires
            !has_id(old(self).users(), id@),
        ensures
            final(self).users() == old(self).users().push(
                created(id@, user@.email, user@.password, created_time),
            ),
    {
        let row = User {
            id: id,
            email: user.email,
            email_verified_at: None,
            password: user.password,
            created_at: Some(created_time),
            updated_at: None,
        };
        self.store.push(row);
        proof {
            assert(self.users() =~= old(self).users().push(
                created(id@, user@.email, user@.password, created_time),
            ));
        }
    }
}

impl UserRepostory for MemUserRepository {
    closed spec fn users(&self) -> Seq<UserModel> {
        self.store@.map_values(|u: User| u@)
    }

    fn find_all(&self) -> (r: Vec<User>) {
        let mut out: Vec<User> = Vec::new();
        let n = self.store.len();
        let mut i: usize = 0;
        while i < n
            invariant
                n == self.store.len(),
                i <= n,
                out@.len() == i,
                forall|j: int| 0 <= j < i ==> out@[j]@ == self.users()[j],
            decreases n - i,
        {
            out.push(self.store[i].clone());
            i += 1;
        }
        out
    }

    fn find_by_id(&self, user_id: String) -> (r: Option<User>) {
        let n = self.store.len();
        let mut i: usize = 0;
        while i < n
            invariant
                n == self.store.len(),
                i <= n,
                ids_unique(self.users()),
                forall|j: int| 0 <= j < i ==> self.users()[j].id != user_id@,
            decreases n - i,
        {
            if self.store[i].id == user_id {
                proof {
                    lemma_unique_id_found(self.users(), user_id@, i as int);
                }
                return Some(self.store[i].clone());
            }
            i += 1;
        }
        None
    }

    fn find_by_email(&self, user_email: String) -> (r: Option<User>) {
        let n = self.store.len();
        let mut i: usize = 0;
        while i < n
            invariant
                n == self.store.len(),
                i <= n,
                emails_unique(self.users()),
                forall|j: int| 0 <= j < i ==> self.users()[j].email != user_email@,
            decreases n - i,
        {
            if self.store[i].email == user_email {
                proof {
                    lemma_unique_email_found(self.users(), user_email@, i as int);
                }
                return Some(self.store[i].clone());
            }
            i += 1;
        }
        None
    }

    fn save(&mut self, user: User) -> (r: Option<String>) {
        let id = fresh_id();
        let local_now = now_seconds();
        if self.contains_id(&id) {
            None
        } else {
            let returned = id.clone();
            self.insert_with(user, id, local_now);
            proof {
                assert(self.users() == old(self).users().push(
                    created(returned@, user@.email, user@.password, local_now),
                ));
            }
            Some(returned)
        }
    }

    fn set_verified_by_id(&mut self, user: User, verified_time: i64) -> (r: Option<User>) {
        let n = self.store.len();
        let mut i: usize = 0;
        while i < n
            invariant
                n == self.store.len(),
                i <= n,
                ids_unique(self.users()),
                self == old(self),
                forall|j: int| 0 <= j < i ==> self.users()[j].id != user@.id,
            decreases n - i,
        {
            if self.store[i].id == user.id {
                proof {
                    lemma_unique_id_found(self.users(), user@.id, i as int);
                }
                let row = User {
                    id: self.store[i].id.clone(),
                    email: self.store[i].email.clone(),
                    email_verified_at: Some(verified_time),
                    password: self.store[i].password.clone(),
                    created_at: self.store[i].created_at,
                    updated_at: Some(verified_time),
                };
                let refreshed = row.clone();
                self.store[i] = row;
                proof {
                    assert(self.users() =~= old(self).users().update(
                        idx_of_id(old(self).users(), user@.id),
                        refreshed@,
                    ));
                }
                return Some(refreshed);
            }
            i += 1;
        }
        None
    }

    fn delete_by_id(&mut self, user_id: String) -> (r: Option<User>) {
        let n = self.store.len();
        let mut i: usize = 0;
        while i < n
            invariant
                n == self.store.len(),
                i <= n,
                ids_unique(self.users()),
                self == old(self),
                forall|j: int| 0 <= j < i ==> self.users()[j].id != user_id@,
            decreases n - i,
        {
            if self.store[i].id == user_id {
                proof {
                    lemma_unique_id_found(self.users(), user_id@, i as int);
                }
                let removed = self.store.remove(i);
                proof {
                    assert(self.users() =~= old(self).users().remove(
                        idx_of_id(old(self).users(), user_id@),
                    ));
                    lemma_remove_keeps_unique(old(self).users(), i as int);
                }
                return Some(removed);
            }
            i += 1;
        }
        None
    }
}

/// When identifiers are pairwise distinct and the row at `k` carries the
/// identifier, `k` is the index the spec helpers name.
proof fn lemma_unique_id_found(s: Seq<UserModel>, id: Seq<char>, k: int)
    requires
        ids_unique(s),
        0 <= k < s.len(),
        s[k].id == id,
    ensures
        has_id(s, id),
        idx_of_id(s, id) == k,
        user_of_id(s, id) == s[k],
{
    assert(has_id(s, id));
    let w = idx_of_id(s, id);
    assert(0 <= w < s.len() && s[w].id == id);
    if w != k {
        assert(s[w].id != s[k].id);
    }
}

/// When emails are pairwise distinct and the row at `k` carries the email,
/// `k` is the index the spec helpers name.
proof fn lemma_unique_email_found(s: Seq<UserModel>, email: Seq<char>, k: int)
    requires
        emails_unique(s),
        0 <= k < s.len(),
        s[k].email == email,
    ensures
        has_email(s, email),
        idx_of_email(s, email) == k,
        user_of_email(s, email) == s[k],
{
    assert(has_email(s, email));
    let w = idx_of_email(s, email);
    assert(0 <= w < s.len() && s[w].email == email);
    if w != k {
        assert(s[w].email != s[k].email);
    }
}

} // verus!
