use vstd::prelude::*;
use crate::repository::{created, has_id, ids_unique, idx_of_id, user_of_id, verified};
use crate::user::UserModel;

verus! {

/// After a successful create (the store grew by one row built by `created`
/// under an identifier no row carried), looking that identifier up finds
/// exactly the new row: the email matches and no verification timestamp is
/// set yet.
pub proof fn lemma_created_user_is_found(
    s: Seq<UserModel>,
    id: Seq<char>,
    email: Seq<char>,
    password: Seq<char>,
    t: i64,
)
    requires
        !has_id(s, id),
    ensures
        has_id(s.push(created(id, email, password, t)), id),
        user_of_id(s.push(created(id, email, password, t)), id) == created(id, email, password, t),
        user_of_id(s.push(created(id, email, password, t)), id).email == email,
        user_of_id(s.push(created(id, email, password, t)), id).email_verified_at is None,
{
    let grown = s.push(created(id, email, password, t));
    assert(grown[s.len() as int].id == id);
    let w = idx_of_id(grown, id);
    assert(0 <= w < grown.len() && grown[w].id == id);
    if w < s.len() {
        assert(s[w].id == id);
        assert(has_id(s, id));
    }
}

/// After a successful verification (the row carrying the identifier was
/// replaced by its verified form), looking the identifier up finds exactly
/// that verified row, whose verification timestamp is set.
pub proof fn lemma_verified_user_is_found(s: Seq<UserModel>, id: Seq<char>, t: i64)
    requires
        ids_unique(s),
        has_id(s, id),
    ensures
        has_id(s.update(idx_of_id(s, id), verified(user_of_id(s, id), t)), id),
        user_of_id(s.update(idx_of_id(s, id), verified(user_of_id(s, id), t)), id) == verified(
            user_of_id(s, id),
            t,
        ),
        user_of_id(
            s.update(idx_of_id(s, id), verified(user_of_id(s, id), t)),
            id,
        ).email_verified_at == Some(t),
{
    let k = idx_of_id(s, id);
    assert(0 <= k < s.len() && s[k].id == id);
    let changed = s.update(k, verified(user_of_id(s, id), t));
    assert(changed[k].id == id);
    let w = idx_of_id(changed, id);
    assert(0 <= w < changed.len() && changed[w].id == id);
    if w != k {
        assert(changed[w] == s[w]);
        assert(s[w].id != s[k].id);
    }
}

/// Verification never unverifies: replacing the one unverified row at `k`
/// by its verified form keeps every identifier in place and keeps every
/// verification timestamp that was already set.
pub proof fn lemma_verification_monotone(s: Seq<UserModel>, k: int, t: i64)
    requires
        0 <= k < s.len(),
        s[k].email_verified_at is None,
    ensures
        s.update(k, verified(s[k], t)).len() == s.len(),
        forall|j: int|
            0 <= j < s.len() ==> s.update(k, verified(s[k], t))[j].id == s[j].id,
        forall|j: int|
            0 <= j < s.len() && s[j].email_verified_at is Some ==> s.update(
                k,
                verified(s[k], t),
            )[j].email_verified_at == s[j].email_verified_at,
{
}

} // verus!
