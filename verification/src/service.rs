use vstd::prelude::*;
use vstd::string::StringExecFns;
use crate::dto::{UserRequestDto, UserResponseDto, user_view};
use crate::marker_store::{MarkerModel, MarkerStore, keys_unique, upsert};
use crate::repository::{
    UserRepostory, created, emails_unique, has_email, has_id, ids_unique, idx_of_email, idx_of_id,
    lemma_push_keeps_unique, lemma_remove_keeps_emails_unique, lemma_remove_keeps_unique,
    lemma_update_keeps_unique, user_of_id, verified,
};
use crate::service_error::{ServiceError, bracketed, bracketed_message};
use crate::user::{User, UserModel, now_seconds};

verus! {

/// The time-to-live, in seconds, of the transient verification marker.
pub const VERIFICATION_MARKER_TTL_SECONDS: i64 = 20;

/// The marker key under which a user's verification event is recorded.
pub open spec fn verification_marker_key(id: Seq<char>) -> Seq<char> {
    "USER_VERIFIED_"@ + id
}

/// The message of the conflict raised for an email that is already taken.
pub open spec fn conflict_message(email: Seq<char>) -> Seq<char> {
    bracketed("user with given id ["@, email, "] is already exist"@)
}

/// The message raised for an identifier no row carries.
pub open spec fn not_found_message(id: Seq<char>) -> Seq<char> {
    bracketed("User with given id ["@, id, "] is not exist"@)
}

/// The message raised when verifying a user who already is.
pub open spec fn already_verified_message(id: Seq<char>) -> Seq<char> {
    bracketed("User with given id ["@, id, "] is already being verified"@)
}

#[verifier::external_type_specification]
#[verifier::external_body]
pub struct ExBcryptError(bcrypt::BcryptError);

/// Relies on `bcrypt::hash` with the crate's default cost: a successful
/// result is the full bcrypt hash string, which is always exactly 60
/// characters long and starts with '$'. The salt is drawn from the operating
/// system's randomness, so nothing more holds of the result, and the call
/// fails only when that randomness source does.
#[verifier::external_body]
fn hash_password(password: &str) -> (r: Result<String, bcrypt::BcryptError>)
    ensures
        r is Ok ==> r.unwrap()@.len() == 60 && r.unwrap()@[0] == '$',
{
    bcrypt::hash(password, bcrypt::DEFAULT_COST)
}

/// The user lifecycle service: enforces email uniqueness and verification
/// idempotence, hashes credentials before anything persists, and sequences
/// its two collaborators, the persistence gateway and the marker store.
pub struct UserService<R: UserRepostory, M: MarkerStore> {
    pub repo: R,
    pub markers: M,
}

impl<R: UserRepostory, M: MarkerStore> UserService<R, M> {
    /// The user rows the persistence gateway holds.
    pub open spec fn users(&self) -> Seq<UserModel> {
        self.repo.users()
    }

    /// The markers the marker store holds.
    pub open spec fn marker_log(&self) -> Seq<MarkerModel> {
        self.markers.markers()
    }

    /// The service's invariant: at most one row per identifier and per
    /// email, and at most one marker per key. Every operation preserves it.
    pub open spec fn wf(&self) -> bool {
        &&& ids_unique(self.users())
        &&& emails_unique(self.users())
        &&& keys_unique(self.marker_log())
    }

    pub fn new(repo: R, markers: M) -> (r: UserService<R, M>)
        requires
            ids_unique(repo.users()),
            emails_unique(repo.users()),
            keys_unique(markers.markers()),
        ensures
            r.users() == repo.users(),
            r.marker_log() == markers.markers(),
            r.wf(),
    {
        UserService { repo, markers }
    }

    /// Every row, projected to the outward-facing view, in store order.
    pub fn find_all(&self) -> (r: Vec<UserResponseDto>)
        ensures
            r@.len() == self.users().len(),
            forall|i: int| 0 <= i < r@.len() ==> r@[i]@ == user_view(self.users()[i]),
    {
        let rows = self.repo.find_all();
        let mut out: Vec<UserResponseDto> = Vec::new();
        let n = rows.len();
        let mut i: usize = 0;
        while i < n
            invariant
                n == rows.len(),
                i <= n,
                out@.len() == i,
                rows@.len() == self.users().len(),
                forall|j: int| 0 <= j < rows@.len() ==> rows@[j]@ == self.users()[j],
                forall|j: int| 0 <= j < i ==> out@[j]@ == user_view(self.users()[j]),
            decreases n - i,
        {
            out.push(crate::mapper::user_to_response(&rows[i]));
            i += 1;
        }
        out
    }

    /// The outward-facing view of the row with this identifier; absence is
    /// an empty option, not an error.
    pub fn find_by_id(&self, user_id: String) -> (r: Option<UserResponseDto>)
        requires
            self.wf(),
        ensures
            (r is Some) == has_id(self.users(), user_id@),
            r is Some ==> r.unwrap()@ == user_view(user_of_id(self.users(), user_id@)),
    {
        match self.repo.find_by_id(user_id) {
            Some(user) => Some(crate::mapper::user_to_response(&user)),
            None => None,
        }
    }

    /// Creates a user from the request: fails with a conflict when the email
    /// is already taken (the store is left unchanged), and otherwise hashes
    /// the credential, persists a new unverified row under a fresh
    /// identifier, and returns that identifier. A collaborator failure
    /// surfaces as an operational error, with the store left unchanged.
    pub fn save(&mut self, dto: UserRequestDto) -> (r: Result<String, ServiceError>)
        requires
            old(self).wf(),
        ensures
            final(self).wf(),
            final(self).marker_log() == old(self).marker_log(),
            has_email(old(self).users(), dto.email@) ==> r is Err
                && (r->Err_0).is_conflict()
                && (r->Err_0).message@ == conflict_message(dto.email@)
                && final(self).users() == old(self).users(),
            !has_email(old(self).users(), dto.email@) && r is Err ==> (r->Err_0).is_operational()
                && final(self).users() == old(self).users(),
            r is Ok ==> !has_email(old(self).users(), dto.email@)
                && !has_id(old(self).users(), (r->Ok_0)@)
                && (r->Ok_0)@.len() > 0
                && (exists|h: Seq<char>, t: i64|
                    #![auto]
                    h.len() == 60 && h[0] == '$' && final(self).users() == old(self).users().push(
                        created((r->Ok_0)@, dto.email@, h, t),
                    )),
            r is Ok && dto.password@.len() != 60 ==> final(self).users().last().password
                != dto.password@,
    {
        match self.repo.find_by_email(dto.email.clone()) {
            Some(existing) => {
                proof {
                    let s = old(self).users();
                    assert(s[idx_of_email(s, dto.email@)].email == dto.email@);
                }
                Err(ServiceError {
                    message: bracketed_message(
                        "user with given id [",
                        existing.email.as_str(),
                        "] is already exist",
                    ),
                    status: 422,
                    success: false,
                })
            },
            None => {
                let mut user = User::new(dto.email, dto.password);
                match hash_password(user.password.as_str()) {
                    Result::Ok(hashed) => {
                        user.password = hashed;
                        let ghost hash_view = user.password@;
                        match self.repo.save(user) {
                            Some(created_id) => {
                                proof {
                                    let s = old(self).users();
                                    let t = choose|t: i64|
                                        final(self).users() == s.push(
                                            created(created_id@, dto.email@, hash_view, t),
                                        );
                                    lemma_push_keeps_unique(
                                        s,
                                        created(created_id@, dto.email@, hash_view, t),
                                    );
                                }
                                Ok(created_id)
                            },
                            None => Err(ServiceError {
                                message: String::from_str("failed to persist the new user"),
                                status: 500,
                                success: false,
                            }),
                        }
                    },
                    Result::Err(_) => Err(ServiceError {
                        message: String::from_str("failed to hash the supplied credential"),
                        status: 500,
                        success: false,
                    }),
                }
            },
        }
    }

    /// Marks the user as verified: fails as not-found for an unknown
    /// identifier and as already-verified for a user who is (both leave
    /// every store unchanged); otherwise records the transient marker, sets
    /// the verification and update timestamps, and returns the refreshed
    /// view. A marker store failure surfaces as an operational error before
    /// anything changes.
    pub fn set_verified(&mut self, user_id: String) -> (r: Result<
        Option<UserResponseDto>,
        ServiceError,
    >)
        requires
            old(self).wf(),
        ensures
            final(self).wf(),
            !has_id(old(self).users(), user_id@) ==> r is Err
                && (r->Err_0).is_not_found()
                && (r->Err_0).message@ == not_found_message(user_id@)
                && final(self).users() == old(self).users()
                && final(self).marker_log() == old(self).marker_log(),
            has_id(old(self).users(), user_id@) && user_of_id(old(self).users(), user_id@).email_verified_at is Some
                ==> r is Err
                && (r->Err_0).is_already_verified()
                && (r->Err_0).message@ == already_verified_message(user_id@)
                && final(self).users() == old(self).users()
                && final(self).marker_log() == old(self).marker_log(),
            has_id(old(self).users(), user_id@) && user_of_id(old(self).users(), user_id@).email_verified_at is None
                && r is Err ==> (r->Err_0).is_operational()
                && final(self).users() == old(self).users()
                && final(self).marker_log() == old(self).marker_log(),
            r is Ok ==> has_id(old(self).users(), user_id@)
                && user_of_id(old(self).users(), user_id@).email_verified_at is None
                && (r->Ok_0) is Some
                && (r->Ok_0).unwrap()@.email_verified_at is Some
                && (exists|t: i64|
                    #![auto]
                    final(self).users() == old(self).users().update(
                        idx_of_id(old(self).users(), user_id@),
                        verified(user_of_id(old(self).users(), user_id@), t),
                    ) && (r->Ok_0).unwrap()@ == user_view(
                        verified(user_of_id(old(self).users(), user_id@), t),
                    ))
                && final(self).marker_log() == upsert(
                    old(self).marker_log(),
                    (MarkerModel {
                        key: verification_marker_key(user_id@),
                        value: "OK"@,
                        ttl_seconds: VERIFICATION_MARKER_TTL_SECONDS,
                    }),
                ),
    {
        match self.repo.find_by_id(user_id.clone()) {
            None => Err(ServiceError {
                message: bracketed_message(
                    "User with given id [",
                    user_id.as_str(),
                    "] is not exist",
                ),
                success: false,
                status: 404,
            }),
            Some(user) => {
                if user.email_verified_at.is_some() {
                    return Err(ServiceError {
                        message: bracketed_message(
                            "User with given id [",
                            user_id.as_str(),
                            "] is already being verified",
                        ),
                        success: true,
                        status: 200,
                    });
                }
                let local_now = now_seconds();
                let mut redis_key = String::from_str("USER_VERIFIED_");
                redis_key.append(user_id.as_str());
                let stored = self.markers.set_with_expiry(
                    redis_key,
                    String::from_str("OK"),
                    VERIFICATION_MARKER_TTL_SECONDS,
                );
                if !stored {
                    return Err(ServiceError {
                        message: String::from_str("failed to record the verification marker"),
                        success: false,
                        status: 500,
                    });
                }
                proof {
                    let s = old(self).users();
                    assert(s[idx_of_id(s, user_id@)].id == user_id@);
                }
                match self.repo.set_verified_by_id(user, local_now) {
                    Some(updated) => {
                        proof {
                            let s = old(self).users();
                            lemma_update_keeps_unique(
                                s,
                                idx_of_id(s, user_id@),
                                verified(user_of_id(s, user_id@), local_now),
                            );
                        }
                        Ok(Some(crate::mapper::user_to_response(&updated)))
                    },
                    None => vstd::pervasive::unreached(),
                }
            },
        }
    }

    /// Removes the row with this identifier and returns its pre-delete
    /// view; an unknown identifier returns empty without error.
    pub fn delete_by_id(&mut self, user_id: String) -> (r: Option<UserResponseDto>)
        requires
            old(self).wf(),
        ensures
            final(self).wf(),
            final(self).marker_log() == old(self).marker_log(),
            (r is Some) == has_id(old(self).users(), user_id@),
            r is Some ==> r.unwrap()@ == user_view(user_of_id(old(self).users(), user_id@))
                && final(self).users() == old(self).users().remove(
                    idx_of_id(old(self).users(), user_id@),
                ),
            r is None ==> final(self).users() == old(self).users(),
            !has_id(final(self).users(), user_id@),
    {
        match self.repo.delete_by_id(user_id) {
            Some(user) => {
                proof {
                    let s = old(self).users();
                    lemma_remove_keeps_unique(s, idx_of_id(s, user_id@));
                    lemma_remove_keeps_emails_unique(s, idx_of_id(s, user_id@));
                }
                Some(crate::mapper::user_to_response(&user))
            },
            None => None,
        }
    }
}

} // verus!
