use vstd::prelude::*;
use crate::user::UserModel;

verus! {

/// The body of a create request. The boundary layer has already checked the
/// email's shape and the password's length before this reaches the service.
pub struct UserRequestDto {
    pub email: String,
    pub password: String,
}

/// The mathematical shape of the outward-facing projection of a user.
pub ghost struct UserViewModel {
    pub id: Seq<char>,
    pub email: Seq<char>,
    pub email_verified_at: Option<i64>,
    pub created_at: Option<i64>,
    pub updated_at: Option<i64>,
}

/// The outward-facing projection of a user: every field of the entity but
/// the credential hash, which never leaves the store.
#[derive(Debug)]
pub struct UserResponseDto {
    pub id: String,
    pub email: String,
    pub email_verified_at: Option<i64>,
    pub created_at: Option<i64>,
    pub updated_at: Option<i64>,
}

impl View for UserResponseDto {
    type V = UserViewModel;

    open spec fn view(&self) -> UserViewModel {
        UserViewModel {
            id: self.id@,
            email: self.email@,
            email_verified_at: self.email_verified_at,
            created_at: self.created_at,
            updated_at: self.updated_at,
        }
    }
}

/// What projecting a user row to its outward view keeps: everything but the
/// credential.
pub open spec fn user_view(u: UserModel) -> UserViewModel {
    UserViewModel {
        id: u.id,
        email: u.email,
        email_verified_at: u.email_verified_at,
        created_at: u.created_at,
        updated_at: u.updated_at,
    }
}

} // verus!
