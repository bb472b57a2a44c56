use vstd::prelude::*;
use crate::dto::{UserResponseDto, user_view};
use crate::user::User;

verus! {

/// Maps a user row to its outward-facing projection, dropping the
/// credential hash.
pub fn user_to_response(user: &User) -> (r: UserResponseDto)
    ensures
        r@ == user_view(user@),
{
    UserResponseDto {
        id: user.id.clone(),
        email: user.email.clone(),
        email_verified_at: user.email_verified_at,
        created_at: user.created_at,
        updated_at: user.updated_at,
    }
}

} // verus!
