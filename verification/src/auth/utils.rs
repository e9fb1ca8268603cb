use vstd::prelude::*;
use crate::auth::token::{hs256_subject, jwt_shaped, subject_user, token_user};

verus! {

/// Why a token was refused.
pub enum TokenError {
    /// Answer 401.
    Unauthorized,
}

/// The user of a WebSocket's `token` query parameter, checked with the
/// secret (`JWT_SECRET`, or `secret` where it is not set).
pub fn get_user_from_token(token: &str, secret: &str) -> (r: Result<u128, TokenError>)
    ensures
        r matches Ok(u) ==> subject_user(hs256_subject(token@, secret@)) == Some(u),
        subject_user(hs256_subject(token@, secret@)) is None ==> r is Err,
        !jwt_shaped(token@) ==> r is Err,
{
    match token_user(token, secret) {
        Some(u) => Ok(u),
        None => Err(TokenError::Unauthorized),
    }
}

} // verus!
