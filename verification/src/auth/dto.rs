use vstd::prelude::*;

verus! {

/// Sign-up request.
pub struct RegisterRequestDTO {
    pub email: String,
    pub password: Option<String>,
    pub first_name: Option<String>,
    pub last_name: Option<String>,
}

/// The key from the confirmation e-mail.
pub struct CheckEmailCodeDTO {
    pub key: String,
}

/// Log-in request.
pub struct AuthRequestDTO {
    pub email: String,
    pub password: String,
}

/// Tokens handed out at log-in.
pub struct AuthResponseDTO {
    pub access_token: String,
    pub access_expires_in: i64,
    pub refresh_token: String,
    pub refresh_expires_in: i64,
}

/// Refresh request.
pub struct AuthRefreshTokenDTO {
    pub refresh_token: String,
}

/// The claims of an access token: the user and the expiry (seconds since the
/// Unix epoch).
pub struct Claims {
    pub sub: u128,
    pub exp: usize,
}

} // verus!
