//! Authentication requests and responses.

use vstd::prelude::*;

use crate::user::UserInfoResponse;

verus! {

/// A request to check a token.
#[derive(Debug, Clone)]
pub struct AuthRequest {
    pub token: String,
}

/// A request to log in.
#[derive(Debug, Clone)]
pub struct LoginRequest {
    pub username: String,
    pub password: String,
}

/// A request to open an account.
#[derive(Debug, Clone)]
pub struct RegisterRequest {
    pub username: String,
    pub email: String,
    pub password: String,
}

/// The answer to a token check: a renewed token, if any.
#[derive(Debug, Clone)]
pub struct TokenResponse {
    pub token: Option<String>,
}

/// The answer to a login or a registration.
#[derive(Debug, Clone)]
pub struct AuthResponse {
    pub user: UserInfoResponse,
    pub token: String,
}

} // verus!
