//! Users of the API.

use vstd::prelude::*;

use crate::notebook::NotebookListResponse;

verus! {

/// A change to a user's account; absent fields stay as they are.
#[derive(Debug, Clone)]
pub struct EditUserRequest {
    pub username: Option<String>,
    pub email: Option<String>,
    pub password: Option<String>,
    pub avatar: Option<Vec<u8>>,
}

/// What others see of a user.
#[derive(Debug, Clone)]
pub struct UserPreviewResponse {
    pub id: i64,
    pub username: String,
    pub avatar: Option<Vec<u8>>,
}

/// A user's own account.
#[derive(Debug, Clone)]
pub struct UserInfoResponse {
    pub id: i64,
    pub username: String,
    pub email: String,
    pub avatar: Vec<u8>,
}

/// A user's profile with their notebooks.
#[derive(Debug, Clone)]
pub struct UserResponse {
    pub id: i64,
    pub username: String,
    pub avatar: Option<Vec<u8>>,
    pub created_at: String,
    pub notebooks: NotebookListResponse,
}

} // verus!
