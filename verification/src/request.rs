//! The requests a client makes of the API and the responses it gets.

use vstd::prelude::*;

use crate::auth::{AuthRequest, AuthResponse, LoginRequest, RegisterRequest, TokenResponse};
use crate::notebook::{
    CreateNotebookCommentRequest, CreateNotebookRequest, EditNotebookRequest,
    NotebookCommentListResponse, NotebookListResponse, NotebookResponse,
};
use crate::user::{EditUserRequest, UserResponse};

verus! {

/// A request to the API.
#[derive(Debug, Clone)]
pub enum Request {
    Auth(AuthRequest),
    Login(LoginRequest),
    Register(RegisterRequest),
    GetSelf,
    GetUser(u64),
    EditUser(EditUserRequest),
    GetNotebook(u64),
    CreateNotebook(CreateNotebookRequest),
    EditNotebook(u64, EditNotebookRequest),
    RemoveNotebook(u64),
    LikeNotebook(u64),
    UnlikeNotebook(u64),
    CreateComment(u64, CreateNotebookCommentRequest),
}

/// A response of the API.
#[derive(Debug, Clone)]
pub enum Response {
    Token(TokenResponse),
    Auth(AuthResponse),
    User(UserResponse),
    NotebookList(NotebookListResponse),
    Notebook(NotebookResponse),
    CommentList(NotebookCommentListResponse),
}

} // verus!
