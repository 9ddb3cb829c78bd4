//! The state of an API client: the server it talks to and the token it
//! signs requests with, and what it expects back for each request.

use vstd::prelude::*;

use crate::auth::{AuthRequest, LoginRequest, RegisterRequest};
use crate::endpoint::Method;
use crate::notebook::{CreateNotebookCommentRequest, CreateNotebookRequest, EditNotebookRequest};
use crate::request::Request;
use crate::user::EditUserRequest;
use crate::text::concat;

verus! {

/// The server a client talks to and the token it holds, if any.
#[derive(Debug, Clone)]
pub struct Client {
    pub base_url: String,
    pub token: Option<String>,
}

/// The kind of response a request is answered with.
#[derive(Debug, Clone, Copy, PartialEq, Eq, Structural)]
pub enum ResponseKind {
    Token,
    Auth,
    User,
    NotebookList,
    Notebook,
    CommentList,
    Comment,
}

/// The kind of response that answers a request: a token check gets a token,
/// a login or registration an account, user requests a profile, notebook
/// requests a notebook, and a new comment the comment.
pub open spec fn expected_kind(request: Request) -> ResponseKind {
    match request {
        Request::Auth(_) => ResponseKind::Token,
        Request::Login(_) | Request::Register(_) => ResponseKind::Auth,
        Request::GetSelf | Request::GetUser(_) | Request::EditUser(_) => ResponseKind::User,
        Request::GetNotebook(_)
        | Request::CreateNotebook(_)
        | Request::EditNotebook(_, _)
        | Request::RemoveNotebook(_)
        | Request::LikeNotebook(_)
        | Request::UnlikeNotebook(_) => ResponseKind::Notebook,
        Request::CreateComment(_, _) => ResponseKind::Comment,
    }
}

/// The kind of response that answers `request`.
pub fn response_kind(request: &Request) -> (res: ResponseKind)
    ensures
        res == expected_kind(*request),
{
    match request {
        Request::Auth(_) => ResponseKind::Token,
        Request::Login(_) | Request::Register(_) => ResponseKind::Auth,
        Request::GetSelf | Request::GetUser(_) | Request::EditUser(_) => ResponseKind::User,
        Request::GetNotebook(_)
        | Request::CreateNotebook(_)
        | Request::EditNotebook(_, _)
        | Request::RemoveNotebook(_)
        | Request::LikeNotebook(_)
        | Request::UnlikeNotebook(_) => ResponseKind::Notebook,
        Request::CreateComment(_, _) => ResponseKind::Comment,
    }
}

impl Client {
    /// A client of the server at `base_url`, holding no token.
    pub fn new(base_url: &str) -> (res: Self)
        ensures
            res.base_url@ == base_url@,
            res.token is None,
    {
        Client { base_url: base_url.to_owned(), token: None }
    }

    /// The server's address.
    pub fn url(&self) -> (res: &str)
        ensures
            res@ == self.base_url@,
    {
        self.base_url.as_str()
    }

    /// The token the client holds, if any.
    pub fn token(&self) -> (res: Option<&str>)
        ensures
            match self.token {
                Some(t) => res matches Some(r) && r@ == t@,
                None => res is None,
            },
    {
        match &self.token {
            Some(t) => Some(t.as_str()),
            None => None,
        }
    }

    /// Holds `token` from now on.
    pub fn set_token(&mut self, token: String)
        ensures
            final(self).base_url == old(self).base_url,
            final(self).token == Some(token),
    {
        self.token = Some(token);
    }

    /// Drops the token.
    pub fn clear_token(&mut self)
        ensures
            final(self).base_url == old(self).base_url,
            final(self).token is None,
    {
        self.token = None;
    }

    /// The address of `path` on the server: the server's address followed
    /// by the path.
    pub fn endpoint_url(&self, path: &str) -> (res: String)
        ensures
            res@ == self.base_url@ + path@,
    {
        concat(self.base_url.as_str(), path)
    }

    /// The value of the authorization header: `Bearer ` and the token, when
    /// the client holds one.
    pub fn authorization(&self) -> (res: Option<String>)
        ensures
            match self.token {
                Some(t) => res matches Some(h) && h@ == "Bearer "@ + t@,
                None => res is None,
            },
    {
        match &self.token {
            Some(t) => Some(concat("Bearer ", t.as_str())),
            None => None,
        }
    }
}

/// The methods the client sends requests with.
#[derive(Debug, Clone, Copy, PartialEq, Eq, Structural)]
pub enum Verb {
    Get,
    Post,
    Put,
    Delete,
    Patch,
}

/// The verb a method is sent with: `GET`, `POST`, `PUT`, `DELETE` and
/// `PATCH` are sent, no other method is.
pub open spec fn verb_of(method: Method) -> Option<Verb> {
    match method {
        Method::Get => Some(Verb::Get),
        Method::Post => Some(Verb::Post),
        Method::Put => Some(Verb::Put),
        Method::Delete => Some(Verb::Delete),
        Method::Patch => Some(Verb::Patch),
        _ => None,
    }
}

/// The verb to send an endpoint's method with, or, for a method the client
/// does not send, the error text `Unsupported method: ` and its name.
pub fn verb_for(method: &Method) -> (res: Result<Verb, String>)
    ensures
        match res {
            Ok(v) => verb_of(*method) == Some(v),
            Err(e) => verb_of(*method) is None && e@ == "Unsupported method: "@ + method.name(),
        },
{
    match method {
        Method::Get => Ok(Verb::Get),
        Method::Post => Ok(Verb::Post),
        Method::Put => Ok(Verb::Put),
        Method::Delete => Ok(Verb::Delete),
        Method::Patch => Ok(Verb::Patch),
        other => Err(concat("Unsupported method: ", other.as_str())),
    }
}

/// What answers each request: logging in and registering are both
/// answered with an account and its token, a token check with a token,
/// the user requests with a profile, the notebook requests with a
/// notebook, and a new comment with that comment.
pub proof fn lemma_requests_and_their_answers(
    a: AuthRequest,
    l: LoginRequest,
    r: RegisterRequest,
    e: EditUserRequest,
    c: CreateNotebookRequest,
    n: EditNotebookRequest,
    k: CreateNotebookCommentRequest,
    id: u64,
)
    ensures
        expected_kind(Request::Login(l)) == ResponseKind::Auth,
        expected_kind(Request::Register(r)) == ResponseKind::Auth,
        expected_kind(Request::Login(l)) == expected_kind(Request::Register(r)),
        expected_kind(Request::Auth(a)) == ResponseKind::Token,
        expected_kind(Request::GetSelf) == ResponseKind::User,
        expected_kind(Request::GetUser(id)) == ResponseKind::User,
        expected_kind(Request::EditUser(e)) == ResponseKind::User,
        expected_kind(Request::GetNotebook(id)) == ResponseKind::Notebook,
        expected_kind(Request::CreateNotebook(c)) == ResponseKind::Notebook,
        expected_kind(Request::EditNotebook(id, n)) == ResponseKind::Notebook,
        expected_kind(Request::RemoveNotebook(id)) == ResponseKind::Notebook,
        expected_kind(Request::LikeNotebook(id)) == ResponseKind::Notebook,
        expected_kind(Request::UnlikeNotebook(id)) == ResponseKind::Notebook,
        expected_kind(Request::CreateComment(id, k)) == ResponseKind::Comment,
{
}

/// The client sends exactly the five methods GET, POST, PUT, DELETE and
/// PATCH, each under its own verb, and refuses every other method.
pub proof fn lemma_verbs(m: Method)
    ensures
        verb_of(Method::Get) == Some(Verb::Get),
        verb_of(Method::Post) == Some(Verb::Post),
        verb_of(Method::Put) == Some(Verb::Put),
        verb_of(Method::Delete) == Some(Verb::Delete),
        verb_of(Method::Patch) == Some(Verb::Patch),
        verb_of(m) is Some <==> (m is Get || m is Post || m is Put || m is Delete || m is Patch),
{
}

} // verus!
