//! A plain login form.

use vstd::prelude::*;

use crate::auth::{LoginRequest, RegisterRequest};
use crate::request::Request;

verus! {

/// A message of the login form.
#[derive(Debug, Clone)]
pub enum Message {
    Submit(Request),
    InputUsername(String),
    InputEmail(String),
    InputPassword(String),
    ClickRegister,
    ClickLogin,
    Clear,
}

/// A login form.
#[derive(Debug, Clone)]
pub struct LoginPage {
    pub username: String,
    pub email: String,
    pub password: String,
}

impl LoginPage {
    /// An empty form.
    pub fn new() -> (res: (Self, Option<Message>))
        ensures
            res.0.username@.len() == 0,
            res.0.email@.len() == 0,
            res.0.password@.len() == 0,
            res.1 is None,
    {
        (LoginPage { username: String::new(), email: String::new(), password: String::new() }, None)
    }

    /// What handling `message` does: `new` is the form after it and `res`
    /// the message sent on.
    pub open spec fn updated(old: LoginPage, message: Message, new: LoginPage, res: Option<Message>) -> bool {
        match message {
            Message::InputUsername(u) => res is None && new == LoginPage { username: u, ..old },
            Message::InputEmail(e) => res is None && new == LoginPage { email: e, ..old },
            Message::InputPassword(p) => res is None && new == LoginPage { password: p, ..old },
            Message::ClickLogin => new == old && (res matches Some(
                Message::Submit(Request::Login(r)),
            ) && r.username == old.username && r.password == old.password),
            Message::ClickRegister => new == old && (res matches Some(
                Message::Submit(Request::Register(r)),
            ) && r.username == old.username && r.email == old.email && r.password
                == old.password),
            _ => res is None && new.username@.len() == 0 && new.email@.len() == 0
                && new.password@.len() == 0,
        }
    }

    /// Handles a message and gives the message to send on, if any: input
    /// fills the form, the buttons submit it as it is, anything else
    /// empties it.
    pub fn update(&mut self, message: Message) -> (res: Option<Message>)
        ensures
            Self::updated(*old(self), message, *final(self), res),
    {
        match message {
            Message::InputUsername(username) => {
                self.username = username;
                None
            },
            Message::InputEmail(email) => {
                self.email = email;
                None
            },
            Message::InputPassword(password) => {
                self.password = password;
                None
            },
            Message::ClickLogin => Some(
                Message::Submit(
                    Request::Login(
                        LoginRequest { username: self.username.clone(), password: self.password.clone() },
                    ),
                ),
            ),
            Message::ClickRegister => Some(
                Message::Submit(
                    Request::Register(
                        RegisterRequest {
                            username: self.username.clone(),
                            email: self.email.clone(),
                            password: self.password.clone(),
                        },
                    ),
                ),
            ),
            _ => {
                self.username = String::new();
                self.email = String::new();
                self.password = String::new();
                None
            },
        }
    }
}

/// The login form submits what is typed into it: logging in sends the
/// username and password, registering sends the username, email and
/// password, and neither changes the form.
pub proof fn lemma_login_form_submits(old: LoginPage, message: Message, new: LoginPage, res: Option<Message>)
    requires
        LoginPage::updated(old, message, new, res),
    ensures
        message is ClickLogin ==> new == old && res == Some(
            Message::Submit(
                Request::Login(LoginRequest { username: old.username, password: old.password }),
            ),
        ),
        message is ClickRegister ==> new == old && res == Some(
            Message::Submit(
                Request::Register(
                    RegisterRequest {
                        username: old.username,
                        email: old.email,
                        password: old.password,
                    },
                ),
            ),
        ),
{
}

} // verus!
