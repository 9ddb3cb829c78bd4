//! The sign-in page: logging in or opening an account.

use vstd::prelude::*;

use crate::auth::{LoginRequest, RegisterRequest};
use crate::request::Request;

verus! {

/// A message of the sign-in page.
#[derive(Debug, Clone)]
pub enum Message {
    Error(String),
    Submit(Request),
    Switch(AuthState),
    InputUsername(String),
    InputEmail(String),
    InputPassword(String),
    ToggleShowPassword,
    ClickRegister,
    ClickLogin,
    Clear,
}

/// Whether the page logs in or registers.
#[derive(Debug, Clone, Copy, PartialEq, Eq, Structural)]
pub enum AuthState {
    Login,
    Register,
}

/// The sign-in page.
#[derive(Debug, Clone)]
pub struct AuthPage {
    pub state: AuthState,
    pub username: String,
    pub email: String,
    pub password: String,
    pub show_password: bool,
    pub error_message: Option<String>,
}

impl AuthPage {
    /// Whether two pages agree on everything but the error message.
    pub open spec fn same_form(self, other: AuthPage) -> bool {
        &&& self.state == other.state
        &&& self.username == other.username
        &&& self.email == other.email
        &&& self.password == other.password
        &&& self.show_password == other.show_password
    }

    /// An empty login form.
    pub fn new() -> (res: (Self, Option<Message>))
        ensures
            res.0.state == AuthState::Login,
            res.0.username@.len() == 0,
            res.0.email@.len() == 0,
            res.0.password@.len() == 0,
            !res.0.show_password,
            res.0.error_message is None,
            res.1 is None,
    {
        (
            AuthPage {
                state: AuthState::Login,
                username: String::new(),
                email: String::new(),
                password: String::new(),
                show_password: false,
                error_message: None,
            },
            None,
        )
    }

    /// What handling `message` does: `new` is the page after it and `res` the message sent on.
    pub open spec fn updated(old: AuthPage, message: Message, new: AuthPage, res: Option<Message>) -> bool {
        match message {
            Message::Error(e) => res is None && new.same_form(old)
                && new.error_message == Some(e),
            Message::Switch(s) => res is None && new.state == s && new.username
                == old.username && new.email == old.email
                && new.password == old.password && new.show_password
                == old.show_password && new.error_message is None,
            Message::InputUsername(u) => res is None && new.username == u
                && new.state == old.state && new.email == old.email
                && new.password == old.password && new.show_password
                == old.show_password && new.error_message is None,
            Message::InputEmail(e) => res is None && new.email == e
                && new.state == old.state && new.username
                == old.username && new.password == old.password
                && new.show_password == old.show_password
                && new.error_message is None,
            Message::InputPassword(p) => res is None && new.password == p
                && new.state == old.state && new.username
                == old.username && new.email == old.email
                && new.show_password == old.show_password
                && new.error_message is None,
            Message::ToggleShowPassword => res is None && new.show_password
                == !old.show_password && new.state == old.state
                && new.username == old.username && new.email
                == old.email && new.password == old.password
                && new.error_message == old.error_message,
            Message::ClickLogin => new.same_form(old) && if old.username@.len() == 0 || old.password@.len() == 0 {
                (new.error_message matches Some(m) && m@
                    == "Username and password are required"@) && res is None
            } else {
                (res matches Some(
                    Message::Submit(Request::Login(r)),
                ) && r.username == old.username && r.password == old.password)
                    && new.error_message is None
            },
            Message::ClickRegister => new.same_form(old) && if old.username@.len() == 0 || old.email@.len() == 0 || old.password@.len()
                == 0 {
                (new.error_message matches Some(m) && m@
                    == "All fields are required"@) && res is None
            } else {
                (res matches Some(
                    Message::Submit(Request::Register(r)),
                ) && r.username == old.username && r.email == old.email
                    && r.password == old.password) && new.error_message is None
            },
            _ => res is None && new.username@.len() == 0 && new.email@.len()
                == 0 && new.password@.len() == 0 && new.error_message is None
                && new.state == old.state && new.show_password
                == old.show_password,
        }
    }

    /// Handles a message and gives the message to send on, if any. Input
    /// and switching clear the error; a login needs a username and a
    /// password, a registration all three fields, else an error is shown
    /// and nothing is submitted; a submission or a clear empties the form.
    pub fn update(&mut self, message: Message) -> (res: Option<Message>)
        ensures
            Self::updated(*old(self), message, *final(self), res),
    {
        match message {
            Message::Error(error) => {
                self.error_message = Some(error);
                None
            },
            Message::Switch(state) => {
                self.state = state;
                self.error_message = None;
                None
            },
            Message::InputUsername(username) => {
                self.username = username;
                self.error_message = None;
                None
            },
            Message::InputEmail(email) => {
                self.email = email;
                self.error_message = None;
                None
            },
            Message::InputPassword(password) => {
                self.password = password;
                self.error_message = None;
                None
            },
            Message::ToggleShowPassword => {
                self.show_password = !self.show_password;
                None
            },
            Message::ClickLogin => {
                if self.username.as_str().is_empty() || self.password.as_str().is_empty() {
                    self.error_message = Some("Username and password are required".to_owned());
                    return None;
                }
                self.error_message = None;
                Some(
                    Message::Submit(
                        Request::Login(
                            LoginRequest {
                                username: self.username.clone(),
                                password: self.password.clone(),
                            },
                        ),
                    ),
                )
            },
            Message::ClickRegister => {
                if self.username.as_str().is_empty() || self.email.as_str().is_empty()
                    || self.password.as_str().is_empty() {
                    self.error_message = Some("All fields are required".to_owned());
                    return None;
                }
                self.error_message = None;
                Some(
                    Message::Submit(
                        Request::Register(
                            RegisterRequest {
                                username: self.username.clone(),
                                email: self.email.clone(),
                                password: self.password.clone(),
                            },
                        ),
                    ),
                )
            },
            _ => {
                self.username = String::new();
                self.email = String::new();
                self.password = String::new();
                self.error_message = None;
                None
            },
        }
    }
}

/// Logging in submits the form's credentials only when both the username
/// and the password are filled in; otherwise nothing is submitted and the
/// page says that both are required. Registering likewise needs the
/// username, the email and the password. Either way the form is kept.
pub proof fn lemma_sign_in_needs_its_fields(
    old: AuthPage,
    message: Message,
    new: AuthPage,
    res: Option<Message>,
)
    requires
        AuthPage::updated(old, message, new, res),
    ensures
        message is ClickLogin ==> {
            &&& new.username == old.username && new.password == old.password
            &&& res is Some <==> (old.username@.len() > 0 && old.password@.len() > 0)
            &&& res is Some ==> res == Some(
                Message::Submit(
                    Request::Login(
                        LoginRequest { username: old.username, password: old.password },
                    ),
                ),
            )
            &&& res is None ==> (new.error_message matches Some(e) && e@
                == "Username and password are required"@)
        },
        message is ClickRegister ==> {
            &&& new.username == old.username && new.email == old.email && new.password
                == old.password
            &&& res is Some <==> (old.username@.len() > 0 && old.email@.len() > 0
                && old.password@.len() > 0)
            &&& res is Some ==> res == Some(
                Message::Submit(
                    Request::Register(
                        RegisterRequest {
                            username: old.username,
                            email: old.email,
                            password: old.password,
                        },
                    ),
                ),
            )
            &&& res is None ==> (new.error_message matches Some(e) && e@
                == "All fields are required"@)
        },
{
}

} // verus!
