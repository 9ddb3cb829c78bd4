//! Where the application sends what arrives: responses from the server,
//! values from local storage, and keys that change the window.

use vstd::prelude::*;

use crate::pages;
use crate::auth::{AuthResponse, TokenResponse};
use crate::request::Response;
use crate::widgets::editor::bindings::Named;

verus! {

/// The storage key under which the sign-in token is kept.
pub const TOKEN_KEY: &'static str = "auth_token";

/// Where the application sends something on.
#[derive(Debug, Clone)]
pub enum Route {
    /// To the pages.
    Page(pages::Message),
    /// Open the live channel with this token.
    Connect(String),
}

/// The routes of a server response, in order: a sign-in goes to the pages
/// and opens the live channel with its token; a token check opens the live
/// channel with the renewed token, or without one asks the user to sign
/// in; anything else goes to the pages.
pub open spec fn response_routes(response: Response) -> Seq<Route> {
    match response {
        Response::Auth(a) => seq![
            Route::Page(pages::Message::Receive(Response::Auth(a))),
            Route::Connect(a.token),
        ],
        Response::Token(t) => match t.token {
            Some(token) => seq![Route::Connect(token)],
            None => seq![Route::Page(pages::Message::ShowAuthRequest)],
        },
        _ => seq![Route::Page(pages::Message::Receive(response))],
    }
}

/// Where a server response goes.
pub fn route_response(response: Response) -> (res: Vec<Route>)
    ensures
        res@ == response_routes(response),
{
    let ghost r = response;
    let mut out: Vec<Route> = Vec::new();
    match response {
        Response::Auth(a) => {
            let token = a.token.clone();
            out.push(Route::Page(pages::Message::Receive(Response::Auth(a))));
            out.push(Route::Connect(token));
        },
        Response::Token(t) => match t.token {
            Some(token) => {
                out.push(Route::Connect(token));
            },
            None => {
                out.push(Route::Page(pages::Message::ShowAuthRequest));
            },
        },
        other => {
            out.push(Route::Page(pages::Message::Receive(other)));
        },
    }
    assert(out@ =~= response_routes(r));
    out
}

/// The token to open the live channel with, from a value read from local
/// storage under `key`: the value, when the key is the token's key and the
/// value is a string.
pub fn stored_token(key: &str, value: Option<String>) -> (res: Option<String>)
    ensures
        res == (if key@ == TOKEN_KEY@ {
            value
        } else {
            None::<String>
        }),
{
    if key.to_owned() == TOKEN_KEY.to_owned() {
        value
    } else {
        None
    }
}

/// How the window is shown.
#[derive(Debug, Clone, Copy, PartialEq, Eq, Structural)]
pub enum WindowMode {
    Fullscreen,
    Windowed,
}

/// The window mode a key asks for: Shift and Up for full screen, Shift
/// and Down for a window, with no other modifier held.
pub open spec fn requested_mode(key: Named, shift_only: bool) -> Option<WindowMode> {
    if shift_only && key == Named::ArrowUp {
        Some(WindowMode::Fullscreen)
    } else if shift_only && key == Named::ArrowDown {
        Some(WindowMode::Windowed)
    } else {
        None
    }
}

/// The window mode a key press asks for, if any; `shift_only` is whether
/// Shift and no other modifier is held.
pub fn window_mode_for_key(key: Named, shift_only: bool) -> (res: Option<WindowMode>)
    ensures
        res == requested_mode(key, shift_only),
{
    match key {
        Named::ArrowUp if shift_only => Some(WindowMode::Fullscreen),
        Named::ArrowDown if shift_only => Some(WindowMode::Windowed),
        _ => None,
    }
}

/// Where the server's answers go: a sign-in reaches the pages first and
/// then opens the live channel with the token it carries; a renewed token
/// opens the channel with it; a token check without a token sends the user
/// to sign in; every other answer goes to the pages as it is, and opens no
/// channel.
pub proof fn lemma_answers_reach_their_place(a: AuthResponse, t: TokenResponse, other: Response)
    ensures
        response_routes(Response::Auth(a)) == seq![
            Route::Page(pages::Message::Receive(Response::Auth(a))),
            Route::Connect(a.token),
        ],
        t.token matches Some(tok) ==> response_routes(Response::Token(t)) == seq![
            Route::Connect(tok),
        ],
        t.token is None ==> response_routes(Response::Token(t)) == seq![
            Route::Page(pages::Message::ShowAuthRequest),
        ],
        !(other is Auth) && !(other is Token) ==> response_routes(other) == seq![
            Route::Page(pages::Message::Receive(other)),
        ],
{
}

/// Shift with Up asks for full screen and Shift with Down for a window;
/// the two differ, and no other key, nor these keys with other modifiers,
/// asks for anything.
pub proof fn lemma_window_keys(key: Named, shift_only: bool)
    ensures
        requested_mode(Named::ArrowUp, true) == Some(WindowMode::Fullscreen),
        requested_mode(Named::ArrowDown, true) == Some(WindowMode::Windowed),
        !shift_only ==> requested_mode(key, shift_only) is None,
        key != Named::ArrowUp && key != Named::ArrowDown ==> requested_mode(key, shift_only) is None,
{
}

} // verus!
