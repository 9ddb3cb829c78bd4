//! Pages of the notebook application and the router between them.

use vstd::prelude::*;

pub mod auth;
pub mod home;
pub mod login;
pub mod notebook;
pub mod user;

use crate::network::Protocol;
use crate::request::{Request, Response};
use crate::user::UserInfoResponse;
use crate::widgets::cell::CellType;
use auth::AuthPage;
use home::HomePage;
use notebook::NotebookPage;
use user::UserPage;

verus! {

/// The signed-in user, as the pages show them.
#[derive(Debug, Clone)]
pub struct User {
    pub id: u64,
    pub username: String,
    pub avatar: Vec<u8>,
}

impl From<UserInfoResponse> for User {
    fn from(message: UserInfoResponse) -> (res: User) {
        User { id: message.id as u64, username: message.username, avatar: message.avatar }
    }
}

impl vstd::std_specs::convert::FromSpecImpl<UserInfoResponse> for User {
    open spec fn obeys_from_spec() -> bool {
        true
    }

    open spec fn from_spec(message: UserInfoResponse) -> User {
        User { id: message.id as u64, username: message.username, avatar: message.avatar }
    }
}

/// A message of the page router.
#[derive(Debug, Clone)]
pub enum Message {
    ShowAuthRequest,
    ShowHomeRequest,
    ShowNotebookRequest(Option<u64>),
    ShowUserRequest(Option<u64>),
    LogoutRespond,
    Noop,
    Send(Protocol, Request),
    Receive(Response),
    SearchInputChanged(String),
    SearchSubmit,
    Auth(auth::Message),
    Home(home::Message),
    Notebook(notebook::Message),
    User(user::Message),
}

/// The page on screen; a notebook page holds cells of type `C`.
#[derive(Debug)]
pub enum PageState<C> {
    Login(AuthPage),
    Home(HomePage),
    Notebook(NotebookPage<C>),
    User(UserPage),
}

/// The page router: the page on screen, the signed-in user and the search
/// field.
#[derive(Debug)]
pub struct Page<C> {
    pub state: PageState<C>,
    pub current_user: Option<User>,
    pub search_input: String,
}

/// Whether `p` is the sign-in page as it starts.
pub open spec fn is_new_auth(p: AuthPage) -> bool {
    &&& p.state == auth::AuthState::Login
    &&& p.username@.len() == 0
    &&& p.email@.len() == 0
    &&& p.password@.len() == 0
    &&& !p.show_password
    &&& p.error_message is None
}

/// Whether `p` is an empty notebook page for a new notebook.
pub open spec fn is_new_notebook<C>(p: NotebookPage<C>) -> bool {
    p matches NotebookPage::Page {
        id,
        title,
        description,
        cells,
        cell_order,
        next_id,
        selected,
        hovered,
        error,
    } && id is None && title@.len() == 0 && description is None && cells@ == Map::<u32, C>::empty()
        && cell_order@.len() == 0
        && next_id == 0 && selected is None && hovered is None && error is None
}

/// The sign-in page's message, sent on through the router.
pub open spec fn lifted_auth(r: Option<auth::Message>) -> Seq<Message> {
    match r {
        Some(m) => seq![Message::Auth(m)],
        None => Seq::empty(),
    }
}

/// The home page's message, sent on through the router.
pub open spec fn lifted_home(r: Option<home::Message>) -> Seq<Message> {
    match r {
        Some(m) => seq![Message::Home(m)],
        None => Seq::empty(),
    }
}

/// The notebook page's message, sent on through the router.
pub open spec fn lifted_notebook(r: Option<notebook::Message>) -> Seq<Message> {
    match r {
        Some(m) => seq![Message::Notebook(m)],
        None => Seq::empty(),
    }
}

/// The profile page's message, sent on through the router.
pub open spec fn lifted_user(r: Option<user::Message>) -> Seq<Message> {
    match r {
        Some(m) => seq![Message::User(m)],
        None => Seq::empty(),
    }
}

impl<C> Page<C> {
    /// Whether the page on screen is in a valid state.
    pub open spec fn wf(self) -> bool {
        match self.state {
            PageState::Notebook(p) => p.wf(),
            _ => true,
        }
    }

    /// The router with the home page, loading its notebooks.
    pub fn new() -> (res: (Self, Vec<Message>))
        ensures
            res.0.wf(),
            res.0.state matches PageState::Home(h) && h is Loading,
            res.0.current_user is None,
            res.0.search_input@.len() == 0,
            res.1@ == seq![Message::Home(home::Message::LoadNotebooks)],
    {
        let (page, _) = HomePage::new();
        let mut out: Vec<Message> = Vec::new();
        out.push(Message::Home(home::Message::LoadNotebooks));
        (Page { state: PageState::Home(page), current_user: None, search_input: String::new() }, out)
    }

    /// What handling `message` does: `new` is the router after it and `res`
    /// the messages sent on, in order.
    pub open spec fn updated(old: Page<C>, message: Message, new: Page<C>, res: Seq<Message>) -> bool {
        match message {
            Message::ShowAuthRequest => (new.state matches PageState::Login(p) && is_new_auth(p))
                && new.current_user == old.current_user && new.search_input == old.search_input
                && res.len() == 0,
            Message::ShowHomeRequest => (new.state matches PageState::Home(h) && h is Loading)
                && new.current_user == old.current_user && new.search_input == old.search_input
                && res == seq![Message::Home(home::Message::LoadNotebooks)],
            Message::ShowNotebookRequest(id) => new.current_user == old.current_user
                && new.search_input == old.search_input && match id {
                Some(i) => (new.state matches PageState::Notebook(p) && p is Loading) && res
                    == seq![Message::Notebook(notebook::Message::GetNotebookRespond(i))],
                None => (new.state matches PageState::Notebook(p) && is_new_notebook(p)) && res.len()
                    == 0,
            },
            Message::ShowUserRequest(id) => {
                let target = match id {
                    Some(i) => Some(i),
                    None => match old.current_user {
                        Some(u) => Some(u.id),
                        None => None,
                    },
                };
                match target {
                    Some(t) => (new.state matches PageState::User(p) && p is Loading)
                        && new.current_user == old.current_user && new.search_input
                        == old.search_input && res == seq![Message::User(user::Message::LoadUser(t))],
                    None => new == old && res.len() == 0,
                }
            },
            Message::LogoutRespond => (new.state matches PageState::Home(h) && h is Loading)
                && new.current_user is None && new.search_input == old.search_input && res
                == seq![Message::Home(home::Message::LoadNotebooks)],
            Message::Receive(response) => match response {
                Response::Auth(a) => (new.state matches PageState::Home(h) && h is Loading)
                    && new.current_user == Some(
                    User { id: a.user.id as u64, username: a.user.username, avatar: a.user.avatar },
                ) && new.search_input == old.search_input && res == seq![
                    Message::Home(home::Message::LoadNotebooks),
                ],
                _ => new == old && res.len() == 0,
            },
            Message::SearchInputChanged(v) => new.state == old.state && new.current_user
                == old.current_user && new.search_input == v && res.len() == 0,
            Message::Auth(m) => match old.state {
                PageState::Login(p) => (new.state matches PageState::Login(p2) && exists|
                    r: Option<auth::Message>,
                |
                    #[trigger] AuthPage::updated(p, m, p2, r) && res == (match m {
                        auth::Message::Submit(q) => seq![Message::Send(Protocol::Http, q)],
                        _ => Seq::<Message>::empty(),
                    }) + lifted_auth(r))
                    && new.current_user == old.current_user && new.search_input
                    == old.search_input,
                _ => new == old && res.len() == 0,
            },
            Message::Home(m) => match old.state {
                PageState::Home(p) => (new.state matches PageState::Home(p2) && exists|
                    r: Option<home::Message>,
                |
                    #[trigger] HomePage::updated(p, m, p2, r) && res == (match m {
                        home::Message::OpenNotebook(id) => seq![Message::ShowNotebookRequest(Some(id))],
                        _ => Seq::<Message>::empty(),
                    }) + lifted_home(r))
                    && new.current_user == old.current_user && new.search_input
                    == old.search_input,
                _ => new == old && res.len() == 0,
            },
            Message::Notebook(m) => match old.state {
                PageState::Notebook(p) => (new.state matches PageState::Notebook(p2) && exists|
                    r: Option<notebook::Message>,
                |
                    #[trigger] NotebookPage::updated(p, m, p2, r) && res == (match m {
                        notebook::Message::GetNotebookRespond(id) => seq![
                            Message::Send(Protocol::Http, Request::GetNotebook(id)),
                        ],
                        notebook::Message::SaveNotebookRespond(q) => seq![
                            Message::Send(Protocol::Http, Request::CreateNotebook(q)),
                        ],
                        _ => Seq::<Message>::empty(),
                    }) + lifted_notebook(r))
                    && new.current_user == old.current_user && new.search_input
                    == old.search_input,
                _ => new == old && res.len() == 0,
            },
            Message::User(m) => match old.state {
                PageState::User(p) => (new.state matches PageState::User(p2) && exists|
                    r: Option<user::Message>,
                |
                    #[trigger] UserPage::updated(p, m, p2, r) && res == (match m {
                        user::Message::GetUserRespond(id) => seq![
                            Message::Send(Protocol::Http, Request::GetUser(id)),
                        ],
                        _ => Seq::<Message>::empty(),
                    }) + lifted_user(r))
                    && new.current_user == old.current_user && new.search_input
                    == old.search_input,
                _ => new == old && res.len() == 0,
            },
            _ => new == old && res.len() == 0,
        }
    }

    /// Handles a message and gives the messages to send on, in order: the
    /// router's own (a request to send, a page to show) before the page's.
    /// A new cell of the notebook page is made by `new_cell` from its type.
    pub fn update<F: Fn(CellType) -> C>(&mut self, message: Message, new_cell: F) -> (res: Vec<
        Message,
    >)
        requires
            message matches Message::Notebook(notebook::Message::CreateCell(_, _)) ==> match old(
                self,
            ).state {
                PageState::Notebook(NotebookPage::Page { next_id, .. }) => next_id < u32::MAX,
                _ => true,
            },
            message matches Message::Notebook(notebook::Message::CreateCell(t, _))
                ==> new_cell.requires((t,)),
        ensures
            old(self).wf() ==> final(self).wf(),
            Self::updated(*old(self), message, *final(self), res@),
            message matches Message::Notebook(notebook::Message::CreateCell(t, _)) ==> match old(
                self,
            ).state {
                PageState::Notebook(NotebookPage::Page { next_id, .. }) => {
                    &&& final(self).state matches PageState::Notebook(NotebookPage::Page {
                        cells,
                        ..
                    })
                    &&& new_cell.ensures((t,), cells@[next_id])
                },
                _ => true,
            },
    {
        let mut out: Vec<Message> = Vec::new();
        match message {
            Message::ShowAuthRequest => {
                let (page, _) = AuthPage::new();
                self.state = PageState::Login(page);
            },
            Message::ShowHomeRequest => {
                let (page, _) = HomePage::new();
                self.state = PageState::Home(page);
                out.push(Message::Home(home::Message::LoadNotebooks));
            },
            Message::ShowNotebookRequest(id) => {
                let (page, task) = NotebookPage::new(id);
                self.state = PageState::Notebook(page);
                if let Some(t) = task {
                    out.push(Message::Notebook(t));
                }
            },
            Message::ShowUserRequest(id) => {
                let target = match id {
                    Some(i) => Some(i),
                    None => match &self.current_user {
                        Some(u) => Some(u.id),
                        None => None,
                    },
                };
                if let Some(t) = target {
                    let (page, _) = UserPage::new(t);
                    self.state = PageState::User(page);
                    out.push(Message::User(user::Message::LoadUser(t)));
                }
            },
            Message::LogoutRespond => {
                self.current_user = None;
                let (page, _) = HomePage::new();
                self.state = PageState::Home(page);
                out.push(Message::Home(home::Message::LoadNotebooks));
            },
            Message::Receive(response) => {
                if let Response::Auth(auth) = response {
                    self.current_user = Some(User::from(auth.user));
                    let (page, _) = HomePage::new();
                    self.state = PageState::Home(page);
                    out.push(Message::Home(home::Message::LoadNotebooks));
                }
            },
            Message::SearchInputChanged(value) => {
                self.search_input = value;
            },
            Message::Auth(m) => {
                let mut state = PageState::Home(HomePage::Loading);
                std::mem::swap(&mut state, &mut self.state);
                match state {
                    PageState::Login(mut page) => {
                        let ghost p = page;
                        let ghost gm = m;
                        let r = match m {
                            auth::Message::Submit(q) => {
                                out.push(Message::Send(Protocol::Http, q));
                                page.update(auth::Message::Clear)
                            },
                            other => page.update(other),
                        };
                        assert(AuthPage::updated(p, gm, page, r));
                        let ghost before = out@;
                        if let Some(x) = r {
                            out.push(Message::Auth(x));
                        }
                        assert(out@ =~= before + lifted_auth(r));
                        state = PageState::Login(page);
                    },
                    _ => {},
                }
                self.state = state;
            },
            Message::Home(m) => {
                let mut state = PageState::Home(HomePage::Loading);
                std::mem::swap(&mut state, &mut self.state);
                match state {
                    PageState::Home(mut page) => {
                        let ghost p = page;
                        let ghost gm = m;
                        if let home::Message::OpenNotebook(id) = m {
                            out.push(Message::ShowNotebookRequest(Some(id)));
                        }
                        let r = page.update(m);
                        assert(HomePage::updated(p, gm, page, r));
                        let ghost before = out@;
                        if let Some(x) = r {
                            out.push(Message::Home(x));
                        }
                        assert(out@ =~= before + lifted_home(r));
                        state = PageState::Home(page);
                    },
                    _ => {},
                }
                self.state = state;
            },
            Message::Notebook(m) => {
                let mut state = PageState::Home(HomePage::Loading);
                std::mem::swap(&mut state, &mut self.state);
                match state {
                    PageState::Notebook(mut page) => {
                        let ghost p = page;
                        let ghost gm = m;
                        let r = match m {
                            notebook::Message::SaveNotebookRespond(q) => {
                                out.push(Message::Send(Protocol::Http, Request::CreateNotebook(q)));
                                None
                            },
                            notebook::Message::GetNotebookRespond(id) => {
                                out.push(Message::Send(Protocol::Http, Request::GetNotebook(id)));
                                page.update(notebook::Message::GetNotebookRespond(id), new_cell)
                            },
                            other => page.update(other, new_cell),
                        };
                        assert(NotebookPage::updated(p, gm, page, r));
                        let ghost before = out@;
                        if let Some(x) = r {
                            out.push(Message::Notebook(x));
                        }
                        assert(out@ =~= before + lifted_notebook(r));
                        state = PageState::Notebook(page);
                    },
                    _ => {},
                }
                self.state = state;
            },
            Message::User(m) => {
                let mut state = PageState::Home(HomePage::Loading);
                std::mem::swap(&mut state, &mut self.state);
                match state {
                    PageState::User(mut page) => {
                        let ghost p = page;
                        let ghost gm = m;
                        if let user::Message::GetUserRespond(id) = m {
                            out.push(Message::Send(Protocol::Http, Request::GetUser(id)));
                        }
                        let r = page.update(m);
                        assert(UserPage::updated(p, gm, page, r));
                        let ghost before = out@;
                        if let Some(x) = r {
                            out.push(Message::User(x));
                        }
                        assert(out@ =~= before + lifted_user(r));
                        state = PageState::User(page);
                    },
                    _ => {},
                }
                self.state = state;
            },
            _ => {},
        }
        out
    }
}

/// The router sends each page's request to the server over HTTP before
/// anything the page hands on: saving a new notebook sends it to be
/// created, opening a notebook or a profile asks for it, and a submitted
/// sign-in form sends its request; opening a notebook from the home page
/// first shows that notebook.
pub proof fn lemma_page_requests_reach_the_server<C>(
    old: Page<C>,
    message: Message,
    new: Page<C>,
    res: Seq<Message>,
)
    requires
        Page::<C>::updated(old, message, new, res),
    ensures
        message matches Message::Notebook(notebook::Message::SaveNotebookRespond(q))
            ==> (old.state is Notebook ==> res.len() >= 1 && res[0] == Message::Send(
            Protocol::Http,
            Request::CreateNotebook(q),
        )),
        message matches Message::Notebook(notebook::Message::GetNotebookRespond(id))
            ==> (old.state is Notebook ==> res.len() >= 1 && res[0] == Message::Send(
            Protocol::Http,
            Request::GetNotebook(id),
        )),
        message matches Message::User(user::Message::GetUserRespond(id)) ==> (old.state is User
            ==> res.len() >= 1 && res[0] == Message::Send(Protocol::Http, Request::GetUser(id))),
        message matches Message::Auth(auth::Message::Submit(q)) ==> (old.state is Login ==> res.len()
            >= 1 && res[0] == Message::Send(Protocol::Http, q)),
        message matches Message::Home(home::Message::OpenNotebook(id)) ==> (old.state is Home
            ==> res.len() >= 1 && res[0] == Message::ShowNotebookRequest(Some(id))),
{
}

/// Signing in makes the account the current user and shows the home page
/// loading its notebooks; logging out forgets the user the same way.
pub proof fn lemma_sign_in_and_out<C>(old: Page<C>, message: Message, new: Page<C>, res: Seq<Message>)
    requires
        Page::<C>::updated(old, message, new, res),
    ensures
        message matches Message::Receive(Response::Auth(a)) ==> new.current_user matches Some(u)
            && u.id == a.user.id as u64 && u.username == a.user.username && new.state is Home
            && res == seq![Message::Home(home::Message::LoadNotebooks)],
        message is LogoutRespond ==> new.current_user is None && new.state is Home && res
            == seq![Message::Home(home::Message::LoadNotebooks)],
{
}

/// Switching pages: the sign-in page opens on an empty login form and
/// sends nothing; a new notebook opens empty, with no cells; an existing
/// notebook opens loading and asks for that notebook; the home page opens
/// loading and asks for the notebook list. None of these changes the user.
pub proof fn lemma_page_switches<C>(old: Page<C>, message: Message, new: Page<C>, res: Seq<Message>)
    requires
        Page::<C>::updated(old, message, new, res),
    ensures
        message is ShowAuthRequest ==> (new.state matches PageState::Login(p) && p.state
            == auth::AuthState::Login && p.username@.len() == 0 && p.password@.len() == 0
            && p.error_message is None && res.len() == 0),
        message matches Message::ShowNotebookRequest(id) ==> match id {
            Some(i) => (new.state matches PageState::Notebook(p) && p is Loading) && res == seq![
                Message::Notebook(notebook::Message::GetNotebookRespond(i)),
            ],
            None => (new.state matches PageState::Notebook(NotebookPage::Page {
                id,
                cells,
                cell_order,
                ..
            }) && id is None && cells@.len() == 0 && cell_order@.len() == 0) && res.len() == 0,
        },
        message is ShowHomeRequest ==> new.state is Home && res == seq![
            Message::Home(home::Message::LoadNotebooks),
        ],
        message is ShowAuthRequest || message is ShowHomeRequest || message is ShowNotebookRequest
            ==> new.current_user == old.current_user,
{
    if let Message::ShowNotebookRequest(None) = message {
        if let PageState::Notebook(NotebookPage::Page { cells, .. }) = new.state {
            assert(cells@.dom() =~= Set::<u32>::empty());
        }
    }
}

} // verus!
