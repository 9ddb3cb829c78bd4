//! A user's profile page with their notebooks.

use vstd::prelude::*;

use crate::notebook::NotebookPreviewResponse;
use crate::user::UserResponse;

verus! {

/// A message of the profile page.
#[derive(Debug, Clone)]
pub enum Message {
    ErrorRequest(String),
    GetUserRequest(UserResponse),
    GetUserRespond(u64),
    GetNotebookRespond(u64),
    LoadUser(u64),
    OpenNotebook(u64),
}

/// A notebook as the profile page shows it.
#[derive(Debug, Clone)]
pub struct NotebookCard {
    pub id: u64,
    pub title: String,
    pub likes: i64,
    pub preview: Option<Vec<u8>>,
}

/// Whether `card` shows the notebook `n`.
pub open spec fn is_card_of(card: NotebookCard, n: NotebookPreviewResponse) -> bool {
    &&& card.id == n.inner.id as u64
    &&& card.title == n.inner.title
    &&& card.likes == n.stats.like_count
    &&& card.preview == n.preview
}

/// The profile page: loading, or showing a user.
#[derive(Debug, Clone)]
pub enum UserPage {
    Loading,
    Page {
        user_id: u64,
        username: String,
        avatar: Option<Vec<u8>>,
        created_at: String,
        notebooks: Vec<NotebookCard>,
        error: Option<String>,
    },
}

/// The cards for a list of notebooks, in the same order.
fn cards_of(notebooks: Vec<NotebookPreviewResponse>) -> (res: Vec<NotebookCard>)
    ensures
        res@.len() == notebooks@.len(),
        forall|i: int| 0 <= i < res@.len() ==> #[trigger] is_card_of(res@[i], notebooks@[i]),
{
    let ghost src = notebooks@;
    let mut cards: Vec<NotebookCard> = Vec::new();
    for n in it: notebooks
        invariant
            it.seq() == src,
            cards@.len() == it.index(),
            forall|i: int| 0 <= i < cards@.len() ==> #[trigger] is_card_of(cards@[i], src[i]),
    {
        cards.push(
            NotebookCard {
                id: n.inner.id as u64,
                title: n.inner.title,
                likes: n.stats.like_count,
                preview: n.preview,
            },
        );
    }
    cards
}

impl UserPage {
    /// The profile page of user `user_id`, loading it first.
    pub fn new(user_id: u64) -> (res: (Self, Option<Message>))
        ensures
            res.0 is Loading,
            res.1 matches Some(Message::LoadUser(id)) && id == user_id,
    {
        (UserPage::Loading, Some(Message::LoadUser(user_id)))
    }

    /// What handling `message` does: `new` is the page after it and `res`
    /// the message sent on.
    pub open spec fn updated(old: UserPage, message: Message, new: UserPage, res: Option<Message>) -> bool {
        match message {
            Message::GetUserRequest(r) => (new matches UserPage::Page {
                user_id,
                username,
                avatar,
                created_at,
                notebooks,
                error,
            } && user_id == r.id as u64 && username == r.username && avatar == r.avatar
                && created_at == r.created_at && notebooks@.len() == r.notebooks.notebooks@.len()
                && (forall|i: int|
                0 <= i < notebooks@.len() ==> #[trigger] is_card_of(
                    notebooks@[i],
                    r.notebooks.notebooks@[i],
                )) && error is None) && res is None,
            Message::LoadUser(id) => new == old && (res matches Some(Message::GetUserRespond(j))
                && j == id),
            Message::OpenNotebook(id) => new == old && (res matches Some(
                Message::GetNotebookRespond(j),
            ) && j == id),
            Message::ErrorRequest(e) => res is None && match old {
                UserPage::Loading => new == old,
                UserPage::Page { user_id, username, avatar, created_at, notebooks, .. } => new
                    == UserPage::Page {
                    user_id,
                    username,
                    avatar,
                    created_at,
                    notebooks,
                    error: Some(e),
                },
            },
            _ => res is None && new == old,
        }
    }

    /// Handles a message and gives the message to send on, if any.
    pub fn update(&mut self, message: Message) -> (res: Option<Message>)
        ensures
            Self::updated(*old(self), message, *final(self), res),
    {
        match message {
            Message::GetUserRequest(response) => {
                *self = UserPage::Page {
                    user_id: response.id as u64,
                    username: response.username,
                    avatar: response.avatar,
                    created_at: response.created_at,
                    notebooks: cards_of(response.notebooks.notebooks),
                    error: None,
                };
                None
            },
            Message::LoadUser(id) => Some(Message::GetUserRespond(id)),
            Message::OpenNotebook(id) => Some(Message::GetNotebookRespond(id)),
            Message::ErrorRequest(e) => {
                let mut page = UserPage::Loading;
                std::mem::swap(&mut page, self);
                match page {
                    UserPage::Loading => {},
                    UserPage::Page { user_id, username, avatar, created_at, notebooks, .. } => {
                        page = UserPage::Page {
                            user_id,
                            username,
                            avatar,
                            created_at,
                            notebooks,
                            error: Some(e),
                        };
                    },
                }
                *self = page;
                None
            },
            _ => None,
        }
    }
}

/// What the profile page does: loading a user asks for that user, opening
/// a notebook asks for that notebook, and a user's profile shows that
/// user's number, name and join date with one card per notebook in order.
pub proof fn lemma_profile_page(old: UserPage, message: Message, new: UserPage, res: Option<Message>)
    requires
        UserPage::updated(old, message, new, res),
    ensures
        message matches Message::LoadUser(id) ==> res == Some(Message::GetUserRespond(id)) && new
            == old,
        message matches Message::OpenNotebook(id) ==> res == Some(Message::GetNotebookRespond(id))
            && new == old,
        message matches Message::GetUserRequest(r) ==> (new matches UserPage::Page {
            user_id,
            username,
            created_at,
            notebooks,
            ..
        } && user_id == r.id as u64 && username == r.username && created_at == r.created_at
            && notebooks@.len() == r.notebooks.notebooks@.len() && res is None && (forall|i: int|
            0 <= i < notebooks@.len() ==> {
                &&& #[trigger] notebooks@[i].id == r.notebooks.notebooks@[i].inner.id as u64
                &&& notebooks@[i].title == r.notebooks.notebooks@[i].inner.title
                &&& notebooks@[i].likes == r.notebooks.notebooks@[i].stats.like_count
            })),
{
    if let Message::GetUserRequest(r) = message {
        if let UserPage::Page { notebooks, .. } = new {
            assert forall|i: int| 0 <= i < notebooks@.len() implies {
                &&& #[trigger] notebooks@[i].id == r.notebooks.notebooks@[i].inner.id as u64
                &&& notebooks@[i].title == r.notebooks.notebooks@[i].inner.title
                &&& notebooks@[i].likes == r.notebooks.notebooks@[i].stats.like_count
            } by {
                assert(is_card_of(notebooks@[i], r.notebooks.notebooks@[i]));
            }
        }
    }
}

} // verus!
