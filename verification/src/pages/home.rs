//! The home page: a grid of notebooks, filtered by category.

use vstd::prelude::*;

use crate::notebook::{NotebookListResponse, NotebookPreviewResponse, NotebookResponse};

verus! {

/// A message of the home page.
#[derive(Debug, Clone)]
pub enum Message {
    ErrorRequest(String),
    ListNotebooksRespond(NotebookListResponse),
    NotebookRespond(NotebookResponse),
    OpenNotebookRespond(u64),
    LoadNotebooks,
    SelectCategory(String),
    OpenNotebook(u64),
}

/// A notebook as the home page shows it.
#[derive(Debug, Clone)]
pub struct NotebookCard {
    pub id: u64,
    pub title: String,
    pub author: String,
    pub likes: i64,
    pub preview: Option<Vec<u8>>,
    pub category: String,
}

/// Whether `card` shows the notebook `n` in category `Featured`.
pub open spec fn is_card_of(card: NotebookCard, n: NotebookPreviewResponse) -> bool {
    &&& card.id == n.inner.id as u64
    &&& card.title == n.inner.title
    &&& card.author == n.author.username
    &&& card.likes == n.stats.like_count
    &&& card.preview == n.preview
    &&& card.category@ == "Featured"@
}

/// The home page: loading, or showing notebooks.
#[derive(Debug, Clone)]
pub enum HomePage {
    Loading,
    Page {
        selected_category: String,
        categories: Vec<String>,
        notebooks: Vec<NotebookCard>,
        error: Option<String>,
    },
}

/// The categories the home page offers, in order.
pub open spec fn category_names() -> Seq<Seq<char>> {
    seq!["Featured"@, "Popular"@, "Latest"@, "Shader"@, "Markdown"@]
}

/// Whether a card is shown under the selected category: its own category
/// is selected, or `Featured` is, which shows all.
pub open spec fn shown(card_category: Seq<char>, selected: Seq<char>) -> bool {
    card_category == selected || selected == "Featured"@
}

/// Whether a card is shown under the selected category.
pub fn is_shown(card: &NotebookCard, selected: &String) -> (res: bool)
    ensures
        res == shown(card.category@, selected@),
{
    card.category == *selected || *selected == "Featured".to_owned()
}

/// The cards for a list of notebooks, in the same order.
fn cards_of(notebooks: Vec<NotebookPreviewResponse>) -> (res: Vec<NotebookCard>)
    ensures
        res@.len() == notebooks@.len(),
        forall|i: int| 0 <= i < res@.len() ==> #[trigger] is_card_of(res@[i], notebooks@[i]),
{
    let ghost src = notebooks@;
    let mut cards: Vec<NotebookCard> = Vec::new();
    for n in it: notebooks
        invariant
            it.seq() == src,
            cards@.len() == it.index(),
            forall|i: int| 0 <= i < cards@.len() ==> #[trigger] is_card_of(cards@[i], src[i]),
    {
        let card = NotebookCard {
            id: n.inner.id as u64,
            title: n.inner.title,
            author: n.author.username,
            likes: n.stats.like_count,
            preview: n.preview,
            category: "Featured".to_owned(),
        };
        cards.push(card);
    }
    cards
}

impl HomePage {
    /// The home page, loading its notebooks first.
    pub fn new() -> (res: (Self, Option<Message>))
        ensures
            res.0 is Loading,
            res.1 matches Some(Message::LoadNotebooks),
    {
        (HomePage::Loading, Some(Message::LoadNotebooks))
    }

    /// What handling `message` does: `new` is the page after it and `res` the message sent on.
    pub open spec fn updated(old: HomePage, message: Message, new: HomePage, res: Option<Message>) -> bool {
        match message {
            Message::ListNotebooksRespond(r) => (new matches HomePage::Page {
                selected_category,
                categories,
                notebooks,
                error,
            } && selected_category@ == "Featured"@ && categories@.map_values(
                |c: String| c@,
            ) == category_names() && notebooks@.len() == r.notebooks@.len() && (forall|i: int|
                0 <= i < notebooks@.len() ==> #[trigger] is_card_of(
                    notebooks@[i],
                    r.notebooks@[i],
                )) && error is None) && res is None,
            Message::LoadNotebooks => new == old && (res matches Some(
                Message::ListNotebooksRespond(l),
            ) && l.notebooks@.len() == 0 && l.total == 0),
            Message::SelectCategory(c) => res is None && match old {
                HomePage::Loading => new == old,
                HomePage::Page { categories, notebooks, error, .. } => new
                    == HomePage::Page { selected_category: c, categories, notebooks, error },
            },
            Message::OpenNotebook(id) => new == old && (res matches Some(
                Message::OpenNotebookRespond(j),
            ) && j == id),
            Message::ErrorRequest(e) => res is None && match old {
                HomePage::Loading => new == old,
                HomePage::Page { selected_category, categories, notebooks, .. } => new == HomePage::Page {
                    selected_category,
                    categories,
                    notebooks,
                    error: Some(e),
                },
            },
            _ => res is None && new == old,
        }
    }

    /// Handles a message and gives the message to send on, if any.
    pub fn update(&mut self, message: Message) -> (res: Option<Message>)
        ensures
            Self::updated(*old(self), message, *final(self), res),
    {
        match message {
            Message::ListNotebooksRespond(response) => {
                let mut categories: Vec<String> = Vec::new();
                categories.push("Featured".to_owned());
                categories.push("Popular".to_owned());
                categories.push("Latest".to_owned());
                categories.push("Shader".to_owned());
                categories.push("Markdown".to_owned());
                assert(categories@.map_values(|c: String| c@) =~= category_names());
                *self = HomePage::Page {
                    selected_category: "Featured".to_owned(),
                    categories,
                    notebooks: cards_of(response.notebooks),
                    error: None,
                };
                None
            },
            Message::LoadNotebooks => Some(
                Message::ListNotebooksRespond(NotebookListResponse { notebooks: Vec::new(), total: 0 }),
            ),
            Message::SelectCategory(category) => {
                let mut page = HomePage::Loading;
                std::mem::swap(&mut page, self);
                match page {
                    HomePage::Loading => {},
                    HomePage::Page { categories, notebooks, error, .. } => {
                        page = HomePage::Page {
                            selected_category: category,
                            categories,
                            notebooks,
                            error,
                        };
                    },
                }
                *self = page;
                None
            },
            Message::OpenNotebook(id) => Some(Message::OpenNotebookRespond(id)),
            Message::ErrorRequest(e) => {
                let mut page = HomePage::Loading;
                std::mem::swap(&mut page, self);
                match page {
                    HomePage::Loading => {},
                    HomePage::Page { selected_category, categories, notebooks, .. } => {
                        page = HomePage::Page {
                            selected_category,
                            categories,
                            notebooks,
                            error: Some(e),
                        };
                    },
                }
                *self = page;
                None
            },
            _ => None,
        }
    }
}

/// `Featured` shows every card; any other category shows exactly the
/// cards of that category. `Featured` is the first of the page's five
/// categories.
pub proof fn lemma_featured_shows_all(card_category: Seq<char>, selected: Seq<char>)
    ensures
        shown(card_category, "Featured"@),
        shown(card_category, card_category),
        selected != "Featured"@ ==> (shown(card_category, selected) <==> card_category
            == selected),
        category_names().len() == 5,
        category_names()[0] == "Featured"@,
{
}

/// What the home page does: a notebook list shows one card per notebook,
/// in order and under `Featured`, with each card's number, title, author
/// and likes taken from its notebook; opening a notebook asks for that
/// notebook; loading asks for the list; choosing a category keeps the
/// cards.
pub proof fn lemma_home_page(old: HomePage, message: Message, new: HomePage, res: Option<Message>)
    requires
        HomePage::updated(old, message, new, res),
    ensures
        message matches Message::ListNotebooksRespond(r) ==> (new matches HomePage::Page {
            selected_category,
            notebooks,
            ..
        } && selected_category@ == "Featured"@ && notebooks@.len() == r.notebooks@.len() && (
        forall|i: int|
            0 <= i < notebooks@.len() ==> {
                &&& #[trigger] notebooks@[i].id == r.notebooks@[i].inner.id as u64
                &&& notebooks@[i].title == r.notebooks@[i].inner.title
                &&& notebooks@[i].author == r.notebooks@[i].author.username
                &&& notebooks@[i].likes == r.notebooks@[i].stats.like_count
            })),
        message matches Message::OpenNotebook(id) ==> (res == Some(
            Message::OpenNotebookRespond(id),
        ) && new == old),
        message is LoadNotebooks ==> (res matches Some(Message::ListNotebooksRespond(l))
            && l.notebooks@.len() == 0),
        message matches Message::SelectCategory(c) ==> (old matches HomePage::Page {
            notebooks,
            ..
        } ==> new matches HomePage::Page { selected_category, notebooks: n2, .. }
            && selected_category == c && n2 == notebooks),
{
    if let Message::ListNotebooksRespond(r) = message {
        if let HomePage::Page { notebooks, .. } = new {
            assert forall|i: int| 0 <= i < notebooks@.len() implies {
                &&& #[trigger] notebooks@[i].id == r.notebooks@[i].inner.id as u64
                &&& notebooks@[i].title == r.notebooks@[i].inner.title
                &&& notebooks@[i].author == r.notebooks@[i].author.username
                &&& notebooks@[i].likes == r.notebooks@[i].stats.like_count
            } by {
                assert(is_card_of(notebooks@[i], r.notebooks@[i]));
            }
        }
    }
}

} // verus!
