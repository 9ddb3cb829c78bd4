use senra::network::Protocol;
use senra::pages::auth::{AuthPage, AuthState, Message as AuthMessage};
use senra::pages::home::{HomePage, Message as HomeMessage};
use senra::pages::login::{LoginPage, Message as LoginMessage};
use senra::pages::notebook::{Message as NotebookMessage, NotebookPage};
use senra::pages::user::{Message as UserMessage, UserPage};
use senra::pages::{Message, Page, PageState, User};
use senra::request::{Request, Response};
use senra::widgets::cell::CellType;
use senra::{
    AuthResponse, NotebookInfo, NotebookListResponse, NotebookPreviewResponse, NotebookStats,
    UserInfoResponse, UserPreviewResponse, UserResponse,
};

fn cell(t: CellType) -> CellType {
    t
}

fn order(page: &NotebookPage<CellType>) -> Vec<u32> {
    match page {
        NotebookPage::Page { cell_order, .. } => cell_order.clone(),
        NotebookPage::Loading => panic!("loading"),
    }
}

fn preview(id: i64, title: &str, likes: i64) -> NotebookPreviewResponse {
    NotebookPreviewResponse {
        inner: NotebookInfo {
            id,
            title: title.to_string(),
            description: None,
            tags: vec![],
            created_at: "2024".to_string(),
            updated_at: "2024".to_string(),
        },
        author: UserPreviewResponse { id: 1, username: "ann".to_string(), avatar: None },
        stats: NotebookStats { view_count: 0, like_count: likes, comment_count: 0, is_liked: false },
        preview: Some(vec![1, 2]),
    }
}

#[test]
fn login_needs_username_and_password() {
    let (mut page, task) = AuthPage::new();
    assert!(task.is_none());
    assert_eq!(page.update(AuthMessage::ClickLogin).map(|_| ()), None);
    assert_eq!(page.error_message.as_deref(), Some("Username and password are required"));
    page.update(AuthMessage::InputUsername("ann".to_string()));
    assert_eq!(page.error_message, None);
    page.update(AuthMessage::InputPassword("pw".to_string()));
    match page.update(AuthMessage::ClickLogin) {
        Some(AuthMessage::Submit(Request::Login(r))) => {
            assert_eq!(r.username, "ann");
            assert_eq!(r.password, "pw");
        }
        _ => panic!("expected a login"),
    }
}

#[test]
fn register_needs_all_fields_and_clear_empties_the_form() {
    let (mut page, _) = AuthPage::new();
    page.update(AuthMessage::Switch(AuthState::Register));
    assert_eq!(page.state, AuthState::Register);
    page.update(AuthMessage::InputUsername("bob".to_string()));
    page.update(AuthMessage::InputPassword("pw".to_string()));
    assert!(page.update(AuthMessage::ClickRegister).is_none());
    assert_eq!(page.error_message.as_deref(), Some("All fields are required"));
    page.update(AuthMessage::InputEmail("b@x".to_string()));
    assert!(matches!(
        page.update(AuthMessage::ClickRegister),
        Some(AuthMessage::Submit(Request::Register(_)))
    ));
    page.update(AuthMessage::ToggleShowPassword);
    assert!(page.show_password);
    page.update(AuthMessage::Error("boom".to_string()));
    assert_eq!(page.error_message.as_deref(), Some("boom"));
    page.update(AuthMessage::Clear);
    assert!(page.username.is_empty() && page.email.is_empty() && page.password.is_empty());
    assert_eq!(page.error_message, None);
}

#[test]
fn plain_login_form_submits_as_is() {
    let (mut page, _) = LoginPage::new();
    page.update(LoginMessage::InputUsername("u".to_string()));
    page.update(LoginMessage::InputEmail("e".to_string()));
    assert!(matches!(page.update(LoginMessage::ClickLogin), Some(LoginMessage::Submit(Request::Login(_)))));
    assert!(matches!(page.update(LoginMessage::ClickRegister), Some(LoginMessage::Submit(Request::Register(_)))));
    page.update(LoginMessage::Clear);
    assert!(page.username.is_empty() && page.email.is_empty());
}

#[test]
fn cells_are_created_moved_and_removed() {
    let (mut page, task) = NotebookPage::<CellType>::new(None);
    assert!(task.is_none());
    page.update(NotebookMessage::CreateCell(CellType::Markdown, None), cell);
    page.update(NotebookMessage::CreateCell(CellType::Shader, None), cell);
    page.update(NotebookMessage::CreateCell(CellType::Shader, Some(1)), cell);
    assert_eq!(order(&page), vec![0, 2, 1]);
    page.update(NotebookMessage::CreateCell(CellType::Shader, Some(99)), cell);
    assert_eq!(order(&page), vec![0, 2, 1, 3]);
    page.update(NotebookMessage::MoveUp(0), cell);
    assert_eq!(order(&page), vec![0, 2, 1, 3]);
    page.update(NotebookMessage::MoveUp(1), cell);
    assert_eq!(order(&page), vec![0, 1, 2, 3]);
    page.update(NotebookMessage::MoveDown(1), cell);
    assert_eq!(order(&page), vec![0, 2, 1, 3]);
    page.update(NotebookMessage::MoveDown(3), cell);
    assert_eq!(order(&page), vec![0, 2, 1, 3]);
    page.update(NotebookMessage::ShowButtons(Some(2)), cell);
    page.update(NotebookMessage::RemoveCell(2), cell);
    assert_eq!(order(&page), vec![0, 1, 3]);
    match &page {
        NotebookPage::Page { selected, hovered, next_id, .. } => {
            assert_eq!(*selected, Some(3));
            assert_eq!(*hovered, None);
            assert_eq!(*next_id, 4);
        }
        _ => panic!(),
    }
    page.update(NotebookMessage::RemoveCell(3), cell);
    match &page {
        NotebookPage::Page { selected, .. } => assert_eq!(*selected, None),
        _ => panic!(),
    }
}

#[test]
fn saving_a_new_notebook_creates_it() {
    let (mut page, _) = NotebookPage::<CellType>::new(None);
    match page.update(NotebookMessage::ClickSave, cell) {
        Some(NotebookMessage::SaveNotebookRespond(req)) => {
            assert_eq!(req.visibility, "public");
            assert!(req.tags.is_empty());
            assert_eq!(req.content, serde_json::Value::Object(serde_json::Map::new()));
        }
        _ => panic!("expected a save"),
    }
    let (mut loading, task) = NotebookPage::<CellType>::new(Some(7));
    assert!(matches!(task, Some(NotebookMessage::GetNotebookRespond(7))));
    assert!(loading.update(NotebookMessage::ClickSave, cell).is_none());
}

#[test]
fn home_page_lists_notebooks_as_featured_cards() {
    let (mut page, task) = HomePage::new();
    assert!(matches!(task, Some(HomeMessage::LoadNotebooks)));
    let list = NotebookListResponse { notebooks: vec![preview(3, "t", 9)], total: 1 };
    page.update(HomeMessage::ListNotebooksRespond(list));
    match &page {
        HomePage::Page { selected_category, categories, notebooks, error } => {
            assert_eq!(selected_category, "Featured");
            assert_eq!(categories.len(), 5);
            assert_eq!(notebooks.len(), 1);
            assert_eq!(notebooks[0].id, 3);
            assert_eq!(notebooks[0].likes, 9);
            assert_eq!(notebooks[0].author, "ann");
            assert!(error.is_none());
            assert!(senra::pages::home::is_shown(&notebooks[0], &"Popular".to_string()) == false);
            assert!(senra::pages::home::is_shown(&notebooks[0], &"Featured".to_string()));
        }
        _ => panic!(),
    }
    assert!(matches!(page.update(HomeMessage::OpenNotebook(3)), Some(HomeMessage::OpenNotebookRespond(3))));
    page.update(HomeMessage::SelectCategory("Latest".to_string()));
    page.update(HomeMessage::ErrorRequest("e".to_string()));
    match &page {
        HomePage::Page { selected_category, error, .. } => {
            assert_eq!(selected_category, "Latest");
            assert_eq!(error.as_deref(), Some("e"));
        }
        _ => panic!(),
    }
}

#[test]
fn user_page_loads_then_shows_the_user() {
    let (mut page, task) = UserPage::new(5);
    assert!(matches!(task, Some(UserMessage::LoadUser(5))));
    assert!(matches!(page.update(UserMessage::LoadUser(5)), Some(UserMessage::GetUserRespond(5))));
    let user = UserResponse {
        id: 5,
        username: "ann".to_string(),
        avatar: None,
        created_at: "2024".to_string(),
        notebooks: NotebookListResponse { notebooks: vec![preview(1, "a", 2)], total: 1 },
    };
    page.update(UserMessage::GetUserRequest(user));
    match &page {
        UserPage::Page { user_id, notebooks, .. } => {
            assert_eq!(*user_id, 5);
            assert_eq!(notebooks[0].title, "a");
        }
        _ => panic!(),
    }
}

#[test]
fn router_sends_requests_and_switches_pages() {
    let (mut page, first): (Page<CellType>, _) = Page::new();
    assert_eq!(first.len(), 1);
    let out = page.update(Message::ShowUserRequest(None), cell);
    assert!(out.is_empty());
    assert!(matches!(page.state, PageState::Home(_)));
    let auth = AuthResponse {
        user: UserInfoResponse { id: 9, username: "ann".to_string(), email: "a@x".to_string(), avatar: vec![] },
        token: "tok".to_string(),
    };
    let out = page.update(Message::Receive(Response::Auth(auth)), cell);
    assert_eq!(out.len(), 1);
    assert_eq!(page.current_user.as_ref().map(|u| u.id), Some(9));
    let out = page.update(Message::ShowUserRequest(None), cell);
    assert!(matches!(out.as_slice(), [Message::User(UserMessage::LoadUser(9))]));
    let out = page.update(Message::User(UserMessage::GetUserRespond(9)), cell);
    assert!(matches!(out.as_slice(), [Message::Send(Protocol::Http, Request::GetUser(9))]));
    page.update(Message::ShowAuthRequest, cell);
    page.update(Message::Auth(AuthMessage::InputUsername("a".to_string())), cell);
    page.update(Message::Auth(AuthMessage::InputPassword("b".to_string())), cell);
    let out = page.update(Message::Auth(AuthMessage::ClickLogin), cell);
    assert!(matches!(out.as_slice(), [Message::Auth(AuthMessage::Submit(Request::Login(_)))]));
    let submit = match out.into_iter().next() {
        Some(Message::Auth(m)) => m,
        _ => panic!(),
    };
    let out = page.update(Message::Auth(submit), cell);
    assert!(matches!(out.as_slice(), [Message::Send(Protocol::Http, Request::Login(_))]));
    let out = page.update(Message::ShowNotebookRequest(Some(4)), cell);
    assert!(matches!(out.as_slice(), [Message::Notebook(NotebookMessage::GetNotebookRespond(4))]));
    let out = page.update(Message::Notebook(NotebookMessage::GetNotebookRespond(4)), cell);
    assert!(matches!(out.as_slice(), [Message::Send(Protocol::Http, Request::GetNotebook(4))]));
    page.update(Message::SearchInputChanged("shader".to_string()), cell);
    assert_eq!(page.search_input, "shader");
    let out = page.update(Message::LogoutRespond, cell);
    assert!(page.current_user.is_none());
    assert!(matches!(out.as_slice(), [Message::Home(HomeMessage::LoadNotebooks)]));
    let out = page.update(Message::Home(HomeMessage::OpenNotebook(2)), cell);
    assert!(matches!(
        out.as_slice(),
        [Message::ShowNotebookRequest(Some(2)), Message::Home(HomeMessage::OpenNotebookRespond(2))]
    ));
}

#[test]
fn user_from_account() {
    let u = User::from(UserInfoResponse { id: 3, username: "z".to_string(), email: "e".to_string(), avatar: vec![7] });
    assert_eq!(u.id, 3);
    assert_eq!(u.username, "z");
    assert_eq!(u.avatar, vec![7]);
}

#[test]
fn bottom_buttons_add_after_the_last_cell() {
    let (mut page, _) = NotebookPage::<CellType>::new(None);
    assert_eq!(page.bottom_position(), None);
    page.update(NotebookMessage::CreateCell(CellType::Markdown, None), cell);
    page.update(NotebookMessage::CreateCell(CellType::Markdown, None), cell);
    assert_eq!(page.bottom_position(), Some(2));
    let (loading, _) = NotebookPage::<CellType>::new(Some(1));
    assert_eq!(loading.bottom_position(), None);
}

#[test]
fn new_cells_join_the_page_and_removed_ones_leave() {
    let (mut page, _) = NotebookPage::<CellType>::new(None);
    page.update(NotebookMessage::CreateCell(CellType::Shader, None), cell);
    page.update(NotebookMessage::CreateCell(CellType::Shader, None), cell);
    page.update(NotebookMessage::CreateCell(CellType::Shader, Some(0)), cell);
    assert_eq!(order(&page), vec![2, 0, 1]);
    page.update(NotebookMessage::CreateCell(CellType::Markdown, Some(1)), cell);
    match &page {
        NotebookPage::Page { cells, cell_order, next_id, selected, .. } => {
            assert_eq!(*cell_order, vec![2, 0, 3, 1]);
            assert_eq!(*next_id, 4);
            assert_eq!(*selected, Some(3));
            assert_eq!(cells.len(), 4);
            assert_eq!(cells.get(&3), Some(&CellType::Markdown));
        }
        _ => panic!(),
    }
    page.update(NotebookMessage::RemoveCell(0), cell);
    match &page {
        NotebookPage::Page { cells, cell_order, .. } => {
            assert_eq!(*cell_order, vec![2, 3, 1]);
            assert!(!cells.contains_key(&0));
            assert_eq!(cells.len(), 3);
        }
        _ => panic!(),
    }
}

fn bare_page(order: Vec<u32>, next_id: u32) -> NotebookPage<CellType> {
    NotebookPage::Page {
        id: None,
        title: String::new(),
        description: None,
        cells: std::collections::HashMap::new(),
        cell_order: order,
        next_id,
        selected: None,
        hovered: None,
        error: None,
    }
}

#[test]
fn a_page_without_stored_cells_still_orders_them() {
    let mut page = bare_page(vec![2, 0, 1], 3);
    page.update(NotebookMessage::CreateCell(CellType::Markdown, Some(1)), cell);
    match &page {
        NotebookPage::Page { cells, cell_order, next_id, selected, .. } => {
            assert_eq!(*cell_order, vec![2, 0, 3, 1]);
            assert_eq!(*next_id, 4);
            assert_eq!(*selected, Some(3));
            assert_eq!(cells.len(), 1);
            assert!(cells.contains_key(&3));
        }
        _ => panic!(),
    }
    let mut page = bare_page(vec![0, 1, 2], 3);
    page.update(NotebookMessage::MoveDown(2), cell);
    assert_eq!(order(&page), vec![0, 1, 2]);
}

#[test]
fn repeated_cells_act_at_their_first_place() {
    let mut page = bare_page(vec![1, 0, 1], 2);
    page.update(NotebookMessage::MoveUp(1), cell);
    assert_eq!(order(&page), vec![1, 0, 1]);
    page.update(NotebookMessage::MoveDown(1), cell);
    assert_eq!(order(&page), vec![0, 1, 1]);
    page.update(NotebookMessage::RemoveCell(1), cell);
    assert_eq!(order(&page), vec![0, 1]);
}
