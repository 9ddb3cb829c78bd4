//! Notebooks, their versions and comments.

use vstd::prelude::*;

use serde_json::Value;

use crate::user::UserPreviewResponse;

verus! {

/// A request to create a notebook.
#[derive(Debug, Clone)]
pub struct CreateNotebookRequest {
    pub title: String,
    pub description: Option<String>,
    pub content: Value,
    pub tags: Vec<String>,
    pub preview: Option<Vec<u8>>,
    pub visibility: String,
}

/// A change to a notebook; absent fields stay as they are.
#[derive(Debug, Clone)]
pub struct EditNotebookRequest {
    pub title: Option<String>,
    pub description: Option<String>,
    pub content: Option<Value>,
    pub tags: Option<Vec<String>>,
    pub preview: Option<Vec<u8>>,
    pub visibility: Option<String>,
}

/// A request to comment on a notebook.
#[derive(Debug, Clone)]
pub struct CreateNotebookCommentRequest {
    pub content: String,
}

/// Counters of a notebook.
#[derive(Debug, Clone)]
pub struct NotebookStats {
    pub view_count: i64,
    pub like_count: i64,
    pub comment_count: i64,
    pub is_liked: bool,
}

/// The descriptive fields of a notebook.
#[derive(Debug, Clone)]
pub struct NotebookInfo {
    pub id: i64,
    pub title: String,
    pub description: Option<String>,
    pub tags: Vec<String>,
    pub created_at: String,
    pub updated_at: String,
}

/// A notebook as a list shows it.
#[derive(Debug, Clone)]
pub struct NotebookPreviewResponse {
    pub inner: NotebookInfo,
    pub author: UserPreviewResponse,
    pub stats: NotebookStats,
    pub preview: Option<Vec<u8>>,
}

/// A notebook with its content.
#[derive(Debug, Clone)]
pub struct NotebookResponse {
    pub inner: NotebookInfo,
    pub author: UserPreviewResponse,
    pub stats: NotebookStats,
    pub content: Value,
    pub visibility: String,
    pub version: i32,
}

/// A page of notebooks and how many there are in all.
#[derive(Debug, Clone)]
pub struct NotebookListResponse {
    pub notebooks: Vec<NotebookPreviewResponse>,
    pub total: i64,
}

/// One stored version of a notebook.
#[derive(Debug, Clone)]
pub struct NotebookVersionResponse {
    pub id: i64,
    pub notebook_id: i64,
    pub version: i32,
    pub content: Value,
    pub created_at: String,
}

/// The stored versions of a notebook.
#[derive(Debug, Clone)]
pub struct NotebookVersionListResponse {
    pub versions: Vec<NotebookVersionResponse>,
    pub total: i64,
}

/// A comment on a notebook.
#[derive(Debug, Clone)]
pub struct NotebookCommentItem {
    pub id: i64,
    pub notebook_id: i64,
    pub user_id: i64,
    pub content: String,
    pub created_at: String,
    pub updated_at: String,
    pub author: String,
    pub author_avatar: Option<Vec<u8>>,
}

/// The comments on a notebook.
#[derive(Debug, Clone)]
pub struct NotebookCommentListResponse {
    pub comments: Vec<NotebookCommentItem>,
    pub total: i64,
}

} // verus!
