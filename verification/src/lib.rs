//! The ShaderLab client library: the data the server and the application
//! exchange, the endpoints and wire protocols, and the state of the pages
//! and widgets of the notebook application.

use vstd::prelude::*;

pub mod auth;
pub mod client;
pub mod config;
pub mod endpoint;
pub mod network;
pub mod notebook;
pub mod pages;
pub mod payloads;
pub mod protocol;
pub mod request;
pub mod routing;
pub mod shader;
pub mod string_map;
pub mod text;
pub mod user;
pub mod widgets;

pub use auth::{AuthRequest, AuthResponse, LoginRequest, RegisterRequest, TokenResponse};
pub use endpoint::Endpoint;
pub use notebook::{
    CreateNotebookCommentRequest, CreateNotebookRequest, EditNotebookRequest,
    NotebookCommentItem, NotebookCommentListResponse, NotebookInfo, NotebookListResponse,
    NotebookPreviewResponse, NotebookResponse, NotebookStats, NotebookVersionListResponse,
    NotebookVersionResponse,
};
pub use protocol::{
    JsonCodec, PipelineContext, PostcardCodec, ProtocolCodec, ProtocolConfig, ProtocolError,
};
pub use shader::{
    CreateShaderRequest, EditShaderRequest, ShaderResponse, ShaderVersionListResponse,
    ShaderVersionResponse,
};
pub use user::{EditUserRequest, UserInfoResponse, UserPreviewResponse, UserResponse};
