//! Shaders of a notebook.

use vstd::prelude::*;

verus! {

/// A request to add a shader to a notebook.
#[derive(Debug, Clone)]
pub struct CreateShaderRequest {
    pub notebook_id: i64,
    pub name: String,
    pub shader_type: String,
    pub code: String,
}

/// A change to a shader; absent fields stay as they are.
#[derive(Debug, Clone)]
pub struct EditShaderRequest {
    pub name: Option<String>,
    pub shader_type: Option<String>,
    pub code: Option<String>,
}

/// A shader.
#[derive(Debug, Clone)]
pub struct ShaderResponse {
    pub id: i64,
    pub notebook_id: i64,
    pub name: String,
    pub shader_type: String,
    pub code: String,
    pub version: i32,
    pub created_at: String,
    pub updated_at: String,
}

/// One stored version of a shader.
#[derive(Debug, Clone)]
pub struct ShaderVersionResponse {
    pub id: i64,
    pub shader_id: i64,
    pub version: i32,
    pub code: String,
    pub created_at: String,
}

/// The stored versions of a shader.
#[derive(Debug, Clone)]
pub struct ShaderVersionListResponse {
    pub versions: Vec<ShaderVersionResponse>,
    pub total: i64,
}

} // verus!
