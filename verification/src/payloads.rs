//! Payloads stored inside notebooks.

pub mod notebook_content;
pub mod resource;
