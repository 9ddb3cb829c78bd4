//! Resources (textures, buffers, data) attached to a notebook.

use vstd::prelude::*;

use serde_json::Value;
use time::OffsetDateTime;

verus! {

#[verifier::external_type_specification]
#[verifier::external_body]
pub struct ExOffsetDateTime(time::OffsetDateTime);

/// `Clone` of `time::OffsetDateTime`, which is `Copy` there: the clone
/// equals the time it was made from.
pub assume_specification[ <time::OffsetDateTime as Clone>::clone ](t: &time::OffsetDateTime) -> (res:
    time::OffsetDateTime)
    ensures
        res == *t,
;

/// A request to attach a resource to a notebook.
#[derive(Debug, Clone)]
pub struct CreateResourceRequest {
    pub notebook_id: i64,
    pub name: String,
    pub resource_type: String,
    pub data: Vec<u8>,
    pub metadata: Option<Value>,
}

/// A change to a resource; absent fields stay as they are.
#[derive(Debug, Clone)]
pub struct EditResourceRequest {
    pub name: Option<String>,
    pub data: Option<Vec<u8>>,
    pub metadata: Option<Value>,
}

/// A resource.
#[derive(Debug, Clone)]
pub struct ResourceResponse {
    pub id: i64,
    pub notebook_id: i64,
    pub name: String,
    pub resource_type: String,
    pub data: Vec<u8>,
    pub metadata: Option<Value>,
    pub created_at: OffsetDateTime,
}

} // verus!
