//! Request context, protocol configuration and protocol errors.

use vstd::prelude::*;

pub mod codec;
pub mod error;

pub use codec::{JsonCodec, PostcardCodec, ProtocolCodec};

use crate::string_map::StringMap;
use crate::text::concat;

verus! {

/// An error in moving a request or a response.
#[derive(Debug, Clone, PartialEq)]
pub enum ProtocolError {
    /// Serialization error
    SerializationError(String),
    /// Deserialization error
    DeserializationError(String),
    /// Network transport error
    TransportError(String),
    /// Unknown error
    Unknown(String),
}

impl ProtocolError {
    /// The text the error is shown as: its kind, a colon and its message.
    pub open spec fn text(self) -> Seq<char> {
        match self {
            ProtocolError::SerializationError(msg) => "Serialization error: "@ + msg@,
            ProtocolError::DeserializationError(msg) => "Deserialization error: "@ + msg@,
            ProtocolError::TransportError(msg) => "Transport error: "@ + msg@,
            ProtocolError::Unknown(msg) => "Unknown error: "@ + msg@,
        }
    }

    /// The error shown as text.
    pub fn to_string(&self) -> (res: String)
        ensures
            res@ == self.text(),
    {
        match self {
            ProtocolError::SerializationError(msg) => concat(
                "Serialization error: ",
                msg.as_str(),
            ),
            ProtocolError::DeserializationError(msg) => concat(
                "Deserialization error: ",
                msg.as_str(),
            ),
            ProtocolError::TransportError(msg) => concat("Transport error: ", msg.as_str()),
            ProtocolError::Unknown(msg) => concat("Unknown error: ", msg.as_str()),
        }
    }
}

/// Routing information that travels with a request.
pub struct PipelineContext {
    /// Metadata for request routing and configuration
    pub metadata: StringMap,
    /// Optional request ID for tracking
    pub request_id: Option<String>,
    /// Optional timestamp for timing
    pub timestamp: Option<u64>,
}

impl PipelineContext {
    /// An empty context: no metadata, no request id, no timestamp.
    pub fn new() -> (res: Self)
        ensures
            res.metadata@ == Map::<Seq<char>, Seq<char>>::empty(),
            res.request_id is None,
            res.timestamp is None,
    {
        PipelineContext { metadata: StringMap::new(), request_id: None, timestamp: None }
    }

    /// The context with its `endpoint` metadata set to `endpoint`.
    pub fn with_endpoint(self, endpoint: &str) -> (res: Self)
        ensures
            res.metadata@ == self.metadata@.insert("endpoint"@, endpoint@),
            res.request_id == self.request_id,
            res.timestamp == self.timestamp,
    {
        self.with_metadata("endpoint", endpoint)
    }

    /// The context with its `method` metadata set to `method`.
    pub fn with_method(self, method: &str) -> (res: Self)
        ensures
            res.metadata@ == self.metadata@.insert("method"@, method@),
            res.request_id == self.request_id,
            res.timestamp == self.timestamp,
    {
        self.with_metadata("method", method)
    }

    /// The context with its request id set to `id`.
    pub fn with_request_id(self, id: &str) -> (res: Self)
        ensures
            res.metadata@ == self.metadata@,
            res.request_id matches Some(r) && r@ == id@,
            res.timestamp == self.timestamp,
    {
        let mut ctx = self;
        ctx.request_id = Some(id.to_owned());
        ctx
    }

    /// The context with the metadata `key` set to `value`.
    pub fn with_metadata(self, key: &str, value: &str) -> (res: Self)
        ensures
            res.metadata@ == self.metadata@.insert(key@, value@),
            res.request_id == self.request_id,
            res.timestamp == self.timestamp,
    {
        let mut ctx = self;
        ctx.metadata.insert(key.to_owned(), value.to_owned());
        ctx
    }
}

impl Default for PipelineContext {
    fn default() -> (res: Self)
        ensures
            res.metadata@ == Map::<Seq<char>, Seq<char>>::empty(),
            res.request_id is None,
            res.timestamp is None,
    {
        Self::new()
    }
}

/// The timeout a configuration starts with, in milliseconds.
pub const DEFAULT_TIMEOUT_MS: u64 = 30000;

/// Which codec a client speaks, and how long it waits for an answer.
#[derive(Debug, Clone)]
pub struct ProtocolConfig {
    pub codec: ProtocolCodec,
    pub timeout_ms: Option<u64>,
}

impl ProtocolConfig {
    /// A configuration with `codec` and the default timeout.
    pub fn new(codec: ProtocolCodec) -> (res: Self)
        ensures
            res.codec == codec,
            res.timeout_ms == Some(DEFAULT_TIMEOUT_MS),
    {
        ProtocolConfig { codec, timeout_ms: Some(DEFAULT_TIMEOUT_MS) }
    }

    /// A JSON configuration with the default timeout.
    pub fn json() -> (res: Self)
        ensures
            res.codec == ProtocolCodec::Json(JsonCodec),
            res.timeout_ms == Some(DEFAULT_TIMEOUT_MS),
    {
        Self::new(ProtocolCodec::Json(JsonCodec))
    }

    /// A postcard configuration with the default timeout.
    pub fn postcard() -> (res: Self)
        ensures
            res.codec == ProtocolCodec::Postcard(PostcardCodec),
            res.timeout_ms == Some(DEFAULT_TIMEOUT_MS),
    {
        Self::new(ProtocolCodec::Postcard(PostcardCodec))
    }

    /// The configuration with its timeout set to `timeout_ms`.
    pub fn with_timeout(self, timeout_ms: u64) -> (res: Self)
        ensures
            res.codec == self.codec,
            res.timeout_ms == Some(timeout_ms),
    {
        let mut config = self;
        config.timeout_ms = Some(timeout_ms);
        config
    }
}

impl Default for ProtocolConfig {
    fn default() -> (res: Self)
        ensures
            res.codec == ProtocolCodec::Json(JsonCodec),
            res.timeout_ms == Some(DEFAULT_TIMEOUT_MS),
    {
        Self::json()
    }
}

/// An error is shown as the label of its kind followed by its message:
/// `Serialization error: `, `Deserialization error: `, `Transport error: `
/// or `Unknown error: `; so the same message under two kinds reads
/// differently.
pub proof fn lemma_error_texts(msg: String)
    ensures
        ProtocolError::SerializationError(msg).text() == "Serialization error: "@ + msg@,
        ProtocolError::DeserializationError(msg).text() == "Deserialization error: "@ + msg@,
        ProtocolError::TransportError(msg).text() == "Transport error: "@ + msg@,
        ProtocolError::Unknown(msg).text() == "Unknown error: "@ + msg@,
        ProtocolError::SerializationError(msg).text() != ProtocolError::DeserializationError(
            msg,
        ).text(),
        ProtocolError::TransportError(msg).text() != ProtocolError::Unknown(msg).text(),
{
    reveal_strlit("Serialization error: ");
    reveal_strlit("Deserialization error: ");
    reveal_strlit("Transport error: ");
    reveal_strlit("Unknown error: ");
    assert(("Serialization error: "@ + msg@).len() != ("Deserialization error: "@ + msg@).len());
    assert(("Transport error: "@ + msg@)[0] != ("Unknown error: "@ + msg@)[0]);
}

} // verus!
