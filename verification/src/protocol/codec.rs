//! The wire formats a request can travel in.

use vstd::prelude::*;

use super::error::ProtocolError;
use crate::text::{ascii_lowercase, concat, lowercase, to_lowercase};
use vstd::utf8::is_ascii_chars;

verus! {

/// The JSON wire format.
#[derive(Debug, Clone, Default, PartialEq, Eq)]
pub struct JsonCodec;

impl JsonCodec {
    /// The media type of JSON payloads.
    pub fn content_type(&self) -> (res: &'static str)
        ensures
            res@ == "application/json"@,
    {
        "application/json"
    }
}

/// The postcard (compact binary) wire format.
#[derive(Debug, Clone, Default, PartialEq, Eq)]
pub struct PostcardCodec;

impl PostcardCodec {
    /// The media type of postcard payloads.
    pub fn content_type(&self) -> (res: &'static str)
        ensures
            res@ == "application/octet-stream"@,
    {
        "application/octet-stream"
    }
}

/// One of the supported wire formats.
#[derive(Debug, Clone, PartialEq, Eq)]
pub enum ProtocolCodec {
    Json(JsonCodec),
    Postcard(PostcardCodec),
}

impl ProtocolCodec {
    /// The identifier of a codec.
    pub open spec fn identifier(self) -> Seq<char> {
        match self {
            ProtocolCodec::Json(_) => "json"@,
            ProtocolCodec::Postcard(_) => "postcard"@,
        }
    }

    /// The media type of a codec's payloads.
    pub open spec fn media_type(self) -> Seq<char> {
        match self {
            ProtocolCodec::Json(_) => "application/json"@,
            ProtocolCodec::Postcard(_) => "application/octet-stream"@,
        }
    }

    /// The codec that a lowercase identifier names, if any.
    pub open spec fn parsed(lowered: Seq<char>) -> Option<ProtocolCodec> {
        if lowered == "json"@ {
            Some(ProtocolCodec::Json(JsonCodec))
        } else if lowered == "postcard"@ {
            Some(ProtocolCodec::Postcard(PostcardCodec))
        } else {
            None
        }
    }

    /// What parsing the identifier `s` gives, from its lowercase form
    /// `lowered`: the codec so named, or an error that quotes `s`.
    pub open spec fn parse_result(
        res: Result<ProtocolCodec, ProtocolError>,
        lowered: Seq<char>,
        s: Seq<char>,
    ) -> bool {
        match Self::parsed(lowered) {
            Some(c) => res == Ok::<ProtocolCodec, ProtocolError>(c),
            None => res matches Err(e) && e.message@ == "Invalid codec identifier: "@ + s,
        }
    }

    /// The identifier of this codec: `json` or `postcard`.
    pub fn as_str(&self) -> (res: &'static str)
        ensures
            res@ == self.identifier(),
    {
        match self {
            ProtocolCodec::Json(_) => "json",
            ProtocolCodec::Postcard(_) => "postcard",
        }
    }

    /// The media type of this codec's payloads.
    pub fn content_type(&self) -> (res: &'static str)
        ensures
            res@ == self.media_type(),
    {
        match self {
            ProtocolCodec::Json(codec) => codec.content_type(),
            ProtocolCodec::Postcard(codec) => codec.content_type(),
        }
    }

    /// Picks the codec named by `lowered`, the lowercase form of the
    /// identifier `s`; any other name is refused with an error that quotes `s`.
    pub fn from_lowercase(lowered: &str, s: &str) -> (res: Result<ProtocolCodec, ProtocolError>)
        ensures
            Self::parse_result(res, lowered@, s@),
    {
        let l = lowered.to_owned();
        if l == "json".to_owned() {
            Ok(ProtocolCodec::Json(JsonCodec))
        } else if l == "postcard".to_owned() {
            Ok(ProtocolCodec::Postcard(PostcardCodec))
        } else {
            Err(ProtocolError { message: concat("Invalid codec identifier: ", s) })
        }
    }

    /// Parses a codec identifier, ignoring case: `json` or `postcard`.
    pub fn parse(s: &str) -> (res: Result<ProtocolCodec, ProtocolError>)
        ensures
            Self::parse_result(res, lowercase(s@), s@),
            is_ascii_chars(s@) ==> Self::parse_result(res, ascii_lowercase(s@), s@),
    {
        let lowered = to_lowercase(s);
        Self::from_lowercase(lowered.as_str(), s)
    }
}

/// Parsing the identifier of a codec gives the codec back: the identifier
/// is ASCII and already lowercase, so by the contract of
/// `ProtocolCodec::parse`, `parse(c.as_str())` is `Ok(c)`.
pub proof fn lemma_identifier_parses_back(c: ProtocolCodec)
    ensures
        is_ascii_chars(c.identifier()),
        ascii_lowercase(c.identifier()) == c.identifier(),
        ProtocolCodec::parsed(c.identifier()) == Some(c),
{
    reveal_strlit("json");
    reveal_strlit("postcard");
    assert(ascii_lowercase(c.identifier()) =~= c.identifier());
}

impl Default for ProtocolCodec {
    fn default() -> (res: Self)
        ensures
            res == ProtocolCodec::Json(JsonCodec),
    {
        ProtocolCodec::Json(JsonCodec)
    }
}

impl core::str::FromStr for ProtocolCodec {
    type Err = ProtocolError;

    /// Parses a codec identifier, ignoring case, as `ProtocolCodec::parse`.
    fn from_str(s: &str) -> (res: Result<Self, Self::Err>)
        ensures
            Self::parse_result(res, lowercase(s@), s@),
            is_ascii_chars(s@) ==> Self::parse_result(res, ascii_lowercase(s@), s@),
    {
        Self::parse(s)
    }
}

/// The two codecs are named `json` and `postcard` and carry
/// `application/json` and `application/octet-stream`; the names and the
/// media types tell them apart, and a name parses to a codec only when it
/// is one of the two, giving the codec so named.
pub proof fn lemma_codec_names(lowered: Seq<char>)
    ensures
        ProtocolCodec::Json(JsonCodec).identifier() == "json"@,
        ProtocolCodec::Postcard(PostcardCodec).identifier() == "postcard"@,
        ProtocolCodec::Json(JsonCodec).media_type() == "application/json"@,
        ProtocolCodec::Postcard(PostcardCodec).media_type() == "application/octet-stream"@,
        ProtocolCodec::Json(JsonCodec).identifier() != ProtocolCodec::Postcard(
            PostcardCodec,
        ).identifier(),
        ProtocolCodec::Json(JsonCodec).media_type() != ProtocolCodec::Postcard(
            PostcardCodec,
        ).media_type(),
        ProtocolCodec::parsed("json"@) == Some(ProtocolCodec::Json(JsonCodec)),
        ProtocolCodec::parsed("postcard"@) == Some(ProtocolCodec::Postcard(PostcardCodec)),
        ProtocolCodec::parsed(lowered) matches Some(c) ==> c.identifier() == lowered,
{
    reveal_strlit("json");
    reveal_strlit("postcard");
    reveal_strlit("application/json");
    reveal_strlit("application/octet-stream");
    assert("json"@.len() != "postcard"@.len());
    assert("application/json"@.len() != "application/octet-stream"@.len());
}

} // verus!
