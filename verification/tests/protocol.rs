use senra::client::{response_kind, Client, ResponseKind};
use senra::request::Request;
use std::str::FromStr;

use senra::protocol::error::ProtocolError as CodecError;
use senra::{JsonCodec, PipelineContext, PostcardCodec, ProtocolCodec, ProtocolConfig, ProtocolError};

#[test]
fn test_protocol_config() {
    let config = ProtocolConfig::json().with_timeout(60000);
    assert_eq!(config.timeout_ms, Some(60000));

    let config = ProtocolConfig::postcard();
    assert_eq!(config.timeout_ms, Some(30000));
}

#[test]
fn test_protocol_error_display() {
    let error = ProtocolError::SerializationError("test error".to_string());
    assert_eq!(error.to_string(), "Serialization error: test error");

    let error = ProtocolError::TransportError("network error".to_string());
    assert_eq!(error.to_string(), "Transport error: network error");
}

#[test]
fn protocol_test_pipeline_context() {
    let context = PipelineContext::new()
        .with_endpoint("/api/test")
        .with_method("GET")
        .with_request_id("test-123")
        .with_metadata("key", "value");

    assert_eq!(
        context.metadata.get("endpoint"),
        Some(&"/api/test".to_string())
    );
    assert_eq!(context.metadata.get("method"), Some(&"GET".to_string()));
    assert_eq!(context.request_id, Some("test-123".to_string()));
    assert_eq!(context.metadata.get("key"), Some(&"value".to_string()));
}

#[test]
fn mod_test_pipeline_context() {
    let context = PipelineContext::new()
        .with_endpoint("/api/test")
        .with_method("GET")
        .with_request_id("test-123")
        .with_metadata("key", "value");

    assert_eq!(
        context.metadata.get("endpoint"),
        Some(&"/api/test".to_string())
    );
    assert_eq!(context.metadata.get("method"), Some(&"GET".to_string()));
    assert_eq!(context.request_id, Some("test-123".to_string()));
    assert_eq!(context.metadata.get("key"), Some(&"value".to_string()));
}

#[test]
fn other_error_kinds_display() {
    let error = ProtocolError::DeserializationError("bad input".to_string());
    assert_eq!(error.to_string(), "Deserialization error: bad input");
    let error = ProtocolError::Unknown("?".to_string());
    assert_eq!(error.to_string(), "Unknown error: ?");
}

#[test]
fn codec_error_display() {
    let error = CodecError { message: "eof".to_string() };
    assert_eq!(error.to_string(), "Codec error: eof");
}

#[test]
fn default_config_is_json_with_default_timeout() {
    let config = ProtocolConfig::default();
    assert_eq!(config.codec, ProtocolCodec::Json(JsonCodec));
    assert_eq!(config.timeout_ms, Some(30000));
    let config = ProtocolConfig::new(ProtocolCodec::Postcard(PostcardCodec)).with_timeout(5);
    assert_eq!(config.codec, ProtocolCodec::Postcard(PostcardCodec));
    assert_eq!(config.timeout_ms, Some(5));
}

#[test]
fn codec_names_and_media_types() {
    assert_eq!(ProtocolCodec::Json(JsonCodec).as_str(), "json");
    assert_eq!(ProtocolCodec::Postcard(PostcardCodec).as_str(), "postcard");
    assert_eq!(ProtocolCodec::Json(JsonCodec).content_type(), "application/json");
    assert_eq!(
        ProtocolCodec::Postcard(PostcardCodec).content_type(),
        "application/octet-stream"
    );
    assert_eq!(JsonCodec.content_type(), "application/json");
    assert_eq!(PostcardCodec.content_type(), "application/octet-stream");
    assert_eq!(ProtocolCodec::default(), ProtocolCodec::Json(JsonCodec));
}

#[test]
fn codec_identifier_parses_back_ignoring_case() {
    for codec in [ProtocolCodec::Json(JsonCodec), ProtocolCodec::Postcard(PostcardCodec)] {
        assert_eq!(ProtocolCodec::from_str(codec.as_str()), Ok(codec.clone()));
    }
    assert_eq!(ProtocolCodec::from_str("JSON"), Ok(ProtocolCodec::Json(JsonCodec)));
    assert_eq!(
        ProtocolCodec::parse("PostCard"),
        Ok(ProtocolCodec::Postcard(PostcardCodec))
    );
}

#[test]
fn unknown_codec_is_refused_quoting_the_input() {
    let err = ProtocolCodec::from_str("Xml").unwrap_err();
    assert_eq!(err.message, "Invalid codec identifier: Xml");
    let err = ProtocolCodec::from_lowercase("yaml", "YAML").unwrap_err();
    assert_eq!(err.message, "Invalid codec identifier: YAML");
}

#[test]
fn metadata_set_twice_keeps_the_last_value() {
    let context = PipelineContext::default()
        .with_metadata("endpoint", "/a")
        .with_endpoint("/b");
    assert_eq!(context.metadata.get("endpoint"), Some(&"/b".to_string()));
    assert_eq!(context.metadata.get("missing"), None);
    assert_eq!(context.request_id, None);
    assert_eq!(context.timestamp, None);
}

#[test]
fn string_map_reads_back_what_was_written() {
    let mut m = senra::string_map::StringMap::new();
    assert_eq!(m.get("a"), None);
    m.insert("a".to_string(), "1".to_string());
    m.insert("b".to_string(), "2".to_string());
    m.insert("a".to_string(), "3".to_string());
    assert_eq!(m.get("a"), Some(&"3".to_string()));
    assert_eq!(m.get("b"), Some(&"2".to_string()));
    assert_eq!(m.get("c"), None);
}

#[test]
fn client_state() {
    let mut c = Client::new("http://localhost:3000");
    assert_eq!(c.url(), "http://localhost:3000");
    assert_eq!(c.token(), None);
    assert_eq!(c.authorization(), None);
    c.set_token("tok".to_string());
    assert_eq!(c.token(), Some("tok"));
    assert_eq!(c.authorization(), Some("Bearer tok".to_string()));
    assert_eq!(c.endpoint_url("/api/x"), "http://localhost:3000/api/x");
    c.clear_token();
    assert_eq!(c.token(), None);
    assert_eq!(response_kind(&Request::GetSelf), ResponseKind::User);
    assert_eq!(response_kind(&Request::RemoveNotebook(1)), ResponseKind::Notebook);
    assert_eq!(
        response_kind(&Request::Login(senra::LoginRequest {
            username: "u".to_string(),
            password: "p".to_string()
        })),
        ResponseKind::Auth
    );
}
