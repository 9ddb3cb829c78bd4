use senra::client::{verb_for, Verb};
use senra::endpoint::{Endpoint, Method};
use senra::text::replace;

#[test]
fn url_without_parameters_is_the_path() {
    let e = Endpoint::new("/api/notebooks");
    assert_eq!(e.build_url(), "/api/notebooks");
    assert_eq!(e.method, Method::Get);
}

#[test]
fn parameters_fill_their_placeholders() {
    let e = Endpoint::new("/api/notebooks/{id}/comments/{cid}")
        .with_param("id", "42")
        .with_param("cid", "7");
    assert_eq!(e.build_url(), "/api/notebooks/42/comments/7");
}

#[test]
fn every_occurrence_of_a_placeholder_is_filled() {
    let e = Endpoint::new("/{x}/{x}/{y}").with_param("x", "a");
    assert_eq!(e.build_url(), "/a/a/{y}");
}

#[test]
fn query_pairs_follow_a_question_mark_joined_by_ampersands() {
    let e = Endpoint::new("/api/notebooks")
        .with_query("page", "2")
        .with_query("per_page", "10");
    assert_eq!(e.build_url(), "/api/notebooks?page=2&per_page=10");
    let e = Endpoint::new("/u/{id}").with_param("id", "5").with_query("q", "x");
    assert_eq!(e.build_url(), "/u/5?q=x");
}

#[test]
fn method_and_body_are_kept() {
    let e = Endpoint::new("/a")
        .with_method(Method::Post)
        .with_body(serde_json::Value::from(1));
    assert_eq!(e.method, Method::Post);
    assert_eq!(e.body, Some(serde_json::Value::from(1)));
}

#[test]
fn replace_is_left_to_right_without_overlap() {
    assert_eq!(replace("aaa", "aa", "b"), "ba");
    assert_eq!(replace("héllo wörld", "ö", "o"), "héllo world");
    assert_eq!(replace("abc", "x", "y"), "abc");
    assert_eq!(replace("", "x", "y"), "");
}

#[test]
fn the_client_sends_five_methods() {
    assert_eq!(verb_for(&Method::Get), Ok(Verb::Get));
    assert_eq!(verb_for(&Method::Post), Ok(Verb::Post));
    assert_eq!(verb_for(&Method::Put), Ok(Verb::Put));
    assert_eq!(verb_for(&Method::Delete), Ok(Verb::Delete));
    assert_eq!(verb_for(&Method::Patch), Ok(Verb::Patch));
    assert_eq!(verb_for(&Method::Head), Err("Unsupported method: HEAD".to_string()));
    assert_eq!(
        verb_for(&Method::Extension("PURGE".to_string())),
        Err("Unsupported method: PURGE".to_string())
    );
    assert_eq!(Method::Options.as_str(), "OPTIONS");
}
