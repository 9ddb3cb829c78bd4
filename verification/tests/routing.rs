use senra::payloads::notebook_content::{
    default_address_clamp, default_blend_op, default_filter_linear, default_one_u32,
    default_output_id, default_pass_id, default_texture_format, default_true, RenderPassType,
};
use senra::auth::{AuthResponse, TokenResponse};
use senra::config::Config;
use senra::network::connect_url;
use senra::pages::Message as PageMessage;
use senra::request::Response;
use senra::routing::{route_response, stored_token, window_mode_for_key, Route, WindowMode};
use senra::widgets::editor::bindings::Named;
use senra::UserInfoResponse;

#[test]
fn live_channel_address() {
    assert_eq!(connect_url("http://localhost:3000", "abc"), "ws://localhost:3000/ws?token=abc");
    assert_eq!(connect_url("https://lab.example", "t"), "wss://lab.example/ws?token=t");
}

#[test]
fn responses_are_routed() {
    let auth = AuthResponse {
        user: UserInfoResponse { id: 1, username: "a".to_string(), email: "e".to_string(), avatar: vec![] },
        token: "tok".to_string(),
    };
    let routes = route_response(Response::Auth(auth));
    assert_eq!(routes.len(), 2);
    assert!(matches!(&routes[0], Route::Page(PageMessage::Receive(Response::Auth(_)))));
    assert!(matches!(&routes[1], Route::Connect(t) if t == "tok"));
    let routes = route_response(Response::Token(TokenResponse { token: None }));
    assert!(matches!(routes.as_slice(), [Route::Page(PageMessage::ShowAuthRequest)]));
    let routes = route_response(Response::Token(TokenResponse { token: Some("n".to_string()) }));
    assert!(matches!(routes.as_slice(), [Route::Connect(t)] if t == "n"));
}

#[test]
fn only_the_token_key_gives_a_token() {
    assert_eq!(stored_token("auth_token", Some("x".to_string())), Some("x".to_string()));
    assert_eq!(stored_token("other", Some("x".to_string())), None);
    assert_eq!(stored_token("auth_token", None), None);
}

#[test]
fn shift_arrows_change_the_window_mode() {
    assert_eq!(window_mode_for_key(Named::ArrowUp, true), Some(WindowMode::Fullscreen));
    assert_eq!(window_mode_for_key(Named::ArrowDown, true), Some(WindowMode::Windowed));
    assert_eq!(window_mode_for_key(Named::ArrowUp, false), None);
    assert_eq!(window_mode_for_key(Named::Enter, true), None);
}

#[test]
fn configuration_defaults() {
    let c = Config::from_build_env(None, None);
    assert_eq!(c.url, "http://localhost:3000");
    assert_eq!(c.storage_path, "./data.json");
    let c = Config::from_build_env(Some("http://x"), Some("/tmp/d.json"));
    assert_eq!(c.url, "http://x");
    assert_eq!(c.storage_path, "/tmp/d.json");
}

#[test]
fn notebook_content_defaults() {
    assert!(default_true());
    assert_eq!(default_pass_id(), "main");
    assert_eq!(default_output_id(), "output");
    assert_eq!(default_texture_format(), "rgba8unorm");
    assert_eq!(default_one_u32(), 1);
    assert_eq!(default_filter_linear(), "linear");
    assert_eq!(default_address_clamp(), "clamp-to-edge");
    assert_eq!(default_blend_op(), "add");
    assert_eq!(RenderPassType::default(), RenderPassType::Main);
}
