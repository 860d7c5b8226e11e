use matrix_notify::api::ApiError;
use matrix_notify::config::{
    build_join_url, build_login_url, build_profile_url, build_room_members_url,
    build_send_message_url, Config, ConfigError,
};
use matrix_notify::exchange::is_success;
use matrix_notify::session::perform_generate;

fn sample() -> Config {
    Config {
        base_url: "https://example.org".to_string(),
        local_username: "matrix-bot".to_string(),
        full_username: "@matrix-bot:example.org".to_string(),
        password: Some("Plaintext password".to_string()),
        token: Some("access_token from previous api calls".to_string()),
    }
}

#[test]
fn profile_url_is_base_then_path_then_user() {
    assert_eq!(
        build_profile_url("https://example.org", "@matrix-bot:example.org"),
        "https://example.org/_matrix/client/r0/profile/@matrix-bot:example.org"
    );
}

#[test]
fn login_url_is_base_then_path() {
    assert_eq!(build_login_url("https://example.org"), "https://example.org/_matrix/client/r0/login");
}

#[test]
fn room_members_url_holds_the_room() {
    assert_eq!(
        build_room_members_url("http://127.0.0.1:1234", "!roomid:testmatrix.org"),
        "http://127.0.0.1:1234/_matrix/client/r0/rooms/!roomid:testmatrix.org/joined_members"
    );
}

#[test]
fn join_url_holds_the_room() {
    assert_eq!(
        build_join_url("http://127.0.0.1:1234", "!roomid:testmatrix.org"),
        "http://127.0.0.1:1234/_matrix/client/r0/rooms/!roomid:testmatrix.org/join"
    );
}

#[test]
fn send_message_url_holds_the_room() {
    assert_eq!(
        build_send_message_url("http://127.0.0.1:1234", "!roomid:testmatrix.org"),
        "http://127.0.0.1:1234/_matrix/client/r0/rooms/!roomid:testmatrix.org/send/m.room.message"
    );
}

#[test]
fn urls_of_empty_parts_are_the_bare_paths() {
    assert_eq!(build_profile_url("", ""), "/_matrix/client/r0/profile/");
    assert_eq!(build_login_url(""), "/_matrix/client/r0/login");
    assert_eq!(build_room_members_url("", ""), "/_matrix/client/r0/rooms//joined_members");
    assert_eq!(build_join_url("", ""), "/_matrix/client/r0/rooms//join");
    assert_eq!(build_send_message_url("", ""), "/_matrix/client/r0/rooms//send/m.room.message");
}

#[test]
fn urls_keep_text_beyond_ascii() {
    assert_eq!(
        build_join_url("https://exämple.org", "!räum:exämple.org"),
        "https://exämple.org/_matrix/client/r0/rooms/!räum:exämple.org/join"
    );
}

#[test]
fn config_urls_use_its_base_and_full_identity() {
    let config = sample();
    assert_eq!(
        config.get_profile_url(),
        "https://example.org/_matrix/client/r0/profile/@matrix-bot:example.org"
    );
    assert_eq!(config.get_login_url(), "https://example.org/_matrix/client/r0/login");
    assert_eq!(
        config.get_room_members_url("!r:example.org"),
        "https://example.org/_matrix/client/r0/rooms/!r:example.org/joined_members"
    );
    assert_eq!(
        config.get_join_url("!r:example.org"),
        "https://example.org/_matrix/client/r0/rooms/!r:example.org/join"
    );
    assert_eq!(
        config.get_send_message_url("!r:example.org"),
        "https://example.org/_matrix/client/r0/rooms/!r:example.org/send/m.room.message"
    );
}

#[test]
fn built_urls_start_with_the_base() {
    let config = sample();
    let base = config.base_url.as_str();
    assert_eq!(
        config.get_profile_url().strip_prefix(base),
        Some("/_matrix/client/r0/profile/@matrix-bot:example.org")
    );
    assert_eq!(config.get_login_url().strip_prefix(base), Some("/_matrix/client/r0/login"));
}

#[test]
fn config_clone_is_equal() {
    let config = sample();
    assert_eq!(config.clone(), config);
    let bare = Config { password: None, token: None, ..sample() };
    assert_eq!(bare.clone(), bare);
    assert_ne!(bare, config);
}

#[test]
fn config_error_clone_is_equal() {
    for error in [
        ConfigError::Io("denied".to_string()),
        ConfigError::TomlSerialize("bad value".to_string()),
        ConfigError::TomlDeserialize("missing field `base_url`".to_string()),
    ] {
        assert_eq!(error.clone(), error);
    }
}

#[test]
fn api_error_clone_is_equal() {
    for error in [
        ApiError::SerdeJson("eof".to_string()),
        ApiError::Config(ConfigError::Io("denied".to_string())),
        ApiError::ConfigAlreadyExists,
        ApiError::MissingPassword,
        ApiError::MissingToken,
        ApiError::LoginFailed(403),
        ApiError::JoinRoomFailed(404),
        ApiError::HttpError { cause: "refused".to_string(), url: "http://h/x".to_string() },
        ApiError::MatrixApiError { status_code: 429, error_message: "slow down".to_string() },
    ] {
        assert_eq!(error.clone(), error);
    }
}

#[test]
fn success_is_the_two_hundreds() {
    assert!(!is_success(0));
    assert!(!is_success(199));
    assert!(is_success(200));
    assert!(is_success(204));
    assert!(is_success(299));
    assert!(!is_success(300));
    assert!(!is_success(401));
    assert!(!is_success(429));
    assert!(!is_success(u16::MAX));
}

#[test]
fn generate_gives_the_example() {
    let config = perform_generate(false).unwrap();
    assert_eq!(
        config,
        Config {
            base_url: "https://example.org".to_string(),
            local_username: "matrix-bot".to_string(),
            full_username: "@matrix-bot:example.org".to_string(),
            password: Some(
                "Plaintext password, can be omitted if you have a token already".to_string()
            ),
            token: Some(
                "access_token from previous api calls, remove to populate via password driven login"
                    .to_string()
            ),
        }
    );
}

#[test]
fn generate_never_overwrites() {
    assert_eq!(perform_generate(true), Err(ApiError::ConfigAlreadyExists));
}

#[test]
fn with_token_replaces_the_token_and_nothing_else() {
    let kept = sample().with_token("fresh".to_string());
    assert_eq!(kept, Config { token: Some("fresh".to_string()), ..sample() });
    let first = Config { token: None, ..sample() }.with_token(String::new());
    assert_eq!(first, Config { token: Some(String::new()), ..sample() });
}

#[test]
fn test_generate() {
    let generated = perform_generate(false);
    assert!(generated.is_ok());
    let config = generated.unwrap();
    assert!(!config.base_url.is_empty());
    assert!(!config.local_username.is_empty());
    assert!(!config.full_username.is_empty());
    assert!(config.password.is_some() || config.token.is_some());
}
