use matrix_notify::api::login::LoginResponseBody;
use matrix_notify::api::mock_server::{MockEndpoint, MockMatrix};
use matrix_notify::api::verify_in_room::JoinedMembers;
use matrix_notify::api::{ApiError, MatrixErrorResponseBody};
use matrix_notify::config::{Config, ConfigError};
use matrix_notify::exchange::{Method, Payload, Reply, Request, RequestBody};
use matrix_notify::membership::ensure_member;
use matrix_notify::protocol::{Action, Event, Step};
use matrix_notify::session::{perform_send_message, Session, SessionState};
use matrix_notify::token::{resolve_token, ResolveState};

const BASE: &str = "http://127.0.0.1:4321";
const ROOM: &str = "!roomid:testmatrix.org";
const IDENTITY: &str = "@testuser:testmatrix";
const MESSAGE: &str = "Lorem ipsum dolor sit amet";

fn config(password: Option<&str>, token: Option<&str>) -> Config {
    Config {
        base_url: BASE.to_string(),
        local_username: "testuser".to_string(),
        full_username: IDENTITY.to_string(),
        password: password.map(str::to_string),
        token: token.map(str::to_string),
    }
}

fn ok(status: u16, text: &str) -> Reply {
    Reply::Response { status, payload: Payload::Text(text.to_string()) }
}

fn login_text(token: &str) -> String {
    format!(
        "{{\"access_token\":\"{}\",\"user_id\":\"{}\",\"home_server\":\"testmatrix\",\"device_id\":\"testingdevice\"}}",
        token, IDENTITY
    )
}

fn members_text(ids: &[&str]) -> String {
    let entries: Vec<String> =
        ids.iter().map(|id| format!("\"{}\":{{\"display_name\":\"Test\"}}", id)).collect();
    format!("{{\"joined\":{{{}}}}}", entries.join(","))
}

fn text_field(value: &serde_json::Value, name: &str) -> Result<String, String> {
    match value.get(name).and_then(|field| field.as_str()) {
        Some(text) => Ok(text.to_string()),
        None => Err(format!("missing field `{}`", name)),
    }
}

fn decode_login(text: &str) -> Result<LoginResponseBody, String> {
    let value: serde_json::Value = serde_json::from_str(text).map_err(|e| e.to_string())?;
    Ok(LoginResponseBody {
        user_id: text_field(&value, "user_id")?,
        access_token: text_field(&value, "access_token")?,
        home_server: text_field(&value, "home_server")?,
        device_id: text_field(&value, "device_id")?,
    })
}

fn decode_members(text: &str) -> Result<JoinedMembers, String> {
    let value: serde_json::Value = serde_json::from_str(text).map_err(|e| e.to_string())?;
    match value.get("joined").and_then(|joined| joined.as_object()) {
        Some(joined) => Ok(JoinedMembers { joined: joined.keys().cloned().collect() }),
        None => Err("missing field `joined`".to_string()),
    }
}

fn decode_error(text: &str) -> Result<MatrixErrorResponseBody, String> {
    let value: serde_json::Value = serde_json::from_str(text).map_err(|e| e.to_string())?;
    Ok(MatrixErrorResponseBody {
        errcode: text_field(&value, "errcode")?,
        error: text_field(&value, "error")?,
        retry_after_ms: value.get("retry_after_ms").and_then(|field| field.as_u64()),
    })
}

/// A server that answers each endpoint with one fixed reply, and keeps a
/// record of everything it was asked to do.
struct Server {
    profile: Reply,
    login: Reply,
    members: Reply,
    join: Reply,
    send: Reply,
    save: Result<(), ConfigError>,
    log: Vec<Action>,
}

impl Server {
    /// The token is live, the login grants "testtoken", the account is a
    /// member, and joining and sending succeed.
    fn friendly() -> Server {
        Server {
            profile: ok(200, "{}"),
            login: ok(200, login_text("testtoken").as_str()),
            members: ok(200, members_text(&[IDENTITY]).as_str()),
            join: ok(200, "{}"),
            send: ok(200, "{}"),
            save: Ok(()),
            log: Vec::new(),
        }
    }

    /// A server that answers as the stand-in homeserver says.
    fn serving(mock: &MockMatrix) -> Server {
        let reply = |endpoint: &MockEndpoint| ok(endpoint.status, endpoint.body.as_str());
        Server {
            profile: reply(&mock.profile_endpoint),
            login: reply(&mock.login_endpoint),
            members: reply(&mock.room_members_endpoint),
            join: reply(&mock.join_room_endpoint),
            send: reply(&mock.send_message_endpoint),
            save: Ok(()),
            log: Vec::new(),
        }
    }

    fn route(&self, request: &Request) -> Reply {
        let path = request.url.strip_prefix(BASE).expect("a request to this server");
        let reply = match (request.method, path) {
            (Method::Get, p) if p.starts_with("/_matrix/client/r0/profile/") => &self.profile,
            (Method::Post, "/_matrix/client/r0/login") => &self.login,
            (Method::Get, p) if p.ends_with("/joined_members") => &self.members,
            (Method::Post, p) if p.ends_with("/join") => &self.join,
            (Method::Post, p) if p.ends_with("/send/m.room.message") => &self.send,
            other => panic!("no such endpoint: {:?}", other),
        };
        reply.clone()
    }

    fn answer(&mut self, action: Action) -> Event {
        self.log.push(action.clone());
        match action {
            Action::Http(request) => Event::Http(self.route(&request)),
            Action::DecodeLogin(text) => Event::Login(decode_login(text.as_str())),
            Action::DecodeMembers(text) => Event::Members(decode_members(text.as_str())),
            Action::DecodeError(text) => Event::Error(decode_error(text.as_str())),
            Action::Report(_) => Event::Reported,
            Action::Save(_) => Event::Saved(self.save.clone()),
        }
    }

    fn requests(&self) -> Vec<(Method, String)> {
        let mut seen = Vec::new();
        for action in &self.log {
            if let Action::Http(request) = action {
                let path = request.url.strip_prefix(BASE).unwrap().to_string();
                seen.push((request.method, path));
            }
        }
        seen
    }

    fn calls_to(&self, suffix: &str) -> usize {
        self.requests().iter().filter(|(_, path)| path.ends_with(suffix)).count()
    }

    fn saved(&self) -> Vec<Config> {
        let mut seen = Vec::new();
        for action in &self.log {
            if let Action::Save(config) = action {
                seen.push(config.clone());
            }
        }
        seen
    }

    fn reports(&self) -> Vec<ApiError> {
        let mut seen = Vec::new();
        for action in &self.log {
            if let Action::Report(error) = action {
                seen.push(error.clone());
            }
        }
        seen
    }
}

fn run_resolver(config: &Config, server: &mut Server) -> Result<String, ApiError> {
    let mut step = resolve_token(config);
    loop {
        match step {
            Step::Done(outcome) => return outcome,
            Step::Next(state, action) => {
                let event = server.answer(action);
                step = state.resume(config, event).expect("the event answers the action");
            }
        }
    }
}

fn run_guarantor(room: &str, config: &Config, server: &mut Server) -> Result<(), ApiError> {
    let mut step = ensure_member(room, config);
    loop {
        match step {
            Step::Done(outcome) => return outcome,
            Step::Next(state, action) => {
                let event = server.answer(action);
                step = state.resume(room, config, event).expect("the event answers the action");
            }
        }
    }
}

fn run_session(loaded: Result<Config, ConfigError>, server: &mut Server) -> Result<(), ApiError> {
    let mut step = perform_send_message(loaded, ROOM, MESSAGE);
    loop {
        match step {
            Step::Done(outcome) => return outcome,
            Step::Next(session, action) => {
                let event = server.answer(action);
                step = session.resume(event).expect("the event answers the action");
            }
        }
    }
}

const PROFILE: &str = "/_matrix/client/r0/profile/@testuser:testmatrix";
const LOGIN: &str = "/_matrix/client/r0/login";
const MEMBERS: &str = "/_matrix/client/r0/rooms/!roomid:testmatrix.org/joined_members";
const JOIN: &str = "/_matrix/client/r0/rooms/!roomid:testmatrix.org/join";
const SEND: &str = "/_matrix/client/r0/rooms/!roomid:testmatrix.org/send/m.room.message";

fn get(path: &str) -> (Method, String) {
    (Method::Get, path.to_string())
}

fn post(path: &str) -> (Method, String) {
    (Method::Post, path.to_string())
}

#[test]
fn live_token_is_returned_unchanged_without_login() {
    let mut server = Server::friendly();
    let config = config(Some("secret123"), Some("live-token"));
    assert_eq!(run_resolver(&config, &mut server), Ok("live-token".to_string()));
    assert_eq!(server.requests(), vec![get(PROFILE)]);
    assert_eq!(server.calls_to("/login"), 0);
    assert_eq!(server.log.len(), 1);
}

#[test]
fn live_token_is_presented_as_bearer() {
    let mut server = Server::friendly();
    let config = config(None, Some("live-token"));
    assert_eq!(run_resolver(&config, &mut server), Ok("live-token".to_string()));
    assert_eq!(
        server.log,
        vec![Action::Http(Request {
            method: Method::Get,
            url: format!("{}{}", BASE, PROFILE),
            bearer: Some("live-token".to_string()),
            body: RequestBody::Empty,
        })]
    );
}

#[test]
fn absent_token_logs_in_once() {
    let mut server = Server::friendly();
    server.login = ok(200, login_text("fresh").as_str());
    let config = config(Some("secret123"), None);
    assert_eq!(run_resolver(&config, &mut server), Ok("fresh".to_string()));
    assert_eq!(server.requests(), vec![post(LOGIN)]);
    assert_eq!(server.calls_to("/login"), 1);
    assert!(server.reports().is_empty());
}

#[test]
fn rejected_token_is_reported_and_login_takes_over() {
    let mut server = Server::friendly();
    server.profile = ok(401, "{\"errcode\":\"M_UNKNOWN_TOKEN\",\"error\":\"nope\"}");
    server.login = ok(200, login_text("fresh").as_str());
    let config = config(Some("secret123"), Some("stale"));
    assert_eq!(run_resolver(&config, &mut server), Ok("fresh".to_string()));
    assert_eq!(server.requests(), vec![get(PROFILE), post(LOGIN)]);
    assert_eq!(server.calls_to("/login"), 1);
    assert_eq!(
        server.reports(),
        vec![ApiError::MatrixApiError {
            status_code: 401,
            error_message: "{\"errcode\":\"M_UNKNOWN_TOKEN\",\"error\":\"nope\"}".to_string(),
        }]
    );
}

#[test]
fn unreachable_profile_is_reported_and_login_takes_over() {
    let mut server = Server::friendly();
    server.profile = Reply::Unreachable("connection refused".to_string());
    server.login = ok(200, login_text("fresh").as_str());
    let config = config(Some("secret123"), Some("stale"));
    assert_eq!(run_resolver(&config, &mut server), Ok("fresh".to_string()));
    assert_eq!(server.calls_to("/login"), 1);
    assert_eq!(
        server.reports(),
        vec![ApiError::HttpError {
            cause: "connection refused".to_string(),
            url: format!("{}{}", BASE, PROFILE),
        }]
    );
}

#[test]
fn login_sends_local_identity_and_password() {
    let mut server = Server::friendly();
    let config = config(Some("secret123"), None);
    run_resolver(&config, &mut server).unwrap();
    match &server.log[0] {
        Action::Http(request) => {
            assert_eq!(request.bearer, None);
            match &request.body {
                RequestBody::Login(body) => {
                    assert_eq!(body.login_type, "m.login.password");
                    assert_eq!(body.user, "testuser");
                    assert_eq!(body.password, "secret123");
                }
                other => panic!("{:?}", other),
            }
        }
        other => panic!("{:?}", other),
    }
}

#[test]
fn no_token_and_no_password_fails_without_any_call() {
    let mut server = Server::friendly();
    let config = config(None, None);
    assert_eq!(run_resolver(&config, &mut server), Err(ApiError::MissingPassword));
    assert!(server.log.is_empty());
    assert_eq!(resolve_token(&config), Step::Done(Err(ApiError::MissingPassword)));
}

#[test]
fn failed_login_fails_the_resolver_with_its_status() {
    let mut server = Server::friendly();
    server.login = ok(403, "{\"errcode\":\"M_FORBIDDEN\",\"error\":\"Invalid password\"}");
    let config = config(Some("wrong"), None);
    assert_eq!(run_resolver(&config, &mut server), Err(ApiError::LoginFailed(403)));
    assert_eq!(server.calls_to("/login"), 1);
}

#[test]
fn malformed_login_body_is_a_serialization_error() {
    let mut server = Server::friendly();
    server.login = ok(200, "{\"user_id\":\"@testuser:testmatrix\"}");
    let config = config(Some("secret123"), None);
    assert_eq!(
        run_resolver(&config, &mut server),
        Err(ApiError::SerdeJson("missing field `access_token`".to_string()))
    );
    assert_eq!(server.calls_to("/login"), 1);
}

#[test]
fn resolver_resumed_with_a_foreign_config_without_token_stops() {
    let with_token = config(None, Some("live"));
    let without = config(None, None);
    let state = match resolve_token(&with_token) {
        Step::Next(state, _) => state,
        other => panic!("{:?}", other),
    };
    assert_eq!(state.resume(&without, Event::Http(ok(200, "{}"))), None);
    assert_eq!(ResolveState::Reporting.resume(&with_token, Event::Http(ok(200, "{}"))), None);
}

#[test]
fn member_is_left_alone() {
    let mut server = Server::friendly();
    let config = config(None, Some("testtoken"));
    assert_eq!(run_guarantor(ROOM, &config, &mut server), Ok(()));
    assert_eq!(server.requests(), vec![get(MEMBERS)]);
    assert_eq!(server.calls_to("/join"), 0);
}

#[test]
fn ensure_member_twice_never_joins() {
    let mut server = Server::friendly();
    server.members = ok(200, members_text(&["@someone:testmatrix", IDENTITY]).as_str());
    let config = config(None, Some("testtoken"));
    assert_eq!(run_guarantor(ROOM, &config, &mut server), Ok(()));
    assert_eq!(run_guarantor(ROOM, &config, &mut server), Ok(()));
    assert_eq!(server.requests(), vec![get(MEMBERS), get(MEMBERS)]);
    assert_eq!(server.calls_to("/join"), 0);
}

#[test]
fn absent_member_joins_once() {
    let mut server = Server::friendly();
    server.members = ok(200, members_text(&["@someone:testmatrix"]).as_str());
    let config = config(None, Some("testtoken"));
    assert_eq!(run_guarantor(ROOM, &config, &mut server), Ok(()));
    assert_eq!(server.requests(), vec![get(MEMBERS), post(JOIN)]);
    assert_eq!(server.calls_to("/join"), 1);
}

#[test]
fn identity_of_other_case_is_absent() {
    let mut server = Server::friendly();
    server.members = ok(200, members_text(&["@TestUser:testmatrix"]).as_str());
    let config = config(None, Some("testtoken"));
    assert_eq!(run_guarantor(ROOM, &config, &mut server), Ok(()));
    assert_eq!(server.calls_to("/join"), 1);
}

#[test]
fn refused_join_fails_with_its_status() {
    let mut server = Server::friendly();
    server.members = ok(200, members_text(&[]).as_str());
    server.join = ok(404, "{\"errcode\":\"M_NOT_FOUND\",\"error\":\"No such room\"}");
    let config = config(None, Some("testtoken"));
    assert_eq!(run_guarantor(ROOM, &config, &mut server), Err(ApiError::JoinRoomFailed(404)));
    assert_eq!(server.calls_to("/join"), 1);
}

#[test]
fn explained_refusal_of_the_membership_query_counts_as_absent() {
    let mut server = Server::friendly();
    server.members = ok(403, "{\"errcode\":\"M_FORBIDDEN\",\"error\":\"not in room\"}");
    let config = config(None, Some("testtoken"));
    assert_eq!(run_guarantor(ROOM, &config, &mut server), Ok(()));
    assert_eq!(server.requests(), vec![get(MEMBERS), post(JOIN)]);
    assert_eq!(server.calls_to("/join"), 1);
    assert_eq!(server.log.len(), 3);
}

#[test]
fn unexplained_refusal_of_the_membership_query_is_fatal_and_never_joins() {
    let mut server = Server::friendly();
    server.members = ok(502, "<html>Bad Gateway</html>");
    let config = config(None, Some("testtoken"));
    match run_guarantor(ROOM, &config, &mut server) {
        Err(ApiError::SerdeJson(_)) => {}
        other => panic!("{:?}", other),
    }
    assert_eq!(server.requests(), vec![get(MEMBERS)]);
    assert_eq!(server.calls_to("/join"), 0);
}

#[test]
fn unreachable_membership_query_is_fatal_and_never_joins() {
    let mut server = Server::friendly();
    server.members = Reply::Unreachable("timed out".to_string());
    let config = config(None, Some("testtoken"));
    assert_eq!(
        run_guarantor(ROOM, &config, &mut server),
        Err(ApiError::HttpError {
            cause: "timed out".to_string(),
            url: format!("{}{}", BASE, MEMBERS),
        })
    );
    assert_eq!(server.calls_to("/join"), 0);
}

#[test]
fn members_of_another_shape_are_a_serialization_error() {
    let mut server = Server::friendly();
    server.members = ok(200, "{\"chunk\":[]}");
    let config = config(None, Some("testtoken"));
    assert_eq!(
        run_guarantor(ROOM, &config, &mut server),
        Err(ApiError::SerdeJson("missing field `joined`".to_string()))
    );
    assert_eq!(server.calls_to("/join"), 0);
}

#[test]
fn guarantor_without_token_is_forbidden_without_any_call() {
    let mut server = Server::friendly();
    let config = config(Some("pw"), None);
    assert_eq!(run_guarantor(ROOM, &config, &mut server), Err(ApiError::JoinRoomFailed(403)));
    assert!(server.log.is_empty());
}

#[test]
fn password_run_logs_in_joins_sends_and_keeps_the_token() {
    let mut server = Server::friendly();
    server.login = ok(200, login_text("tok-A").as_str());
    server.members = ok(200, members_text(&["@someone:testmatrix"]).as_str());
    let loaded = config(Some("secret123"), None);
    assert_eq!(run_session(Ok(loaded), &mut server), Ok(()));
    assert_eq!(server.requests(), vec![post(LOGIN), get(MEMBERS), post(JOIN), post(SEND)]);
    assert_eq!(server.saved(), vec![config(Some("secret123"), Some("tok-A"))]);
    for action in &server.log[3..] {
        if let Action::Http(request) = action {
            assert_eq!(request.bearer, Some("tok-A".to_string()));
        }
    }
}

#[test]
fn token_is_saved_before_anything_is_asked_of_the_room() {
    let mut server = Server::friendly();
    server.login = ok(200, login_text("tok-A").as_str());
    let loaded = config(Some("secret123"), None);
    assert_eq!(run_session(Ok(loaded), &mut server), Ok(()));
    let saved_at = server.log.iter().position(|a| matches!(a, Action::Save(_))).unwrap();
    let room_at = server
        .log
        .iter()
        .position(|a| matches!(a, Action::Http(r) if r.url.contains("/rooms/")))
        .unwrap();
    assert!(saved_at < room_at);
}

#[test]
fn stale_token_without_password_fails_before_login_or_send() {
    let mut server = Server::friendly();
    server.profile = ok(401, "{\"errcode\":\"M_UNKNOWN_TOKEN\",\"error\":\"stale\"}");
    let loaded = config(None, Some("stale"));
    assert_eq!(run_session(Ok(loaded), &mut server), Err(ApiError::MissingPassword));
    assert_eq!(server.requests(), vec![get(PROFILE)]);
    assert_eq!(server.calls_to("/login"), 0);
    assert_eq!(server.calls_to("/send/m.room.message"), 0);
    assert!(server.saved().is_empty());
    assert_eq!(server.reports().len(), 1);
}

#[test]
fn member_sends_directly() {
    let mut server = Server::friendly();
    let loaded = config(None, Some("testtoken"));
    assert_eq!(run_session(Ok(loaded), &mut server), Ok(()));
    assert_eq!(server.requests(), vec![get(PROFILE), get(MEMBERS), post(SEND)]);
    assert_eq!(server.calls_to("/join"), 0);
}

#[test]
fn rate_limited_send_fails_with_the_servers_message_and_keeps_the_token() {
    let mut server = Server::friendly();
    server.login = ok(200, login_text("tok-A").as_str());
    server.send = ok(
        429,
        "{\"errcode\":\"M_LIMIT_EXCEEDED\",\"error\":\"too many requests\",\"retry_after_ms\":5000}",
    );
    let loaded = config(Some("secret123"), None);
    assert_eq!(
        run_session(Ok(loaded), &mut server),
        Err(ApiError::MatrixApiError {
            status_code: 429,
            error_message: "too many requests".to_string(),
        })
    );
    assert_eq!(server.saved(), vec![config(Some("secret123"), Some("tok-A"))]);
    assert_eq!(server.calls_to("/send/m.room.message"), 1);
}

fn endpoint(mock: &MockEndpoint) -> (Method, String) {
    (mock.method, mock.path.clone())
}

#[test]
fn test_send_with_password() {
    let room = "!roomid:testmatrix.org";
    let local_username = "testuser";
    let full_username = "@testuser:testmatrix";
    let password = "testpassword";
    let mock_server = MockMatrix::new(room, full_username);
    let mut server = Server::serving(&mock_server);

    let loaded = Config {
        base_url: BASE.to_string(),
        local_username: local_username.to_string(),
        full_username: full_username.to_string(),
        password: Some(password.to_string()),
        token: None,
    };
    let mut step = perform_send_message(Ok(loaded), room, "Lorem ipsum dolor sit amet");
    let outcome = loop {
        match step {
            Step::Done(outcome) => break outcome,
            Step::Next(session, action) => {
                let event = server.answer(action);
                step = session.resume(event).unwrap();
            }
        }
    };
    assert_eq!(outcome, Ok(()));

    let saved = server.saved();
    assert_eq!(saved.len(), 1);
    assert_eq!(saved[0].token, Some("testtoken".to_string()));
    assert_eq!(saved[0].password, Some("testpassword".to_string()));

    assert_eq!(
        server.requests(),
        vec![
            endpoint(&mock_server.login_endpoint),
            endpoint(&mock_server.room_members_endpoint),
            endpoint(&mock_server.send_message_endpoint),
        ]
    );
}

#[test]
fn test_send_with_token() {
    let room = "!roomid:testmatrix.org";
    let local_username = "testuser";
    let full_username = "@testuser:testmatrix";
    let token = "testtoken";
    let mock_server = MockMatrix::new(room, full_username);
    let mut server = Server::serving(&mock_server);

    let loaded = Config {
        base_url: BASE.to_string(),
        local_username: local_username.to_string(),
        full_username: full_username.to_string(),
        password: None,
        token: Some(token.to_string()),
    };
    let mut step = perform_send_message(Ok(loaded), room, "Lorem ipsum dolor sit amet");
    let outcome = loop {
        match step {
            Step::Done(outcome) => break outcome,
            Step::Next(session, action) => {
                let event = server.answer(action);
                step = session.resume(event).unwrap();
            }
        }
    };
    assert_eq!(outcome, Ok(()));

    let saved = server.saved();
    assert_eq!(saved.len(), 1);
    assert_eq!(saved[0].token, Some("testtoken".to_string()));

    assert_eq!(
        server.requests(),
        vec![
            endpoint(&mock_server.profile_endpoint),
            endpoint(&mock_server.room_members_endpoint),
            endpoint(&mock_server.send_message_endpoint),
        ]
    );
}

#[test]
fn message_goes_out_as_text_with_the_resolved_token() {
    let mut server = Server::friendly();
    let loaded = config(None, Some("testtoken"));
    run_session(Ok(loaded), &mut server).unwrap();
    assert_eq!(
        server.log.last(),
        Some(&Action::Http(Request {
            method: Method::Post,
            url: format!("{}{}", BASE, SEND),
            bearer: Some("testtoken".to_string()),
            body: RequestBody::Message(matrix_notify::api::send_message::MessageSendRequestBody {
                msgtype: "m.text".to_string(),
                body: MESSAGE.to_string(),
            }),
        }))
    );
}

#[test]
fn credentials_that_could_not_be_loaded_end_the_run() {
    let mut server = Server::friendly();
    let error = ConfigError::TomlDeserialize("missing field `base_url`".to_string());
    assert_eq!(run_session(Err(error.clone()), &mut server), Err(ApiError::Config(error)));
    assert!(server.log.is_empty());
}

#[test]
fn credentials_that_could_not_be_saved_end_the_run_before_the_room() {
    let mut server = Server::friendly();
    server.save = Err(ConfigError::Io("read-only file system".to_string()));
    let loaded = config(None, Some("testtoken"));
    assert_eq!(
        run_session(Ok(loaded), &mut server),
        Err(ApiError::Config(ConfigError::Io("read-only file system".to_string())))
    );
    assert_eq!(server.requests(), vec![get(PROFILE)]);
}

#[test]
fn refused_join_ends_the_run_unsent_with_the_token_kept() {
    let mut server = Server::friendly();
    server.members = ok(200, members_text(&[]).as_str());
    server.join = ok(403, "{}");
    let loaded = config(Some("secret123"), None);
    assert_eq!(run_session(Ok(loaded), &mut server), Err(ApiError::JoinRoomFailed(403)));
    assert_eq!(server.calls_to("/send/m.room.message"), 0);
    assert_eq!(server.saved(), vec![config(Some("secret123"), Some("testtoken"))]);
}

#[test]
fn unreachable_send_names_the_message_url() {
    let mut server = Server::friendly();
    server.send = Reply::Unreachable("connection reset".to_string());
    let loaded = config(None, Some("testtoken"));
    assert_eq!(
        run_session(Ok(loaded), &mut server),
        Err(ApiError::HttpError {
            cause: "connection reset".to_string(),
            url: format!("{}{}", BASE, SEND),
        })
    );
}

#[test]
fn session_takes_each_event_in_its_turn_only() {
    let loaded = config(None, Some("testtoken"));
    let session = match perform_send_message(Ok(loaded), ROOM, MESSAGE) {
        Step::Next(session, _) => session,
        other => panic!("{:?}", other),
    };
    assert_eq!(session.state, SessionState::Resolving(ResolveState::Verifying(
        matrix_notify::api::verify_token::VerifyTokenState::AwaitingReply
    )));
    assert_eq!(session.clone().resume(Event::Saved(Ok(()))), None);
    assert_eq!(session.clone().resume(Event::Reported), None);
    let persisting = match session.resume(Event::Http(ok(200, "{}"))) {
        Some(Step::Next(session, Action::Save(config))) => {
            assert_eq!(config, session.config);
            session
        }
        other => panic!("{:?}", other),
    };
    assert_eq!(persisting.state, SessionState::Persisting);
    assert_eq!(persisting.room, ROOM);
    assert_eq!(persisting.message, MESSAGE);
    assert_eq!(persisting.clone().resume(Event::Http(ok(200, "{}"))), None);
    let _: Session = persisting;
}

#[test]
fn credentials_that_could_not_be_put_into_toml_end_the_run() {
    let mut server = Server::friendly();
    server.save = Err(ConfigError::TomlSerialize("unsupported value".to_string()));
    let loaded = config(Some("secret123"), None);
    assert_eq!(
        run_session(Ok(loaded), &mut server),
        Err(ApiError::Config(ConfigError::TomlSerialize("unsupported value".to_string())))
    );
    assert_eq!(server.requests(), vec![post(LOGIN)]);
    assert_eq!(server.saved(), vec![config(Some("secret123"), Some("testtoken"))]);
}

#[test]
fn credentials_that_could_not_be_read_end_the_run() {
    let mut server = Server::friendly();
    let error = ConfigError::Io("No such file or directory (os error 2)".to_string());
    assert_eq!(run_session(Err(error.clone()), &mut server), Err(ApiError::Config(error)));
    assert!(server.log.is_empty());
}

#[test]
fn unexplained_rejection_of_the_message_is_a_serialization_error() {
    let mut server = Server::friendly();
    server.send = ok(502, "<html>Bad Gateway</html>");
    let loaded = config(None, Some("testtoken"));
    match run_session(Ok(loaded), &mut server) {
        Err(ApiError::SerdeJson(_)) => {}
        other => panic!("{:?}", other),
    }
    assert_eq!(server.calls_to("/send/m.room.message"), 1);
}

#[test]
fn run_without_token_and_password_asks_nothing() {
    let mut server = Server::friendly();
    let loaded = config(None, None);
    assert_eq!(run_session(Ok(loaded), &mut server), Err(ApiError::MissingPassword));
    assert!(server.log.is_empty());
}

#[test]
fn no_run_takes_more_than_ten_actions() {
    let mut server = Server::friendly();
    server.profile = ok(401, "{}");
    server.members = ok(200, members_text(&[]).as_str());
    server.send = ok(429, "{\"errcode\":\"M_LIMIT_EXCEEDED\",\"error\":\"slow\"}");
    let loaded = config(Some("secret123"), Some("stale"));
    assert_eq!(
        run_session(Ok(loaded), &mut server),
        Err(ApiError::MatrixApiError { status_code: 429, error_message: "slow".to_string() })
    );
    assert_eq!(server.log.len(), 10);
    assert_eq!(
        server.requests(),
        vec![get(PROFILE), post(LOGIN), get(MEMBERS), post(JOIN), post(SEND)]
    );
}
