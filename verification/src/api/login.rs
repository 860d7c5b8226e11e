//! Password login.

use crate::api::{ApiError, ApiErrorView};
use crate::config::{login_url, Config, ConfigView};
use crate::exchange::{
    is_success, success_status, undelivered, Method, Payload, PayloadView, Reply, ReplyView,
    Request, RequestBody, RequestBodyView, RequestView,
};
use crate::protocol::{
    count_requests, lemma_count_requests_push, resumed_view, run, Action, ActionView, Event,
    EventView, Step, StepView, Trace, World,
};
use vstd::prelude::*;

verus! {

/// What the login endpoint is sent.
#[derive(Debug, PartialEq, Eq)]
pub struct LoginRequestBody {
    /// The login flow asked for; sent under the name `type`.
    pub login_type: String,
    pub user: String,
    pub password: String,
}

/// [`LoginRequestBody`] in specifications.
pub struct LoginRequestBodyView {
    pub login_type: Seq<char>,
    pub user: Seq<char>,
    pub password: Seq<char>,
}

impl View for LoginRequestBody {
    type V = LoginRequestBodyView;

    open spec fn view(&self) -> LoginRequestBodyView {
        LoginRequestBodyView {
            login_type: self.login_type@,
            user: self.user@,
            password: self.password@,
        }
    }
}

impl Clone for LoginRequestBody {
    fn clone(&self) -> (copy: Self)
        ensures
            copy == *self,
    {
        LoginRequestBody {
            login_type: self.login_type.clone(),
            user: self.user.clone(),
            password: self.password.clone(),
        }
    }
}

/// The body that asks for a password login of `user`.
pub open spec fn login_request_body(user: Seq<char>, password: Seq<char>) -> LoginRequestBodyView {
    LoginRequestBodyView { login_type: "m.login.password"@, user, password }
}

impl LoginRequestBody {
    /// The body for a password login of `user`.
    pub fn new(user: &str, password: &str) -> (body: Self)
        ensures
            body@ == login_request_body(user@, password@),
    {
        Self {
            login_type: "m.login.password".to_owned(),
            user: user.to_owned(),
            password: password.to_owned(),
        }
    }
}

/// What the login endpoint answers on success.
#[derive(Debug, PartialEq, Eq)]
pub struct LoginResponseBody {
    pub user_id: String,
    pub access_token: String,
    pub home_server: String,
    pub device_id: String,
}

/// [`LoginResponseBody`] in specifications.
pub struct LoginResponseBodyView {
    pub user_id: Seq<char>,
    pub access_token: Seq<char>,
    pub home_server: Seq<char>,
    pub device_id: Seq<char>,
}

impl View for LoginResponseBody {
    type V = LoginResponseBodyView;

    open spec fn view(&self) -> LoginResponseBodyView {
        LoginResponseBodyView {
            user_id: self.user_id@,
            access_token: self.access_token@,
            home_server: self.home_server@,
            device_id: self.device_id@,
        }
    }
}

/// Where a login stands while it is not done.
#[derive(Debug, Clone, Copy, PartialEq, Eq, Structural)]
pub enum LoginState {
    /// The login request is under way.
    AwaitingReply,
    /// The response is being read as a login body.
    AwaitingBody,
}

impl View for LoginState {
    type V = LoginState;

    open spec fn view(&self) -> LoginState {
        *self
    }
}

/// The login request for the account of `config` with `password`: it is sent
/// in nobody's name.
pub open spec fn login_request(config: ConfigView, password: Seq<char>) -> RequestView {
    RequestView {
        method: Method::Post,
        url: login_url(config.base_url),
        bearer: None,
        body: RequestBodyView::Login(login_request_body(config.local_username, password)),
    }
}

/// Whether `request` is a login call: it carries a login body.
pub open spec fn is_login_call(request: RequestView) -> bool {
    request.body is Login
}

/// A login needs a password: without one it fails at once, with no request
/// made.
pub open spec fn login_start(config: ConfigView) -> StepView<LoginState, Seq<char>> {
    match config.password {
        Some(password) => StepView::Next(
            LoginState::AwaitingReply,
            ActionView::Http(login_request(config, password)),
        ),
        None => StepView::Done(Err(ApiErrorView::MissingPassword)),
    }
}

/// What a reply to the login request leads to: a response with a success
/// status has its text read as a login body; any other status fails the
/// login with that status.
pub open spec fn login_replied(config: ConfigView, reply: ReplyView) -> StepView<
    LoginState,
    Seq<char>,
> {
    match reply {
        ReplyView::Response { status, payload } => {
            if success_status(status) {
                match payload {
                    PayloadView::Text(text) => StepView::Next(
                        LoginState::AwaitingBody,
                        ActionView::DecodeLogin(text),
                    ),
                    PayloadView::Unreadable(cause) => StepView::Done(
                        Err(ApiErrorView::HttpError { cause, url: login_url(config.base_url) }),
                    ),
                }
            } else {
                StepView::Done(Err(ApiErrorView::LoginFailed(status)))
            }
        },
        _ => StepView::Done(Err(undelivered(reply, login_url(config.base_url))->Some_0)),
    }
}

/// The token that a login body grants, or the serialization error of a body
/// that is none.
pub open spec fn login_granted(decoded: Result<LoginResponseBodyView, Seq<char>>) -> Result<
    Seq<char>,
    ApiErrorView,
> {
    match decoded {
        Ok(body) => Ok(body.access_token),
        Err(message) => Err(ApiErrorView::SerdeJson(message)),
    }
}

/// A login waits for the reply to its request first, and then for the
/// body of the response as it was read.
pub open spec fn login_resume(state: LoginState, config: ConfigView, event: EventView) -> Option<
    StepView<LoginState, Seq<char>>,
> {
    match (state, event) {
        (LoginState::AwaitingReply, EventView::Http(reply)) => Some(login_replied(config, reply)),
        (LoginState::AwaitingBody, EventView::Login(decoded)) => Some(
            StepView::Done(login_granted(decoded)),
        ),
        _ => None,
    }
}

/// Starts a password login with the credentials of `config`.
pub fn login(config: &Config) -> (step: Step<LoginState, String>)
    ensures
        step@ == login_start(config@),
{
    match &config.password {
        Some(password) => {
            let request = Request {
                method: Method::Post,
                url: config.get_login_url(),
                bearer: None,
                body: RequestBody::Login(
                    LoginRequestBody::new(config.local_username.as_str(), password.as_str()),
                ),
            };
            Step::Next(LoginState::AwaitingReply, Action::Http(request))
        },
        None => Step::Done(Err(ApiError::MissingPassword)),
    }
}

impl LoginState {
    /// Takes the login one event further, or gives `None` where `event` is
    /// not what the login waits for.
    pub fn resume(self, config: &Config, event: Event) -> (resumed: Option<
        Step<LoginState, String>,
    >)
        ensures
            resumed_view(resumed) == login_resume(self, config@, event@),
    {
        match (self, event) {
            (LoginState::AwaitingReply, Event::Http(reply)) => {
                let step = match reply {
                    Reply::Unencodable(message) => Step::Done(Err(ApiError::SerdeJson(message))),
                    Reply::Unreachable(cause) => Step::Done(
                        Err(ApiError::HttpError { cause, url: config.get_login_url() }),
                    ),
                    Reply::Response { status, payload } => {
                        if is_success(status) {
                            match payload {
                                Payload::Text(text) => Step::Next(
                                    LoginState::AwaitingBody,
                                    Action::DecodeLogin(text),
                                ),
                                Payload::Unreadable(cause) => Step::Done(
                                    Err(ApiError::HttpError { cause, url: config.get_login_url() }),
                                ),
                            }
                        } else {
                            Step::Done(Err(ApiError::LoginFailed(status)))
                        }
                    },
                };
                Some(step)
            },
            (LoginState::AwaitingBody, Event::Login(decoded)) => {
                let granted = match decoded {
                    Ok(body) => Ok(body.access_token),
                    Err(message) => Err(ApiError::SerdeJson(message)),
                };
                Some(Step::Done(granted))
            },
            _ => None,
        }
    }
}

/// The login's whole dialogue with `world`.
pub open spec fn login_run(config: ConfigView, world: World) -> Trace<Seq<char>> {
    run(
        |state: LoginState, event: EventView| login_resume(state, config, event),
        login_start(config),
        world,
        2,
    )
}

/// The token that `world` grants to a login with `password`: the access
/// token in the body of a response with a success status, where there is
/// such a response and its body is a login body.
pub open spec fn granted_token(config: ConfigView, world: World, password: Seq<char>) -> Option<
    Seq<char>,
> {
    match (world.http)(login_request(config, password)) {
        ReplyView::Response { status, payload: PayloadView::Text(text) } => {
            if success_status(status) {
                match (world.decode_login)(text) {
                    Ok(body) => Some(body.access_token),
                    Err(_) => None,
                }
            } else {
                None
            }
        },
        _ => None,
    }
}

/// A login with a password makes one login call and nothing else on the
/// network. It returns the token that the response grants, and fails where
/// the response grants none.
pub proof fn law_login_returns_granted_token(
    config: ConfigView,
    world: World,
    password: Seq<char>,
)
    requires
        config.password == Some(password),
    ensures
        count_requests(login_run(config, world).actions, |request: RequestView| true) == 1,
        login_run(config, world).actions[0] == ActionView::Http(login_request(config, password)),
        match granted_token(config, world, password) {
            Some(token) => login_run(config, world).outcome == Some(Ok::<_, ApiErrorView>(token)),
            None => login_run(config, world).outcome matches Some(Err(_)),
        },
{
    reveal_with_fuel(run, 3);
    let call = ActionView::Http(login_request(config, password));
    let trace = login_run(config, world);
    let any = |request: RequestView| true;
    lemma_count_requests_push(Seq::empty(), call, any);
    if let StepView::Next(_, decode) = login_replied(
        config,
        (world.http)(login_request(config, password)),
    ) {
        assert(trace.actions =~= Seq::empty().push(call).push(decode));
        lemma_count_requests_push(Seq::empty().push(call), decode, any);
    }
}

} // verus!
