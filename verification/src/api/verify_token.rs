//! Checking a stored access token by looking up the account's own profile.

use crate::api::{ApiError, ApiErrorView};
use crate::config::{profile_url, Config, ConfigView};
use crate::exchange::{
    is_success, success_status, undelivered, Method, Payload, PayloadView, Reply, ReplyView,
    Request, RequestBody, RequestBodyView, RequestView,
};
use crate::protocol::{resumed_view, Action, ActionView, Event, EventView, Step, StepView};
use vstd::prelude::*;

verus! {

/// Where a token check stands while it is not done.
#[derive(Debug, Clone, Copy, PartialEq, Eq, Structural)]
pub enum VerifyTokenState {
    /// The profile lookup is under way.
    AwaitingReply,
}

impl View for VerifyTokenState {
    type V = VerifyTokenState;

    open spec fn view(&self) -> VerifyTokenState {
        *self
    }
}

/// The profile lookup that proves `token` live: the account's own profile,
/// asked for in the token's name.
pub open spec fn verify_token_request(token: Seq<char>, config: ConfigView) -> RequestView {
    RequestView {
        method: Method::Get,
        url: profile_url(config.base_url, config.full_username),
        bearer: Some(token),
        body: RequestBodyView::Empty,
    }
}

/// What a reply to the profile lookup says of `token`: it is live exactly
/// when the server answers with a success status, and is then handed back as
/// it was. A rejection carries the status and the text of the response, the
/// empty text where that could not be read.
pub open spec fn verify_token_verdict(
    token: Seq<char>,
    config: ConfigView,
    reply: ReplyView,
) -> Result<Seq<char>, ApiErrorView> {
    match reply {
        ReplyView::Response { status, payload } => {
            if success_status(status) {
                Ok(token)
            } else {
                Err(
                    ApiErrorView::MatrixApiError {
                        status_code: status,
                        error_message: match payload {
                            PayloadView::Text(text) => text,
                            PayloadView::Unreadable(_) => Seq::empty(),
                        },
                    },
                )
            }
        },
        _ => Err(undelivered(reply, profile_url(config.base_url, config.full_username))->Some_0),
    }
}

/// A token check starts with the profile lookup.
pub open spec fn verify_token_start(token: Seq<char>, config: ConfigView) -> StepView<
    VerifyTokenState,
    Seq<char>,
> {
    StepView::Next(
        VerifyTokenState::AwaitingReply,
        ActionView::Http(verify_token_request(token, config)),
    )
}

/// A token check waits for nothing but the reply to the profile lookup.
pub open spec fn verify_token_resume(
    state: VerifyTokenState,
    token: Seq<char>,
    config: ConfigView,
    event: EventView,
) -> Option<StepView<VerifyTokenState, Seq<char>>> {
    match event {
        EventView::Http(reply) => Some(StepView::Done(verify_token_verdict(token, config, reply))),
        _ => None,
    }
}

/// Starts the check of `token`: asks for the profile lookup.
pub fn verify_token(token: &str, config: &Config) -> (step: Step<VerifyTokenState, String>)
    ensures
        step@ == verify_token_start(token@, config@),
{
    let request = Request {
        method: Method::Get,
        url: config.get_profile_url(),
        bearer: Some(token.to_owned()),
        body: RequestBody::Empty,
    };
    Step::Next(VerifyTokenState::AwaitingReply, Action::Http(request))
}

impl VerifyTokenState {
    /// Ends the check with the verdict on the reply to the profile lookup,
    /// or gives `None` where `event` is no such reply.
    pub fn resume(self, token: &str, config: &Config, event: Event) -> (resumed: Option<
        Step<VerifyTokenState, String>,
    >)
        ensures
            resumed_view(resumed) == verify_token_resume(self, token@, config@, event@),
    {
        match event {
            Event::Http(reply) => {
                let verdict = match reply {
                    Reply::Unencodable(message) => Err(ApiError::SerdeJson(message)),
                    Reply::Unreachable(cause) => Err(
                        ApiError::HttpError { cause, url: config.get_profile_url() },
                    ),
                    Reply::Response { status, payload } => {
                        if is_success(status) {
                            Ok(token.to_owned())
                        } else {
                            let error_message = match payload {
                                Payload::Text(text) => text,
                                Payload::Unreadable(_) => String::new(),
                            };
                            Err(ApiError::MatrixApiError { status_code: status, error_message })
                        }
                    },
                };
                Some(Step::Done(verdict))
            },
            _ => None,
        }
    }
}

} // verus!
