//! Joining a room.

use crate::api::{ApiError, ApiErrorView};
use crate::config::{join_url, Config, ConfigView};
use crate::exchange::{
    is_success, success_status, undelivered, Method, Reply, ReplyView, Request, RequestBody,
    RequestBodyView, RequestView,
};
use crate::protocol::{resumed_view, Action, ActionView, Event, EventView, Step, StepView};
use vstd::prelude::*;

verus! {

/// The status with which a join fails that could not even be asked for.
pub const FORBIDDEN: u16 = 403;

/// Where a join stands while it is not done.
#[derive(Debug, Clone, Copy, PartialEq, Eq, Structural)]
pub enum JoinRoomState {
    /// The join request is under way.
    AwaitingReply,
}

impl View for JoinRoomState {
    type V = JoinRoomState;

    open spec fn view(&self) -> JoinRoomState {
        *self
    }
}

/// The request that joins `room` in the name of `token`.
pub open spec fn join_room_request(
    room: Seq<char>,
    config: ConfigView,
    token: Seq<char>,
) -> RequestView {
    RequestView {
        method: Method::Post,
        url: join_url(config.base_url, room),
        bearer: Some(token),
        body: RequestBodyView::Empty,
    }
}

/// Without a token the join fails as forbidden, with no request made.
pub open spec fn join_room_start(room: Seq<char>, config: ConfigView) -> StepView<
    JoinRoomState,
    (),
> {
    match config.token {
        Some(token) => StepView::Next(
            JoinRoomState::AwaitingReply,
            ActionView::Http(join_room_request(room, config, token)),
        ),
        None => StepView::Done(Err(ApiErrorView::JoinRoomFailed(FORBIDDEN))),
    }
}

/// What a reply to the join request says: the room is joined exactly when
/// the server answers with a success status; any other status fails the
/// join with that status.
pub open spec fn join_room_verdict(room: Seq<char>, config: ConfigView, reply: ReplyView) -> Result<
    (),
    ApiErrorView,
> {
    match reply {
        ReplyView::Response { status, payload } => {
            if success_status(status) {
                Ok(())
            } else {
                Err(ApiErrorView::JoinRoomFailed(status))
            }
        },
        _ => Err(undelivered(reply, join_url(config.base_url, room))->Some_0),
    }
}

/// A join waits for nothing but the reply to its request.
pub open spec fn join_room_resume(
    state: JoinRoomState,
    room: Seq<char>,
    config: ConfigView,
    event: EventView,
) -> Option<StepView<JoinRoomState, ()>> {
    match event {
        EventView::Http(reply) => Some(StepView::Done(join_room_verdict(room, config, reply))),
        _ => None,
    }
}

/// Starts the join of `room` by the account of `config`.
pub fn join_room(room: &str, config: &Config) -> (step: Step<JoinRoomState, ()>)
    ensures
        step@ == join_room_start(room@, config@),
{
    match &config.token {
        Some(token) => {
            let request = Request {
                method: Method::Post,
                url: config.get_join_url(room),
                bearer: Some(token.clone()),
                body: RequestBody::Empty,
            };
            Step::Next(JoinRoomState::AwaitingReply, Action::Http(request))
        },
        None => Step::Done(Err(ApiError::JoinRoomFailed(FORBIDDEN))),
    }
}

impl JoinRoomState {
    /// Ends the join with the verdict on the reply to the join request, or
    /// gives `None` where `event` is no such reply.
    pub fn resume(self, room: &str, config: &Config, event: Event) -> (resumed: Option<
        Step<JoinRoomState, ()>,
    >)
        ensures
            resumed_view(resumed) == join_room_resume(self, room@, config@, event@),
    {
        match event {
            Event::Http(reply) => {
                let verdict = match reply {
                    Reply::Unencodable(message) => Err(ApiError::SerdeJson(message)),
                    Reply::Unreachable(cause) => Err(
                        ApiError::HttpError { cause, url: config.get_join_url(room) },
                    ),
                    Reply::Response { status, payload } => {
                        if is_success(status) {
                            Ok(())
                        } else {
                            Err(ApiError::JoinRoomFailed(status))
                        }
                    },
                };
                Some(Step::Done(verdict))
            },
            _ => None,
        }
    }
}

} // verus!
