//! Asking whether the account has joined a room.

use crate::api::{ApiError, ApiErrorView, MatrixErrorResponseBodyView};
use crate::config::{room_members_url, Config, ConfigView};
use crate::exchange::{
    is_success, success_status, undelivered, Method, Payload, PayloadView, Reply, ReplyView,
    Request, RequestBody, RequestBodyView, RequestView,
};
use crate::protocol::{
    resumed_view, run, Action, ActionView, Event, EventView, Step, StepView, Trace, World,
};
use vstd::prelude::*;

verus! {

/// The identities that the server reports as joined to a room.
#[derive(Debug, PartialEq, Eq)]
pub struct JoinedMembers {
    pub joined: Vec<String>,
}

impl View for JoinedMembers {
    type V = Set<Seq<char>>;

    open spec fn view(&self) -> Set<Seq<char>> {
        self.joined.deep_view().to_set()
    }
}

impl JoinedMembers {
    /// Whether `identity` is among the members, letter for letter.
    pub fn contains(&self, identity: &str) -> (found: bool)
        ensures
            found == self@.contains(identity@),
    {
        let wanted = identity.to_owned();
        let mut i: usize = 0;
        while i < self.joined.len()
            invariant
                i <= self.joined.len(),
                wanted@ == identity@,
                forall|j: int| 0 <= j < i ==> self.joined@[j]@ != identity@,
            decreases self.joined.len() - i,
        {
            if self.joined[i] == wanted {
                assert(self.joined.deep_view()[i as int] == identity@);
                return true;
            }
            i += 1;
        }
        false
    }
}

/// Where a membership query stands while it is not done.
#[derive(Debug, Clone, Copy, PartialEq, Eq, Structural)]
pub enum VerifyInRoomState {
    /// The query is under way.
    AwaitingReply,
    /// The response is being read as a list of members.
    AwaitingBody,
    /// The server refused the query, and its response is being read as an
    /// explanation.
    AwaitingExplanation,
}

impl View for VerifyInRoomState {
    type V = VerifyInRoomState;

    open spec fn view(&self) -> VerifyInRoomState {
        *self
    }
}

/// The query for the joined members of `room`, asked in the name of `token`.
pub open spec fn verify_in_room_request(
    room: Seq<char>,
    config: ConfigView,
    token: Seq<char>,
) -> RequestView {
    RequestView {
        method: Method::Get,
        url: room_members_url(config.base_url, room),
        bearer: Some(token),
        body: RequestBodyView::Empty,
    }
}

/// Without a token nothing is asked, and the account counts as no member.
pub open spec fn verify_in_room_start(room: Seq<char>, config: ConfigView) -> StepView<
    VerifyInRoomState,
    bool,
> {
    match config.token {
        Some(token) => StepView::Next(
            VerifyInRoomState::AwaitingReply,
            ActionView::Http(verify_in_room_request(room, config, token)),
        ),
        None => StepView::Done(Ok(false)),
    }
}

/// What a reply to the query leads to: a response with a success status has
/// its text read as a list of members, one with any other status as the
/// server's explanation. A response that could not be read is a transport
/// failure like one that never came.
pub open spec fn verify_in_room_replied(
    room: Seq<char>,
    config: ConfigView,
    reply: ReplyView,
) -> StepView<VerifyInRoomState, bool> {
    match reply {
        ReplyView::Response { status, payload } => {
            match payload {
                PayloadView::Text(text) => {
                    if success_status(status) {
                        StepView::Next(
                            VerifyInRoomState::AwaitingBody,
                            ActionView::DecodeMembers(text),
                        )
                    } else {
                        StepView::Next(
                            VerifyInRoomState::AwaitingExplanation,
                            ActionView::DecodeError(text),
                        )
                    }
                },
                PayloadView::Unreadable(cause) => StepView::Done(
                    Err(
                        ApiErrorView::HttpError {
                            cause,
                            url: room_members_url(config.base_url, room),
                        },
                    ),
                ),
            }
        },
        _ => StepView::Done(
            Err(undelivered(reply, room_members_url(config.base_url, room))->Some_0),
        ),
    }
}

/// Whether the account is among the members that were read: its full
/// identity must be one of them as it stands.
pub open spec fn verify_in_room_found(
    config: ConfigView,
    decoded: Result<Set<Seq<char>>, Seq<char>>,
) -> Result<bool, ApiErrorView> {
    match decoded {
        Ok(members) => Ok(members.contains(config.full_username)),
        Err(message) => Err(ApiErrorView::SerdeJson(message)),
    }
}

/// What a refusal of the query means: where the server explains itself, the
/// account is no member; a refusal without an explanation that can be read
/// is a serialization error, and nothing is taken from it.
pub open spec fn verify_in_room_refused(
    decoded: Result<MatrixErrorResponseBodyView, Seq<char>>,
) -> Result<bool, ApiErrorView> {
    match decoded {
        Ok(_) => Ok(false),
        Err(message) => Err(ApiErrorView::SerdeJson(message)),
    }
}

/// A membership query waits for the reply to its request first, and then
/// for the body of the response as it was read.
pub open spec fn verify_in_room_resume(
    state: VerifyInRoomState,
    room: Seq<char>,
    config: ConfigView,
    event: EventView,
) -> Option<StepView<VerifyInRoomState, bool>> {
    match (state, event) {
        (VerifyInRoomState::AwaitingReply, EventView::Http(reply)) => Some(
            verify_in_room_replied(room, config, reply),
        ),
        (VerifyInRoomState::AwaitingBody, EventView::Members(decoded)) => Some(
            StepView::Done(verify_in_room_found(config, decoded)),
        ),
        (VerifyInRoomState::AwaitingExplanation, EventView::Error(decoded)) => Some(
            StepView::Done(verify_in_room_refused(decoded)),
        ),
        _ => None,
    }
}

/// Starts the query whether the account of `config` has joined `room`.
pub fn verify_in_room(room: &str, config: &Config) -> (step: Step<VerifyInRoomState, bool>)
    ensures
        step@ == verify_in_room_start(room@, config@),
{
    match &config.token {
        Some(token) => {
            let request = Request {
                method: Method::Get,
                url: config.get_room_members_url(room),
                bearer: Some(token.clone()),
                body: RequestBody::Empty,
            };
            Step::Next(VerifyInRoomState::AwaitingReply, Action::Http(request))
        },
        None => Step::Done(Ok(false)),
    }
}

impl VerifyInRoomState {
    /// Takes the query one event further, or gives `None` where `event` is
    /// not what the query waits for.
    pub fn resume(self, room: &str, config: &Config, event: Event) -> (resumed: Option<
        Step<VerifyInRoomState, bool>,
    >)
        ensures
            resumed_view(resumed) == verify_in_room_resume(self, room@, config@, event@),
    {
        match (self, event) {
            (VerifyInRoomState::AwaitingReply, Event::Http(reply)) => {
                let step = match reply {
                    Reply::Unencodable(message) => Step::Done(Err(ApiError::SerdeJson(message))),
                    Reply::Unreachable(cause) => Step::Done(
                        Err(ApiError::HttpError { cause, url: config.get_room_members_url(room) }),
                    ),
                    Reply::Response { status, payload } => {
                        match payload {
                            Payload::Text(text) => {
                                if is_success(status) {
                                    Step::Next(
                                        VerifyInRoomState::AwaitingBody,
                                        Action::DecodeMembers(text),
                                    )
                                } else {
                                    Step::Next(
                                        VerifyInRoomState::AwaitingExplanation,
                                        Action::DecodeError(text),
                                    )
                                }
                            },
                            Payload::Unreadable(cause) => Step::Done(
                                Err(
                                    ApiError::HttpError {
                                        cause,
                                        url: config.get_room_members_url(room),
                                    },
                                ),
                            ),
                        }
                    },
                };
                Some(step)
            },
            (VerifyInRoomState::AwaitingBody, Event::Members(decoded)) => {
                let found = match decoded {
                    Ok(members) => Ok(members.contains(config.full_username.as_str())),
                    Err(message) => Err(ApiError::SerdeJson(message)),
                };
                Some(Step::Done(found))
            },
            (VerifyInRoomState::AwaitingExplanation, Event::Error(decoded)) => {
                let refused = match decoded {
                    Ok(_) => Ok(false),
                    Err(message) => Err(ApiError::SerdeJson(message)),
                };
                Some(Step::Done(refused))
            },
            _ => None,
        }
    }
}

/// The query's whole dialogue with `world`.
pub open spec fn verify_in_room_run(room: Seq<char>, config: ConfigView, world: World) -> Trace<
    bool,
> {
    run(
        |state: VerifyInRoomState, event: EventView|
            verify_in_room_resume(state, room, config, event),
        verify_in_room_start(room, config),
        world,
        2,
    )
}

/// The members that `world` reports as joined to `room`, to one who asks
/// with `token`: the list in the body of a response with a success status,
/// where there is such a response and its body is such a list.
pub open spec fn joined_members(
    room: Seq<char>,
    config: ConfigView,
    world: World,
    token: Seq<char>,
) -> Option<Set<Seq<char>>> {
    match (world.http)(verify_in_room_request(room, config, token)) {
        ReplyView::Response { status, payload: PayloadView::Text(text) } => {
            if success_status(status) {
                match (world.decode_members)(text) {
                    Ok(members) => Some(members),
                    Err(_) => None,
                }
            } else {
                None
            }
        },
        _ => None,
    }
}

/// Where the server reports the joined members, the query finds the account
/// a member exactly when its full identity is one of them.
pub proof fn law_query_reads_joined_members(
    room: Seq<char>,
    config: ConfigView,
    world: World,
    token: Seq<char>,
    members: Set<Seq<char>>,
)
    requires
        config.token == Some(token),
        joined_members(room, config, world, token) == Some(members),
    ensures
        verify_in_room_run(room, config, world).outcome == Some(
            Ok::<_, ApiErrorView>(members.contains(config.full_username)),
        ),
{
    reveal_with_fuel(run, 3);
}

} // verus!
