//! Sending a text message to a room.

use crate::api::{ApiError, ApiErrorView, MatrixErrorResponseBodyView};
use crate::config::{send_message_url, Config, ConfigView};
use crate::exchange::{
    is_success, success_status, undelivered, Method, Payload, PayloadView, Reply, ReplyView,
    Request, RequestBody, RequestBodyView, RequestView,
};
use crate::protocol::{
    count_actions, count_requests, is_save, lemma_count_requests_push, lemma_run_never,
    resumed_view, run, Action, ActionView, Event, EventView, Step, StepView, Trace, World,
};
use vstd::prelude::*;

verus! {

/// What the message endpoint is sent.
#[derive(Debug, PartialEq, Eq)]
pub struct MessageSendRequestBody {
    pub msgtype: String,
    pub body: String,
}

/// [`MessageSendRequestBody`] in specifications.
pub struct MessageSendRequestBodyView {
    pub msgtype: Seq<char>,
    pub body: Seq<char>,
}

impl View for MessageSendRequestBody {
    type V = MessageSendRequestBodyView;

    open spec fn view(&self) -> MessageSendRequestBodyView {
        MessageSendRequestBodyView { msgtype: self.msgtype@, body: self.body@ }
    }
}

impl Clone for MessageSendRequestBody {
    fn clone(&self) -> (copy: Self)
        ensures
            copy == *self,
    {
        MessageSendRequestBody { msgtype: self.msgtype.clone(), body: self.body.clone() }
    }
}

/// The body that carries `text` as a plain text message.
pub open spec fn message_send_request_body(text: Seq<char>) -> MessageSendRequestBodyView {
    MessageSendRequestBodyView { msgtype: "m.text"@, body: text }
}

impl MessageSendRequestBody {
    /// The body that carries `body` as a plain text message.
    pub fn new(body: &str) -> (request_body: Self)
        ensures
            request_body@ == message_send_request_body(body@),
    {
        Self { msgtype: "m.text".to_owned(), body: body.to_owned() }
    }
}

/// Where a delivery stands while it is not done.
#[derive(Debug, Clone, Copy, PartialEq, Eq, Structural)]
pub enum SendMessageState {
    /// The message is under way.
    AwaitingReply,
    /// The server answered with `status`, which is no success, and its
    /// response is being read as an explanation.
    AwaitingBody { status: u16 },
}

impl View for SendMessageState {
    type V = SendMessageState;

    open spec fn view(&self) -> SendMessageState {
        *self
    }
}

/// The request that puts `message` into `room` in the name of `token`.
pub open spec fn send_message_request(
    message: Seq<char>,
    room: Seq<char>,
    config: ConfigView,
    token: Seq<char>,
) -> RequestView {
    RequestView {
        method: Method::Post,
        url: send_message_url(config.base_url, room),
        bearer: Some(token),
        body: RequestBodyView::Message(message_send_request_body(message)),
    }
}

/// Whether `request` delivers a message: it carries a message body.
pub open spec fn is_message_call(request: RequestView) -> bool {
    request.body is Message
}

/// A delivery needs a token: without one it fails at once, with no request
/// made.
pub open spec fn send_message_start(
    message: Seq<char>,
    room: Seq<char>,
    config: ConfigView,
) -> StepView<SendMessageState, ()> {
    match config.token {
        Some(token) => StepView::Next(
            SendMessageState::AwaitingReply,
            ActionView::Http(send_message_request(message, room, config, token)),
        ),
        None => StepView::Done(Err(ApiErrorView::MissingToken)),
    }
}

/// What a reply to the message leads to: a response that was read is a
/// success with a success status, and otherwise has its text read as the
/// server's explanation; a response that could not be read is a transport
/// failure like one that never came.
pub open spec fn send_message_replied(
    room: Seq<char>,
    config: ConfigView,
    reply: ReplyView,
) -> StepView<SendMessageState, ()> {
    match reply {
        ReplyView::Response { status, payload } => {
            match payload {
                PayloadView::Text(text) => {
                    if success_status(status) {
                        StepView::Done(Ok(()))
                    } else {
                        StepView::Next(
                            SendMessageState::AwaitingBody { status },
                            ActionView::DecodeError(text),
                        )
                    }
                },
                PayloadView::Unreadable(cause) => StepView::Done(
                    Err(
                        ApiErrorView::HttpError {
                            cause,
                            url: send_message_url(config.base_url, room),
                        },
                    ),
                ),
            }
        },
        _ => StepView::Done(
            Err(undelivered(reply, send_message_url(config.base_url, room))->Some_0),
        ),
    }
}

/// The failure of a delivery that the server rejected with `status`: a
/// protocol error with the explanation that was read, or the serialization
/// error of a body that is none.
pub open spec fn send_message_rejected(
    status: u16,
    decoded: Result<MatrixErrorResponseBodyView, Seq<char>>,
) -> ApiErrorView {
    match decoded {
        Ok(body) => ApiErrorView::MatrixApiError { status_code: status, error_message: body.error },
        Err(message) => ApiErrorView::SerdeJson(message),
    }
}

/// A delivery waits for the reply to its request first, and then, if the
/// server rejected it, for the explanation as it was read.
pub open spec fn send_message_resume(
    state: SendMessageState,
    room: Seq<char>,
    config: ConfigView,
    event: EventView,
) -> Option<StepView<SendMessageState, ()>> {
    match (state, event) {
        (SendMessageState::AwaitingReply, EventView::Http(reply)) => Some(
            send_message_replied(room, config, reply),
        ),
        (SendMessageState::AwaitingBody { status }, EventView::Error(decoded)) => Some(
            StepView::Done(Err(send_message_rejected(status, decoded))),
        ),
        _ => None,
    }
}

/// Starts the delivery of `message` to `room` by the account of `config`.
pub fn send_message(message: &str, room: &str, config: &Config) -> (step: Step<
    SendMessageState,
    (),
>)
    ensures
        step@ == send_message_start(message@, room@, config@),
{
    match &config.token {
        Some(token) => {
            let request = Request {
                method: Method::Post,
                url: config.get_send_message_url(room),
                bearer: Some(token.clone()),
                body: RequestBody::Message(MessageSendRequestBody::new(message)),
            };
            Step::Next(SendMessageState::AwaitingReply, Action::Http(request))
        },
        None => Step::Done(Err(ApiError::MissingToken)),
    }
}

impl SendMessageState {
    /// Takes the delivery one event further, or gives `None` where `event`
    /// is not what the delivery waits for.
    pub fn resume(self, room: &str, config: &Config, event: Event) -> (resumed: Option<
        Step<SendMessageState, ()>,
    >)
        ensures
            resumed_view(resumed) == send_message_resume(self, room@, config@, event@),
    {
        match (self, event) {
            (SendMessageState::AwaitingReply, Event::Http(reply)) => {
                let step = match reply {
                    Reply::Unencodable(message) => Step::Done(Err(ApiError::SerdeJson(message))),
                    Reply::Unreachable(cause) => Step::Done(
                        Err(ApiError::HttpError { cause, url: config.get_send_message_url(room) }),
                    ),
                    Reply::Response { status, payload } => {
                        match payload {
                            Payload::Text(text) => {
                                if is_success(status) {
                                    Step::Done(Ok(()))
                                } else {
                                    Step::Next(
                                        SendMessageState::AwaitingBody { status },
                                        Action::DecodeError(text),
                                    )
                                }
                            },
                            Payload::Unreadable(cause) => Step::Done(
                                Err(
                                    ApiError::HttpError {
                                        cause,
                                        url: config.get_send_message_url(room),
                                    },
                                ),
                            ),
                        }
                    },
                };
                Some(step)
            },
            (SendMessageState::AwaitingBody { status }, Event::Error(decoded)) => {
                let error = match decoded {
                    Ok(body) => ApiError::MatrixApiError {
                        status_code: status,
                        error_message: body.error,
                    },
                    Err(message) => ApiError::SerdeJson(message),
                };
                Some(Step::Done(Err(error)))
            },
            _ => None,
        }
    }
}

/// The delivery's whole dialogue with `world`.
pub open spec fn send_message_run(
    message: Seq<char>,
    room: Seq<char>,
    config: ConfigView,
    world: World,
) -> Trace<()> {
    run(
        |state: SendMessageState, event: EventView| send_message_resume(state, room, config, event),
        send_message_start(message, room, config),
        world,
        2,
    )
}

/// The delivery comes to a result in every world, within two actions.
pub proof fn law_send_message_ends(
    message: Seq<char>,
    room: Seq<char>,
    config: ConfigView,
    world: World,
)
    ensures
        send_message_run(message, room, config, world).outcome is Some,
{
    reveal_with_fuel(run, 3);
}

/// What comes of a delivery in `world`, for one who sends with `token`:
/// success exactly where the server answers with a success status and its
/// response can be read. A transport failure names the address. A rejection
/// carries the server's status and, from its explanation, the message; a
/// rejection that is not explained in the expected shape is a serialization
/// error.
pub open spec fn delivered(
    message: Seq<char>,
    room: Seq<char>,
    config: ConfigView,
    world: World,
    token: Seq<char>,
) -> Result<(), ApiErrorView> {
    let url = send_message_url(config.base_url, room);
    match (world.http)(send_message_request(message, room, config, token)) {
        ReplyView::Unencodable(message) => Err(ApiErrorView::SerdeJson(message)),
        ReplyView::Unreachable(cause) => Err(ApiErrorView::HttpError { cause, url }),
        ReplyView::Response { status, payload: PayloadView::Unreadable(cause) } => Err(
            ApiErrorView::HttpError { cause, url },
        ),
        ReplyView::Response { status, payload: PayloadView::Text(text) } => {
            if success_status(status) {
                Ok(())
            } else {
                match (world.decode_error)(text) {
                    Ok(body) => Err(
                        ApiErrorView::MatrixApiError {
                            status_code: status,
                            error_message: body.error,
                        },
                    ),
                    Err(message) => Err(ApiErrorView::SerdeJson(message)),
                }
            }
        },
    }
}

/// A delivery with a token makes one request, the message itself, and
/// nothing else on the network. Its result is what the reply to that one
/// request amounts to: nothing is tried again.
pub proof fn law_delivery_is_one_request(
    message: Seq<char>,
    room: Seq<char>,
    config: ConfigView,
    world: World,
    token: Seq<char>,
)
    requires
        config.token == Some(token),
    ensures
        send_message_run(message, room, config, world).outcome == Some(
            delivered(message, room, config, world, token),
        ),
        send_message_run(message, room, config, world).actions[0] == ActionView::Http(
            send_message_request(message, room, config, token),
        ),
        count_requests(
            send_message_run(message, room, config, world).actions,
            |request: RequestView| true,
        ) == 1,
        count_requests(
            send_message_run(message, room, config, world).actions,
            |request: RequestView| is_message_call(request),
        ) == 1,
{
    reveal_with_fuel(run, 3);
    let any = |request: RequestView| true;
    let messages = |request: RequestView| is_message_call(request);
    let call = ActionView::Http(send_message_request(message, room, config, token));
    let trace = send_message_run(message, room, config, world);
    lemma_count_requests_push(Seq::empty(), call, any);
    lemma_count_requests_push(Seq::empty(), call, messages);
    if let StepView::Next(_, decode) = send_message_replied(
        room,
        config,
        (world.http)(send_message_request(message, room, config, token)),
    ) {
        assert(trace.actions =~= Seq::empty().push(call).push(decode));
        lemma_count_requests_push(Seq::empty().push(call), decode, any);
        lemma_count_requests_push(Seq::empty().push(call), decode, messages);
    }
}

/// A delivery writes no credentials.
pub proof fn law_delivery_writes_nothing(
    message: Seq<char>,
    room: Seq<char>,
    config: ConfigView,
    world: World,
)
    ensures
        count_actions(
            send_message_run(message, room, config, world).actions,
            |action: ActionView| is_save(action),
        ) == 0,
{
    lemma_run_never(
        |state: SendMessageState, event: EventView| send_message_resume(state, room, config, event),
        send_message_start(message, room, config),
        world,
        2,
        |action: ActionView| is_save(action),
    );
}

} // verus!
