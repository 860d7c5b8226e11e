//! Requests as the library words them and replies as a transport reports
//! them.

use crate::api::login::{LoginRequestBody, LoginRequestBodyView};
use crate::api::send_message::{MessageSendRequestBody, MessageSendRequestBodyView};
use crate::api::ApiErrorView;
use vstd::prelude::*;

verus! {

/// The two request methods that the notifier uses.
#[derive(Debug, Clone, Copy, PartialEq, Eq, Structural)]
pub enum Method {
    Get,
    Post,
}

/// What a request carries as its body, before it is put into JSON.
#[derive(Debug, PartialEq, Eq)]
pub enum RequestBody {
    Empty,
    Login(LoginRequestBody),
    Message(MessageSendRequestBody),
}

/// [`RequestBody`] in specifications.
pub enum RequestBodyView {
    Empty,
    Login(LoginRequestBodyView),
    Message(MessageSendRequestBodyView),
}

impl View for RequestBody {
    type V = RequestBodyView;

    open spec fn view(&self) -> RequestBodyView {
        match *self {
            RequestBody::Empty => RequestBodyView::Empty,
            RequestBody::Login(body) => RequestBodyView::Login(body@),
            RequestBody::Message(body) => RequestBodyView::Message(body@),
        }
    }
}

impl Clone for RequestBody {
    fn clone(&self) -> (copy: Self)
        ensures
            copy == *self,
    {
        match self {
            RequestBody::Empty => RequestBody::Empty,
            RequestBody::Login(body) => RequestBody::Login(body.clone()),
            RequestBody::Message(body) => RequestBody::Message(body.clone()),
        }
    }
}

/// One call to the server: where it goes, as whom, and with what.
#[derive(Debug, PartialEq, Eq)]
pub struct Request {
    pub method: Method,
    pub url: String,
    /// The access token to present, if the call is made in an account's name.
    pub bearer: Option<String>,
    pub body: RequestBody,
}

/// [`Request`] in specifications.
pub struct RequestView {
    pub method: Method,
    pub url: Seq<char>,
    pub bearer: Option<Seq<char>>,
    pub body: RequestBodyView,
}

impl View for Request {
    type V = RequestView;

    open spec fn view(&self) -> RequestView {
        RequestView {
            method: self.method,
            url: self.url@,
            bearer: self.bearer.deep_view(),
            body: self.body@,
        }
    }
}

impl Clone for Request {
    fn clone(&self) -> (copy: Self)
        ensures
            copy == *self,
    {
        Request {
            method: self.method,
            url: self.url.clone(),
            bearer: self.bearer.clone(),
            body: self.body.clone(),
        }
    }
}

/// The body of a response: its text, or why it could not be read.
#[derive(Debug, PartialEq, Eq)]
pub enum Payload {
    Text(String),
    Unreadable(String),
}

/// [`Payload`] in specifications.
pub enum PayloadView {
    Text(Seq<char>),
    Unreadable(Seq<char>),
}

impl View for Payload {
    type V = PayloadView;

    open spec fn view(&self) -> PayloadView {
        match *self {
            Payload::Text(text) => PayloadView::Text(text@),
            Payload::Unreadable(cause) => PayloadView::Unreadable(cause@),
        }
    }
}

impl Clone for Payload {
    fn clone(&self) -> (copy: Self)
        ensures
            copy == *self,
    {
        match self {
            Payload::Text(text) => Payload::Text(text.clone()),
            Payload::Unreadable(cause) => Payload::Unreadable(cause.clone()),
        }
    }
}

/// How a request ended.
#[derive(Debug, PartialEq, Eq)]
pub enum Reply {
    /// The body could not be put into JSON, so nothing was sent.
    Unencodable(String),
    /// No response arrived: connection, TLS or timeout.
    Unreachable(String),
    /// The server answered.
    Response { status: u16, payload: Payload },
}

/// [`Reply`] in specifications.
pub enum ReplyView {
    Unencodable(Seq<char>),
    Unreachable(Seq<char>),
    Response { status: u16, payload: PayloadView },
}

impl View for Reply {
    type V = ReplyView;

    open spec fn view(&self) -> ReplyView {
        match *self {
            Reply::Unencodable(message) => ReplyView::Unencodable(message@),
            Reply::Unreachable(cause) => ReplyView::Unreachable(cause@),
            Reply::Response { status, payload } => ReplyView::Response {
                status,
                payload: payload@,
            },
        }
    }
}

impl Clone for Reply {
    fn clone(&self) -> (copy: Self)
        ensures
            copy == *self,
    {
        match self {
            Reply::Unencodable(message) => Reply::Unencodable(message.clone()),
            Reply::Unreachable(cause) => Reply::Unreachable(cause.clone()),
            Reply::Response { status, payload } => Reply::Response {
                status: *status,
                payload: payload.clone(),
            },
        }
    }
}

/// Whether a status code reports success: the codes from 200 to 299.
pub open spec fn success_status(status: u16) -> bool {
    200 <= status < 300
}

/// Whether `status` reports success.
pub fn is_success(status: u16) -> (success: bool)
    ensures
        success == success_status(status),
{
    200 <= status && status < 300
}

/// The failure that a reply without a response stands for, on a call to
/// `url`: a serialization error where nothing could be sent, a transport
/// error that names `url` where nothing came back.
pub open spec fn undelivered(reply: ReplyView, url: Seq<char>) -> Option<ApiErrorView> {
    match reply {
        ReplyView::Unencodable(message) => Some(ApiErrorView::SerdeJson(message)),
        ReplyView::Unreachable(cause) => Some(ApiErrorView::HttpError { cause, url }),
        ReplyView::Response { .. } => None,
    }
}

} // verus!
