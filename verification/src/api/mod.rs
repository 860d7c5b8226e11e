//! The calls of the client-server API that a notification needs, each as the
//! decisions taken around one request, and the failures they can end in.

pub mod join_room;
pub mod login;
pub mod mock_server;
pub mod send_message;
pub mod verify_in_room;
pub mod verify_token;

pub use join_room::join_room;
pub use login::login;
pub use send_message::send_message;
pub use verify_in_room::verify_in_room;
pub use verify_token::verify_token;

use crate::config::{ConfigError, ConfigErrorView};
use vstd::prelude::*;

verus! {

/// Every way in which a run can fail.
///
/// A transport failure names the address that was asked. A rejection by the
/// server carries its status code. A body that does not have the expected
/// shape is kept apart from both.
#[derive(Debug, PartialEq, Eq)]
pub enum ApiError {
    SerdeJson(String),
    Config(ConfigError),
    ConfigAlreadyExists,
    MissingPassword,
    MissingToken,
    LoginFailed(u16),
    JoinRoomFailed(u16),
    HttpError { cause: String, url: String },
    MatrixApiError { status_code: u16, error_message: String },
}

/// [`ApiError`] in specifications.
pub enum ApiErrorView {
    SerdeJson(Seq<char>),
    Config(ConfigErrorView),
    ConfigAlreadyExists,
    MissingPassword,
    MissingToken,
    LoginFailed(u16),
    JoinRoomFailed(u16),
    HttpError { cause: Seq<char>, url: Seq<char> },
    MatrixApiError { status_code: u16, error_message: Seq<char> },
}

impl View for ApiError {
    type V = ApiErrorView;

    open spec fn view(&self) -> ApiErrorView {
        match *self {
            ApiError::SerdeJson(message) => ApiErrorView::SerdeJson(message@),
            ApiError::Config(error) => ApiErrorView::Config(error@),
            ApiError::ConfigAlreadyExists => ApiErrorView::ConfigAlreadyExists,
            ApiError::MissingPassword => ApiErrorView::MissingPassword,
            ApiError::MissingToken => ApiErrorView::MissingToken,
            ApiError::LoginFailed(status) => ApiErrorView::LoginFailed(status),
            ApiError::JoinRoomFailed(status) => ApiErrorView::JoinRoomFailed(status),
            ApiError::HttpError { cause, url } => ApiErrorView::HttpError {
                cause: cause@,
                url: url@,
            },
            ApiError::MatrixApiError { status_code, error_message } => {
                ApiErrorView::MatrixApiError { status_code, error_message: error_message@ }
            },
        }
    }
}

impl Clone for ApiError {
    fn clone(&self) -> (copy: Self)
        ensures
            copy == *self,
    {
        match self {
            ApiError::SerdeJson(message) => ApiError::SerdeJson(message.clone()),
            ApiError::Config(error) => ApiError::Config(error.clone()),
            ApiError::ConfigAlreadyExists => ApiError::ConfigAlreadyExists,
            ApiError::MissingPassword => ApiError::MissingPassword,
            ApiError::MissingToken => ApiError::MissingToken,
            ApiError::LoginFailed(status) => ApiError::LoginFailed(*status),
            ApiError::JoinRoomFailed(status) => ApiError::JoinRoomFailed(*status),
            ApiError::HttpError { cause, url } => ApiError::HttpError {
                cause: cause.clone(),
                url: url.clone(),
            },
            ApiError::MatrixApiError { status_code, error_message } => ApiError::MatrixApiError {
                status_code: *status_code,
                error_message: error_message.clone(),
            },
        }
    }
}

/// The view of a result that fails with an [`ApiError`].
pub open spec fn outcome_view<T: View>(outcome: Result<T, ApiError>) -> Result<T::V, ApiErrorView> {
    match outcome {
        Ok(value) => Ok(value@),
        Err(error) => Err(error@),
    }
}

/// The body with which the server explains a rejection.
#[derive(Debug, PartialEq, Eq)]
pub struct MatrixErrorResponseBody {
    pub errcode: String,
    pub error: String,
    pub retry_after_ms: Option<u64>,
}

/// [`MatrixErrorResponseBody`] in specifications.
pub struct MatrixErrorResponseBodyView {
    pub errcode: Seq<char>,
    pub error: Seq<char>,
    pub retry_after_ms: Option<u64>,
}

impl View for MatrixErrorResponseBody {
    type V = MatrixErrorResponseBodyView;

    open spec fn view(&self) -> MatrixErrorResponseBodyView {
        MatrixErrorResponseBodyView {
            errcode: self.errcode@,
            error: self.error@,
            retry_after_ms: self.retry_after_ms,
        }
    }
}

} // verus!
