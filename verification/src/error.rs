//! What can go wrong in one call of the API.

use vstd::prelude::*;
use vstd::string::StringExecFns;

verus! {

/// The ways in which one call of the API fails.
#[derive(Debug, Clone, PartialEq, Eq)]
pub enum ApiError {
    /// The request did not reach the provider or its answer could not be
    /// read; the text is the cause as the transport reported it.
    Transport(String),
    /// The response body is not JSON of the expected envelope.
    Parse,
    /// The provider answered with a structured error.
    Application { code: String, message: String },
    /// The request cannot be signed: a hash or an HMAC could not be set up,
    /// or the time of the request has no calendar day.
    SigningPrecondition,
    /// The value of the named header holds a byte that no HTTP header may
    /// carry, so the request was not sent.
    InvalidHeaderValue { name: String },
}

/// An error as mathematics.
pub enum ApiErrorView {
    Transport(Seq<char>),
    Parse,
    Application { code: Seq<char>, message: Seq<char> },
    SigningPrecondition,
    InvalidHeaderValue { name: Seq<char> },
}

impl View for ApiError {
    type V = ApiErrorView;

    open spec fn view(&self) -> ApiErrorView {
        match self {
            ApiError::Transport(cause) => ApiErrorView::Transport(cause@),
            ApiError::Parse => ApiErrorView::Parse,
            ApiError::Application { code, message } => ApiErrorView::Application {
                code: code@,
                message: message@,
            },
            ApiError::SigningPrecondition => ApiErrorView::SigningPrecondition,
            ApiError::InvalidHeaderValue { name } => ApiErrorView::InvalidHeaderValue {
                name: name@,
            },
        }
    }
}

/// What an error says in one line: the provider's code and message with a
/// colon between them, the cause of a transport failure as it is, and a
/// fixed sentence for each of the others, with the name of the header where
/// one was refused.
pub open spec fn error_text(error: ApiErrorView) -> Seq<char> {
    match error {
        ApiErrorView::Transport(cause) => cause,
        ApiErrorView::Parse => "the response is not JSON of the expected envelope"@,
        ApiErrorView::Application { code, message } => code + ": "@ + message,
        ApiErrorView::SigningPrecondition => "the request cannot be signed"@,
        ApiErrorView::InvalidHeaderValue { name } => "invalid value of the header "@ + name,
    }
}

impl ApiError {
    /// The error in one line, for a log or a notification.
    pub fn to_string(&self) -> (text: String)
        ensures
            text@ == error_text(self@),
    {
        match self {
            ApiError::Transport(cause) => cause.clone(),
            ApiError::Parse => String::from_str(
                "the response is not JSON of the expected envelope",
            ),
            ApiError::Application { code, message } => {
                let mut text = code.clone();
                text.append(": ");
                text.append(message.as_str());
                text
            },
            ApiError::SigningPrecondition => String::from_str("the request cannot be signed"),
            ApiError::InvalidHeaderValue { name } => {
                let mut text = String::from_str("invalid value of the header ");
                text.append(name.as_str());
                text
            },
        }
    }
}

} // verus!
