use vstd::prelude::*;

verus! {

/// A request that the HTTP client could not complete: the status that the
/// server answered with, if it answered, and the client's description.
#[derive(Clone, Debug, PartialEq, Eq)]
pub struct HttpFailure {
    pub status: Option<u16>,
    pub message: String,
}

/// Why a call to one of the two services failed.
#[derive(Clone, Debug, PartialEq, Eq)]
pub enum RequestError {
    /// The HTTP client failed, or the server answered with an error status.
    Reqwest(HttpFailure),
    /// A layer between the routine and the HTTP client gave up.
    ReqwestMiddleware(String),
    /// The answer was not the JSON that was expected.
    Serde(String),
}

/// The mathematical value of a `RequestError`.
pub ghost enum RequestErrorView {
    Reqwest { status: Option<u16>, message: Seq<char> },
    ReqwestMiddleware { message: Seq<char> },
    Serde { message: Seq<char> },
}

impl RequestErrorView {
    /// The description that the failing layer gave.
    pub open spec fn message(self) -> Seq<char> {
        match self {
            RequestErrorView::Reqwest { message, .. } => message,
            RequestErrorView::ReqwestMiddleware { message } => message,
            RequestErrorView::Serde { message } => message,
        }
    }
}

impl View for RequestError {
    type V = RequestErrorView;

    open spec fn view(&self) -> RequestErrorView {
        match self {
            RequestError::Reqwest(failure) => RequestErrorView::Reqwest {
                status: failure.status,
                message: failure.message@,
            },
            RequestError::ReqwestMiddleware(message) => RequestErrorView::ReqwestMiddleware {
                message: message@,
            },
            RequestError::Serde(message) => RequestErrorView::Serde { message: message@ },
        }
    }
}

impl RequestError {
    /// The error as a line of text: the description of the layer that failed.
    pub fn message(&self) -> (text: String)
        ensures
            text@ == self@.message(),
    {
        match self {
            RequestError::Reqwest(failure) => failure.message.clone(),
            RequestError::ReqwestMiddleware(message) => message.clone(),
            RequestError::Serde(message) => message.clone(),
        }
    }
}

} // verus!
