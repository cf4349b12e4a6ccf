use vstd::prelude::*;

verus! {

/// How a fetch can fail: one variant per failure kind — transport, reading
/// the body, decoding the envelope, building the URL, and a well-formed
/// refusal by the service itself. Each variant that wraps a lower-level
/// cause carries its diagnostic text.
#[derive(Debug, PartialEq, Eq)]
pub enum NewsApiError {
    /// The network or HTTP layer failed before a body arrived.
    RequestFailed(String),
    /// The response arrived but its body could not be read as text.
    FailedResponseToString(String),
    /// The body was not a well-formed envelope.
    ArticleParseFailed(String),
    /// The request URL could not be built.
    UrlParsing,
    /// The service answered with a status other than success; the payload
    /// is the reason chosen from the fixed code-to-reason mapping.
    BadRequest(String),
}

/// Mathematical image of `NewsApiError`, with each message as a sequence
/// of characters.
pub enum NewsApiErrorView {
    RequestFailed(Seq<char>),
    FailedResponseToString(Seq<char>),
    ArticleParseFailed(Seq<char>),
    UrlParsing,
    BadRequest(Seq<char>),
}

impl View for NewsApiError {
    type V = NewsApiErrorView;

    open spec fn view(&self) -> NewsApiErrorView {
        match self {
            NewsApiError::RequestFailed(m) => NewsApiErrorView::RequestFailed(m@),
            NewsApiError::FailedResponseToString(m) => NewsApiErrorView::FailedResponseToString(m@),
            NewsApiError::ArticleParseFailed(m) => NewsApiErrorView::ArticleParseFailed(m@),
            NewsApiError::UrlParsing => NewsApiErrorView::UrlParsing,
            NewsApiError::BadRequest(m) => NewsApiErrorView::BadRequest(m@),
        }
    }
}

} // verus!
