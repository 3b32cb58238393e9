use vstd::prelude::*;

verus! {

/// Why a request did not yield a result.
#[derive(Debug, PartialEq)]
pub enum ApiError {
    /// The service answered that the API key is not valid.
    InvalidCredentials,
    /// The service failed; the text is the body of its answer, as it came.
    ServerError(String),
    /// The request could not be sent or the answer could not be read; the
    /// text says what the transport reported.
    TransportError(String),
    /// The answer arrived but is not what the request's kind of result looks
    /// like. `path` names the place in the JSON document where reading it
    /// failed, `message` says what was wrong there.
    DecodeError { path: String, message: String },
}

} // verus!
