use vstd::prelude::*;

verus! {

/// A failure of the HTTP layer or of decoding a response body, as reported by
/// `reqwest::Error`; carried through unchanged.
#[verifier::external_type_specification]
#[verifier::external_body]
pub struct ExReqwestError(reqwest::Error);

/// Why a request to the service gave no result.
#[derive(Debug)]
pub enum OpenOpusError {
    /// The request failed in transport, or its body did not have the expected shape.
    ReqwestError { source: reqwest::Error },
    /// The service answered with `success` set to `"false"`, and this message.
    OpenOpusAPIError(String),
    /// The service answered with `success` set to `"true"` but without the
    /// records asked for.
    MissingPayload,
}

/// Result of a request to the service.
pub type OpenOpusResult<T> = Result<T, OpenOpusError>;

} // verus!
