use vstd::prelude::*;

use crate::error::{OpenOpusError, OpenOpusResult};

verus! {

/// Metadata of a response that succeeded.
#[derive(Debug, Clone)]
pub struct OkStatus {
    pub version: String,
    pub source: String,
    pub rows: u64,
    /// Time the service spent on the request, in seconds, as the bit pattern
    /// of the IEEE-754 double it reported.
    pub processing_time_bits: u64,
    pub api: String,
}

/// Metadata of a response that failed, with the service's message.
#[derive(Debug, Clone)]
pub struct ErrStatus {
    pub version: String,
    pub error: String,
    /// Time the service spent on the request, in seconds, as the bit pattern
    /// of the IEEE-754 double it reported.
    pub processing_time_bits: u64,
    pub api: String,
}

/// The status part of every response: `success` set to `"true"` or `"false"`.
#[derive(Debug, Clone)]
pub enum Status {
    Success(OkStatus),
    Failure(ErrStatus),
}

/// A decoded response: its status, and the list of records it carries, if any.
#[derive(Debug)]
pub struct Envelope<T> {
    pub status: Status,
    pub payload: Option<Vec<T>>,
}

/// What a response means to the caller: the records on success, the service's
/// message on failure.
pub open spec fn envelope_outcome<T>(status: Status, payload: Option<Vec<T>>) -> Option<
    Result<Seq<T>, Seq<char>>,
> {
    match status {
        Status::Success(_) => match payload {
            Some(p) => Some(Ok(p@)),
            None => None,
        },
        Status::Failure(e) => Some(Err(e.error@)),
    }
}

impl<T> Envelope<T> {
    /// The records of a successful response, or the error the response reports.
    ///
    /// A success without records is answered with `MissingPayload`.
    pub fn into_result(self) -> (r: OpenOpusResult<Vec<T>>)
        ensures
            match envelope_outcome(self.status, self.payload) {
                Some(Ok(p)) => r matches Ok(v) && v@ == p,
                Some(Err(m)) => r matches Err(OpenOpusError::OpenOpusAPIError(s)) && s@ == m,
                None => r matches Err(OpenOpusError::MissingPayload),
            },
    {
        match self.status {
            Status::Success(_) => match self.payload {
                Some(p) => Ok(p),
                None => Err(OpenOpusError::MissingPayload),
            },
            Status::Failure(e) => Err(OpenOpusError::OpenOpusAPIError(e.error)),
        }
    }
}

} // verus!
