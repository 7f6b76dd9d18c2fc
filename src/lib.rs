//! A typed client for the Open Opus classical-music metadata service.
//!
//! The library holds the records that the service returns, the fixed string
//! forms of its enumerations, the construction of every endpoint address, and
//! the decision that turns a decoded response envelope into a result. Issuing
//! the HTTP requests and decoding JSON bodies is left to the caller.
use vstd::prelude::*;

pub mod api;
mod text;

pub mod composer;
pub use composer::Composer;

pub mod epoch;
pub use epoch::Epoch;

pub mod genre;
pub use genre::Genre;

pub mod error;
pub use error::{OpenOpusError, OpenOpusResult};

pub mod status;
pub use status::{Envelope, ErrStatus, OkStatus, Status};

pub mod work;
pub use work::{decode_int_str_bool, Work};

verus! {

/// Identifier of a composer or a work, transmitted by the service as a numeric string.
pub type ID = u32;

} // verus!
