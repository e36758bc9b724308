//! The error taxonomy of the library.
use vstd::prelude::*;

verus! {

/// Why a page fetch failed.
///
/// The three variants keep the three kinds of failure apart, so a caller can
/// tell a rejected request from a response in an unexpected shape:
/// - `InvalidUrl`: the request could not be composed (configuration error);
/// - `Status`: the server answered with a non-success HTTP status;
/// - `Decode`: the response body or headers did not match the expected shape.
#[derive(Debug, Clone, PartialEq, Eq)]
pub enum TableError {
    InvalidUrl,
    Status(u16),
    Decode,
}

impl TableError {
    /// A short description of the error, usable in place of `Display`.
    pub fn message(&self) -> (r: &'static str)
        ensures
            r@ == self.message_spec(),
    {
        match self {
            TableError::InvalidUrl => "invalid table URL",
            TableError::Status(_) => "request failed with an error status",
            TableError::Decode => "response body did not match the expected shape",
        }
    }

    pub open spec fn message_spec(&self) -> Seq<char> {
        match self {
            TableError::InvalidUrl => "invalid table URL"@,
            TableError::Status(_) => "request failed with an error status"@,
            TableError::Decode => "response body did not match the expected shape"@,
        }
    }
}

} // verus!
