//! What can go wrong between a request and its typed result.

use url::ParseError;
use vstd::prelude::*;

verus! {

/// The ways in which an operation of the client fails.
#[derive(Debug)]
pub enum SteamErr {
    /// The store reported success but sent no data; this could be due to a
    /// rate limit.
    ResponseWithNoData,
    /// The store reported that the request did not succeed.
    ResponseWithNoSuccess,
    /// The response holds no entry for the identifier asked for, given here
    /// as the text under which it was looked up.
    IdNotFound(String),
    /// The country code given to the builder is not one of ISO 3166-1.
    IncorrectCountryCode,
    /// The request could not be sent, or its body not be read or decoded.
    /// The library sends nothing itself: this is for the caller's transport
    /// to report with, and holds its message.
    RequestError(String),
    /// The address of the endpoint could not be made.
    UrlError(ParseError),
    /// A key of the response does not denote an identifier: the key.
    ParseIdError(String),
}

} // verus!
