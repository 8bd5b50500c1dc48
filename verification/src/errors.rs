//! The failures a lookup can end in.

use vstd::prelude::*;

verus! {

/// Why a lookup failed.
#[derive(Debug)]
pub enum Ip2LocationError {
    /// The transport could not complete the exchange.
    Http(reqwest::Error),
    /// The endpoint's base URL did not parse.
    Url(url::ParseError),
    /// The service answered with a status outside 200..=299; `message` is the
    /// response body as it was received.
    ApiError { status: u16, message: String },
    /// A required argument was empty once trimmed.
    InvalidInput(String),
    /// The body of a successful response did not decode into the expected
    /// record.
    Json(serde_json::Error),
}

impl From<reqwest::Error> for Ip2LocationError {
    fn from(e: reqwest::Error) -> (r: Self) {
        Ip2LocationError::Http(e)
    }
}

impl vstd::std_specs::convert::FromSpecImpl<reqwest::Error> for Ip2LocationError {
    open spec fn obeys_from_spec() -> bool {
        true
    }

    open spec fn from_spec(e: reqwest::Error) -> Self {
        Ip2LocationError::Http(e)
    }
}

impl From<url::ParseError> for Ip2LocationError {
    fn from(e: url::ParseError) -> (r: Self) {
        Ip2LocationError::Url(e)
    }
}

impl vstd::std_specs::convert::FromSpecImpl<url::ParseError> for Ip2LocationError {
    open spec fn obeys_from_spec() -> bool {
        true
    }

    open spec fn from_spec(e: url::ParseError) -> Self {
        Ip2LocationError::Url(e)
    }
}

impl From<serde_json::Error> for Ip2LocationError {
    fn from(e: serde_json::Error) -> (r: Self) {
        Ip2LocationError::Json(e)
    }
}

impl vstd::std_specs::convert::FromSpecImpl<serde_json::Error> for Ip2LocationError {
    open spec fn obeys_from_spec() -> bool {
        true
    }

    open spec fn from_spec(e: serde_json::Error) -> Self {
        Ip2LocationError::Json(e)
    }
}

} // verus!
