//! The errors of the client.

use vstd::prelude::*;

verus! {

/// The transport's error, carried through unchanged.
#[verifier::external_type_specification]
#[verifier::external_body]
pub struct ExReqwestError(reqwest::Error);

/// Why a call failed.
#[derive(Debug)]
pub enum FreecurrencyapiError {
    /// The computed URL is not a valid absolute URL; carries its address.
    UrlConstructionError { url: String },
    /// The transport failed (DNS, connection, timeout, TLS, reading the body).
    RequestError { source: reqwest::Error },
    /// The body arrived but is not the expected JSON; carries the body as received.
    ResponseParsingError { body: String },
}

} // verus!
