//! The response model and the mapping from a transport outcome to a result.

use vstd::prelude::*;
use crate::error::FreecurrencyapiError;

verus! {

/// A JSON value, as `serde_json` holds it.
#[verifier::external_type_specification]
#[verifier::external_body]
pub struct ExJsonValue(serde_json::Value);

/// A JSON object, as `serde_json` holds it.
#[verifier::external_type_specification]
#[verifier::external_body]
#[verifier::reject_recursive_types(K)]
#[verifier::reject_recursive_types(V)]
pub struct ExJsonMap<K, V>(serde_json::Map<K, V>);

/// Whether `serde_json` reads the whole text as one JSON object.
pub uninterp spec fn json_object_accepts(text: Seq<char>) -> bool;

/// Relies on `serde_json::from_str` into `serde_json::Map<String, Value>`,
/// which succeeds exactly on the texts that hold one JSON object.
#[verifier::external_body]
fn parse_json_object(text: &str) -> (r: Option<serde_json::Map<String, serde_json::Value>>)
    ensures
        r is Some <==> json_object_accepts(text@),
{
    serde_json::from_str::<serde_json::Map<String, serde_json::Value>>(text).ok()
}

/// The body of a successful call: the JSON object that the remote API
/// returned, keyed by its field names.
#[derive(Debug)]
pub struct DetailsResponse {
    pub fields: serde_json::Map<String, serde_json::Value>,
}

/// The result for a body, given what the JSON reader made of it: the parsed
/// object, or `ResponseParsingError` carrying the body unchanged.
pub fn response_from_parsed(
    body: String,
    parsed: Option<serde_json::Map<String, serde_json::Value>>,
) -> (r: Result<DetailsResponse, FreecurrencyapiError>)
    ensures
        match parsed {
            Some(fields) => r == Ok::<DetailsResponse, FreecurrencyapiError>(DetailsResponse { fields }),
            None => r matches Err(FreecurrencyapiError::ResponseParsingError { body: b }) && b@ == body@,
        },
{
    match parsed {
        Some(fields) => Ok(DetailsResponse { fields }),
        None => Err(FreecurrencyapiError::ResponseParsingError { body }),
    }
}

/// Reads a response body as a JSON object. A body that is not one gives
/// `ResponseParsingError` carrying the body unchanged.
pub fn parse_response(body: String) -> (r: Result<DetailsResponse, FreecurrencyapiError>)
    ensures
        r is Ok <==> json_object_accepts(body@),
        !json_object_accepts(body@) ==> (r matches Err(FreecurrencyapiError::ResponseParsingError { body: b }) && b@ == body@),
{
    let parsed = parse_json_object(body.as_str());
    response_from_parsed(body, parsed)
}

/// The result of a call, given what the transport handed back: its error
/// becomes `RequestError` carrying that error; a body is read as by
/// `parse_response`.
pub fn interpret_response(outcome: Result<String, reqwest::Error>) -> (r: Result<
    DetailsResponse,
    FreecurrencyapiError,
>)
    ensures
        match outcome {
            Err(e) => r matches Err(FreecurrencyapiError::RequestError { source }) && source == e,
            Ok(body) => {
                &&& r is Ok <==> json_object_accepts(body@)
                &&& !json_object_accepts(body@) ==> (r matches Err(
                    FreecurrencyapiError::ResponseParsingError { body: b },
                ) && b@ == body@)
            },
        },
{
    match outcome {
        Err(e) => Err(FreecurrencyapiError::RequestError { source: e }),
        Ok(body) => parse_response(body),
    }
}

} // verus!
