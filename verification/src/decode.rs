//! Decoding a response body as JSON.

use crate::error::{GatewayError, GatewayErrorView};
use vstd::prelude::*;

verus! {

/// A decoded JSON value. The gateway carries it to the caller and never
/// looks inside.
#[verifier::external_type_specification]
#[verifier::external_body]
pub struct ExValue(serde_json::Value);

/// What `serde_json::from_slice` makes of a body read as one JSON value: the
/// value, or the text its error displays.
pub uninterp spec fn json_parse(body: Seq<u8>) -> Result<serde_json::Value, Seq<char>>;

/// A decoding outcome with its error text as a sequence of characters.
pub open spec fn parse_view(outcome: Result<serde_json::Value, String>) -> Result<
    serde_json::Value,
    Seq<char>,
> {
    match outcome {
        Ok(value) => Ok(value),
        Err(text) => Err(text@),
    }
}

/// A fetch result with its failure taken by its view.
pub open spec fn result_view(result: Result<serde_json::Value, GatewayError>) -> Result<
    serde_json::Value,
    GatewayErrorView,
> {
    match result {
        Ok(value) => Ok(value),
        Err(error) => Err(error@),
    }
}

/// What a decoding outcome means for the fetch: the value, or an invalid-JSON
/// failure that keeps the decoder's text.
pub open spec fn decoding(parsed: Result<serde_json::Value, Seq<char>>) -> Result<
    serde_json::Value,
    GatewayErrorView,
> {
    match parsed {
        Ok(value) => Ok(value),
        Err(text) => Err(GatewayErrorView::InvalidJson { detail: text }),
    }
}

/// Calls `serde_json::from_slice` for a `serde_json::Value`. An error is
/// handed back as the text it displays. The outcome depends on the bytes
/// alone.
#[verifier::external_body]
pub(crate) fn parse_json(body: &[u8]) -> (outcome: Result<serde_json::Value, String>)
    ensures
        parse_view(outcome) == json_parse(body@),
{
    match serde_json::from_slice::<serde_json::Value>(body) {
        Ok(value) => Ok(value),
        Err(error) => Err(error.to_string()),
    }
}

/// Turns a decoding outcome into the result of the fetch.
pub fn decoded(outcome: Result<serde_json::Value, String>) -> (result: Result<
    serde_json::Value,
    GatewayError,
>)
    ensures
        result_view(result) == decoding(parse_view(outcome)),
{
    match outcome {
        Ok(value) => Ok(value),
        Err(text) => Err(GatewayError::InvalidJson { detail: text }),
    }
}

/// Decodes a complete response body as one JSON value.
pub fn decode(body: &[u8]) -> (result: Result<serde_json::Value, GatewayError>)
    ensures
        result_view(result) == decoding(json_parse(body@)),
{
    decoded(parse_json(body))
}

} // verus!
