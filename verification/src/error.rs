//! Why a harvest can fail, and how an undecodable payload becomes a failure.

use vstd::prelude::*;

verus! {

/// The JSON decoder's error. Nothing is known of a value of it.
#[verifier::external_type_specification]
#[verifier::external_body]
pub struct ExJsonError(serde_json::Error);

/// The ways in which a harvest fails.
#[derive(Debug, Clone, Copy, PartialEq, Eq, Structural, Hash)]
pub enum HarvestError {
    /// Upstream could not be reached, or the HTTP layer failed.
    Transport,
    /// A payload did not match the expected schema.
    Decode,
    /// The cache's critical section could not be entered.
    Concurrency,
}

/// The outcome of decoding one payload: the decoded value, or a decode
/// failure. A payload that cannot be decoded is never read as an empty one.
pub fn decode_outcome<Type>(conversion_result: Result<Type, serde_json::Error>) -> (result: Result<
    Type,
    HarvestError,
>)
    ensures
        match conversion_result {
            Ok(value) => result == Ok::<Type, HarvestError>(value),
            Err(_) => result == Err::<Type, HarvestError>(HarvestError::Decode),
        },
{
    match conversion_result {
        Ok(value) => Ok(value),
        Err(_) => Err(HarvestError::Decode),
    }
}

/// The outcome of decoding a listing. The items come back as decoded, in
/// their order; a failed decode is a `Decode` failure whatever the status code
/// and the payload were.
pub fn handle_json_conversion<Type>(
    status_code: u16,
    json_string: String,
    conversion_result: Result<Vec<Type>, serde_json::Error>,
) -> (result: Result<Vec<Type>, HarvestError>)
    ensures
        match conversion_result {
            Ok(conversions) => result == Ok::<Vec<Type>, HarvestError>(conversions),
            Err(_) => result == Err::<Vec<Type>, HarvestError>(HarvestError::Decode),
        },
{
    decode_outcome(conversion_result)
}

} // verus!
