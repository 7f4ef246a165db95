//! Translation between the universal chat schema and provider schemas.

pub mod anthropic;
pub mod universal;

use crate::strng::Strng;
use vstd::prelude::*;

verus! {

/// `std::time::Instant`, carried as it is.
#[verifier::external_type_specification]
#[verifier::external_body]
pub struct ExInstant(std::time::Instant);

/// `serde_json::Error`, carried as it is.
#[verifier::external_type_specification]
#[verifier::external_body]
pub struct ExJsonError(serde_json::Error);

/// The present moment on the monotonic clock.
///
/// Trusted: `std::time::Instant::now` reads the clock; nothing is claimed of
/// what it reads.
#[verifier::external_body]
pub(crate) fn instant_now() -> (r: std::time::Instant) {
    std::time::Instant::now()
}

/// The present time in whole seconds since the Unix epoch.
///
/// Trusted: `chrono::Utc::now` reads the system clock and
/// `DateTime::timestamp` gives its seconds; nothing is claimed of the number.
/// The call does not return on a machine whose clock stands before the epoch.
#[verifier::external_body]
pub(crate) fn unix_now() -> (r: i64) {
    chrono::Utc::now().timestamp()
}

/// The low 32 bits of a timestamp, as the schema's `created` field holds it.
pub fn created_from(seconds: i64) -> (r: u32)
    ensures
        r == seconds % 0x1_0000_0000,
{
    let shifted: i128 = seconds as i128 + 0x8000_0000_0000_0000i128;
    (shifted % 0x1_0000_0000i128) as u32
}

/// What a request's response told about its cost and timing.
#[derive(Debug)]
pub struct LLMResponse {
    /// When the first token came.
    pub first_token: Option<std::time::Instant>,
    pub output_tokens: Option<u64>,
    pub input_tokens_from_response: Option<u64>,
    pub total_tokens: Option<u64>,
    pub provider_model: Option<Strng>,
}

impl LLMResponse {
    /// A record with nothing known yet.
    pub fn new() -> (r: LLMResponse)
        ensures
            r.first_token.is_none(),
            r.output_tokens.is_none(),
            r.input_tokens_from_response.is_none(),
            r.total_tokens.is_none(),
            r.provider_model.is_none(),
    {
        LLMResponse {
            first_token: None,
            output_tokens: None,
            input_tokens_from_response: None,
            total_tokens: None,
            provider_model: None,
        }
    }
}

/// What can go wrong while a provider's answer is read.
#[derive(Debug)]
pub enum AIError {
    /// The body was not the JSON that the provider documents.
    ResponseParsing(serde_json::Error),
}

} // verus!
