//! The decisions of the streaming model client.
//!
//! The HTTP transport stays outside; here stand the admission of the
//! configuration and the prompt, the shape of the request, the mapping
//! from a decoded response line to a stream chunk, and the retry policy
//! with its exponential backoff.

use vstd::prelude::*;
use vstd::arithmetic::power2::{lemma2_to64, lemma2_to64_rest, pow2};
use vstd::bits::lemma_u64_shl_is_mul;
use vstd::string::*;

use crate::error::AppError;
use crate::text::{trim_to_string, trimmed};

verus! {

/// One increment of a streamed reply.
#[derive(Debug, Clone)]
pub struct StreamChunk {
    pub text: String,
    pub done: bool,
}

/// The body of a generation request.  The transport serializes it.
pub struct GenerateRequest {
    pub model: String,
    pub prompt: String,
    pub stream: bool,
}

/// One decoded line of the model server's streamed reply.  The transport
/// deserializes into it.
pub struct GenerateResponse {
    pub response: String,
    pub done: bool,
    pub error: Option<String>,
}

/// A generation request always asks for a streamed reply.
pub fn build_generate_request(model: &String, prompt: &str) -> (r: GenerateRequest)
    ensures
        r.model@ == model@,
        r.prompt@ == prompt@,
        r.stream,
{
    GenerateRequest { model: model.clone(), prompt: String::from_str(prompt), stream: true }
}

/// A response line carrying an error fails the stream with that message;
/// any other becomes a chunk of its text and done flag.
pub fn chunk_from_response(resp: GenerateResponse) -> (r: Result<StreamChunk, AppError>)
    ensures
        resp.error matches Some(msg) ==> r matches Err(e) && e == AppError::Llm(msg),
        resp.error is None ==> {
            &&& r matches Ok(c) && c.text == resp.response && c.done == resp.done
        },
{
    match resp.error {
        Some(msg) => Err(AppError::Llm(msg)),
        None => Ok(StreamChunk { text: resp.response, done: resp.done }),
    }
}

/// The client accepts exactly a non-empty base URL and model name.
pub fn validate_config(base_url: &str, model_name: &str) -> (r: Result<(), AppError>)
    ensures
        r is Ok <==> base_url@.len() > 0 && model_name@.len() > 0,
        r matches Err(e) ==> e is InvalidInput,
{
    if base_url.is_empty() {
        return Err(AppError::invalid_input(String::from_str("base url can not be empty")));
    }
    if model_name.is_empty() {
        return Err(AppError::invalid_input(String::from_str("model_name can not be empty")));
    }
    Ok(())
}

/// A prompt must not be blank.
pub fn validate_prompt(prompt: &str) -> (r: Result<(), AppError>)
    ensures
        r is Ok <==> trimmed(prompt@).len() > 0,
        r matches Err(e) ==> e is InvalidInput,
{
    let t = trim_to_string(prompt);
    if t.as_str().is_empty() {
        return Err(AppError::invalid_input(String::from_str("Prompt can not be empty")));
    }
    Ok(())
}

/// What to do after a failed attempt.
pub enum RetryDecision {
    /// Sleep this long, then try again.
    Retry { delay_ms: u64 },
    /// Surface the error.
    GiveUp,
}

/// The retry policy: a retryable failure before the last allowed attempt
/// earns another try after an exponential backoff of `100 * 2^(attempt-1)`
/// milliseconds; anything else gives up.  Attempts count from 1; the cap
/// keeps the delay within a 64-bit count of milliseconds.
pub fn retry_decision(attempt: u32, max_retries: u32, retryable: bool) -> (d: RetryDecision)
    requires
        1 <= attempt <= 58,
    ensures
        retryable && attempt < max_retries ==> {
            &&& d matches RetryDecision::Retry { delay_ms } && delay_ms == 100 * pow2(
                (attempt - 1) as nat,
            )
        },
        !(retryable && attempt < max_retries) ==> d is GiveUp,
{
    if retryable && attempt < max_retries {
        proof {
            lemma2_to64();
            lemma2_to64_rest();
            lemma_u64_shl_is_mul(1u64, (attempt - 1) as u64);
        }
        let delay_ms: u64 = 100u64 * (1u64 << ((attempt - 1) as u64));
        RetryDecision::Retry { delay_ms }
    } else {
        RetryDecision::GiveUp
    }
}

} // verus!
