//! Admission of user input to the agent.

use vstd::prelude::*;
use vstd::string::*;

use crate::error::AppError;
use crate::text::{trim_to_string, trimmed};

verus! {

/// The longest input, in bytes, the agent accepts.
pub const MAX_INPUT_LENGTH: usize = 10000;

/// The byte length of a string, as `str::len` returns it.
pub open spec fn byte_len(text: &str) -> usize {
    text.spec_bytes().len() as usize
}

/// Accepts input that is neither blank nor over the length cap; anything
/// else is an invalid-input error.
pub fn validate_input(text: &str) -> (r: Result<(), AppError>)
    ensures
        r is Ok <==> trimmed(text@).len() > 0 && byte_len(text) <= MAX_INPUT_LENGTH,
        r matches Err(e) ==> e is InvalidInput,
{
    let t = trim_to_string(text);
    if t.as_str().is_empty() {
        return Err(AppError::invalid_input(String::from_str("Input cannot be empty")));
    }
    if text.len() > MAX_INPUT_LENGTH {
        return Err(AppError::invalid_input(
            String::from_str("Input too long (max 10000 characters)"),
        ));
    }
    Ok(())
}

} // verus!
