//! The error taxonomy of the pipeline.
//!
//! Variants that outside collaborators raise as foreign error values
//! (I/O, HTTP, JSON) carry their rendered message here; the unverified rim
//! of the application converts between this enum and its own error type.

use vstd::prelude::*;

verus! {

#[derive(Debug, Clone)]
pub enum AppError {
    Config(String),
    Io(String),
    Input(String),
    Output(String),
    Audio(String),
    SpeechRecognition(String),
    NoAudioDevice,
    Http(String),
    ServiceUnavailable(String),
    Timeout { seconds: u64 },
    Json(String),
    InvalidInput(String),
    Llm(String),
    StreamEnded,
    RetryExhausted { attempts: u32 },
    Cancelled,
}

impl AppError {
    pub fn config(msg: String) -> (e: AppError)
        ensures
            e == AppError::Config(msg),
    {
        AppError::Config(msg)
    }

    pub fn llm(msg: String) -> (e: AppError)
        ensures
            e == AppError::Llm(msg),
    {
        AppError::Llm(msg)
    }

    pub fn invalid_input(msg: String) -> (e: AppError)
        ensures
            e == AppError::InvalidInput(msg),
    {
        AppError::InvalidInput(msg)
    }

    pub fn service_unvailable(msg: String) -> (e: AppError)
        ensures
            e == AppError::ServiceUnavailable(msg),
    {
        AppError::ServiceUnavailable(msg)
    }

    pub fn audio(msg: String) -> (e: AppError)
        ensures
            e == AppError::Audio(msg),
    {
        AppError::Audio(msg)
    }

    /// An error is worth another attempt only when the transport failed:
    /// a connection fault, a timeout, or an unavailable service.
    pub fn is_retryable(&self) -> (r: bool)
        ensures
            r == ((*self) is Http || (*self) is Timeout || (*self) is ServiceUnavailable),
    {
        matches!(
            self,
            AppError::Http(_) | AppError::Timeout { .. } | AppError::ServiceUnavailable(_)
        )
    }
}

} // verus!
