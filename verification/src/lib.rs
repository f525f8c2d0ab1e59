//! Voice capture and endpoint-detection pipeline for a conversational CLI
//! agent.
//!
//! The heart of the crate is the utterance segmenter: an energy-based state
//! machine that decides when a spoken turn starts and ends, accumulating the
//! samples of the current utterance into a buffer.  Around it stand the
//! capture session (channel events, stop flag, no-signal detection), the
//! resampling plan that carries a finished segment from the device rate to
//! the transcription rate, and the retry flow that turns transcripts into
//! final utterances.  Audio samples are held as 16-bit PCM values.

pub mod agent;
pub mod capture;
pub mod config;
pub mod energy;
pub mod error;
pub mod flow;
pub mod input;
pub mod llm;
pub mod output;
pub mod resample;
pub mod samples;
pub mod segment;
pub mod text;
pub mod transcribe;
