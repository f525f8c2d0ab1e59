//! Configuration values, their defaults, and their validation.
//!
//! Durations are carried as whole milliseconds so that the derivation of
//! sample counts is exact integer arithmetic.  Loading the configuration
//! from a file or from the environment happens outside the library; the
//! rules that decide whether a loaded configuration is acceptable live
//! here.

use vstd::prelude::*;
use vstd::string::*;

use crate::error::AppError;
use crate::text::{is_char_prefix, str_starts_with};

verus! {

#[derive(Debug, Clone)]
pub struct OllamaConfig {
    pub base_url: String,
    pub model_name: String,
    pub timeout_secs: u64,
    pub max_retries: u32,
}

pub fn default_timeout() -> (t: u64)
    ensures
        t == 30,
{
    30
}

pub fn default_max_retries() -> (r: u32)
    ensures
        r == 3,
{
    3
}

pub fn default_language() -> (l: String)
    ensures
        l@ == "auto"@,
{
    String::from_str("auto")
}

#[derive(Debug, Clone)]
pub struct VoiceConfig {
    pub model_path: String,
    pub language: String,
    pub silence_threshold_ms: u64,
    pub max_duration_ms: u64,
    pub translate: bool,
}

pub fn default_silence_threshold_ms() -> (t: u64)
    ensures
        t == 1500,
{
    1500
}

pub fn default_max_duration_ms() -> (t: u64)
    ensures
        t == 30000,
{
    30000
}

impl Default for VoiceConfig {
    fn default() -> (d: VoiceConfig)
        ensures
            d.model_path@ == "models/ggml-base.bin"@,
            d.language@ == "auto"@,
            d.silence_threshold_ms == 1500,
            d.max_duration_ms == 30000,
            !d.translate,
    {
        VoiceConfig {
            model_path: String::from_str("models/ggml-base.bin"),
            language: default_language(),
            silence_threshold_ms: default_silence_threshold_ms(),
            max_duration_ms: default_max_duration_ms(),
            translate: false,
        }
    }
}

#[derive(Debug, Clone)]
pub struct AppConfig {
    pub ollama: OllamaConfig,
    pub voice: Option<VoiceConfig>,
}

/// The model-server part of the configuration is acceptable: a non-empty
/// HTTP or HTTPS base URL, a non-empty model name, a positive timeout.
pub open spec fn spec_ollama_valid(c: OllamaConfig) -> bool {
    &&& c.base_url@.len() > 0
    &&& (is_char_prefix("http://"@, c.base_url@) || is_char_prefix("https://"@, c.base_url@))
    &&& c.model_name@.len() > 0
    &&& c.timeout_secs > 0
}

/// The voice part of the configuration is acceptable: a non-empty model
/// path and positive durations.
pub open spec fn spec_voice_valid(v: VoiceConfig) -> bool {
    &&& v.model_path@.len() > 0
    &&& v.silence_threshold_ms > 0
    &&& v.max_duration_ms > 0
}

pub open spec fn spec_config_valid(c: AppConfig) -> bool {
    &&& spec_ollama_valid(c.ollama)
    &&& (c.voice matches Some(v) ==> spec_voice_valid(v))
}

impl AppConfig {
    /// Accepts the configuration exactly when every rule of
    /// `spec_config_valid` holds; every refusal is a configuration error.
    pub fn validate(&self) -> (r: Result<(), AppError>)
        ensures
            r is Ok <==> spec_config_valid(*self),
            r matches Err(e) ==> e is Config,
    {
        if self.ollama.base_url.as_str().is_empty() {
            return Err(AppError::config(String::from_str("base_url cannot be empty")));
        }

        let is_http = str_starts_with(self.ollama.base_url.as_str(), "http://");
        let is_https = str_starts_with(self.ollama.base_url.as_str(), "https://");
        if !is_http && !is_https {
            return Err(AppError::config(
                String::from_str("base_url must start with http:// or https://"),
            ));
        }

        if self.ollama.model_name.as_str().is_empty() {
            return Err(AppError::config(String::from_str("model_name cannot be empty")));
        }

        if self.ollama.timeout_secs == 0 {
            return Err(AppError::config(
                String::from_str("timeout_secs must be greater than 0"),
            ));
        }

        if let Some(voice) = &self.voice {
            if voice.model_path.as_str().is_empty() {
                return Err(AppError::config(
                    String::from_str("voice.model_path cannot be empty"),
                ));
            }
            if voice.silence_threshold_ms == 0 {
                return Err(AppError::config(
                    String::from_str("voice.silence_threshold_ms must be positive"),
                ));
            }
            if voice.max_duration_ms == 0 {
                return Err(AppError::config(
                    String::from_str("voice.max_duration_ms must be positive"),
                ));
            }
        }

        Ok(())
    }

    pub fn voice_enabled(&self) -> (on: bool)
        ensures
            on == self.voice is Some,
    {
        self.voice.is_some()
    }
}

impl Default for AppConfig {
    fn default() -> (d: AppConfig)
        ensures
            d.ollama.base_url@ == "http://localhost:11434"@,
            d.ollama.model_name@ == "llama3.1:8b"@,
            d.ollama.timeout_secs == 30,
            d.ollama.max_retries == 3,
            d.voice is None,
    {
        AppConfig {
            ollama: OllamaConfig {
                base_url: String::from_str("http://localhost:11434"),
                model_name: String::from_str("llama3.1:8b"),
                timeout_secs: default_timeout(),
                max_retries: default_max_retries(),
            },
            voice: None,
        }
    }
}

/// The number of samples that `ms` milliseconds span at `rate` samples per
/// second, rounded down.
pub fn samples_for_ms(ms: u64, rate: u32) -> (n: usize)
    requires
        ms * rate / 1000 <= usize::MAX,
    ensures
        n == ms * rate / 1000,
{
    proof {
        assert((ms as int) * (rate as int) <= 0xffff_ffff_ffff_ffff * 0xffff_ffff)
            by (nonlinear_arith)
            requires
                ms <= 0xffff_ffff_ffff_ffff,
                rate <= 0xffff_ffff,
        ;
    }
    let wide: u128 = (ms as u128) * (rate as u128);
    let q: u128 = wide / 1000;
    q as usize
}

} // verus!
