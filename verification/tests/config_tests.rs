use voicepipe::config::{
    default_language, default_max_retries, default_timeout, samples_for_ms, AppConfig,
    OllamaConfig, VoiceConfig,
};
use voicepipe::error::AppError;

fn valid_config() -> AppConfig {
    AppConfig::default()
}

#[test]
fn defaults_are_as_documented() {
    assert_eq!(default_timeout(), 30);
    assert_eq!(default_max_retries(), 3);
    assert_eq!(default_language(), "auto");

    let voice = VoiceConfig::default();
    assert_eq!(voice.model_path, "models/ggml-base.bin");
    assert_eq!(voice.language, "auto");
    assert_eq!(voice.silence_threshold_ms, 1500);
    assert_eq!(voice.max_duration_ms, 30000);
    assert!(!voice.translate);

    let cfg = AppConfig::default();
    assert_eq!(cfg.ollama.base_url, "http://localhost:11434");
    assert_eq!(cfg.ollama.model_name, "llama3.1:8b");
    assert_eq!(cfg.ollama.timeout_secs, 30);
    assert_eq!(cfg.ollama.max_retries, 3);
    assert!(cfg.voice.is_none());
}

#[test]
fn default_config_validates() {
    assert!(valid_config().validate().is_ok());
}

#[test]
fn https_base_url_validates() {
    let mut cfg = valid_config();
    cfg.ollama.base_url = "https://example.com".to_string();
    assert!(cfg.validate().is_ok());
}

#[test]
fn empty_base_url_is_refused() {
    let mut cfg = valid_config();
    cfg.ollama.base_url = String::new();
    assert!(matches!(cfg.validate(), Err(AppError::Config(_))));
}

#[test]
fn non_http_base_url_is_refused() {
    let mut cfg = valid_config();
    cfg.ollama.base_url = "ftp://example.com".to_string();
    assert!(matches!(cfg.validate(), Err(AppError::Config(_))));
}

#[test]
fn empty_model_name_is_refused() {
    let mut cfg = valid_config();
    cfg.ollama.model_name = String::new();
    assert!(matches!(cfg.validate(), Err(AppError::Config(_))));
}

#[test]
fn zero_timeout_is_refused() {
    let mut cfg = valid_config();
    cfg.ollama.timeout_secs = 0;
    assert!(matches!(cfg.validate(), Err(AppError::Config(_))));
}

#[test]
fn voice_rules_are_enforced() {
    let mut cfg = valid_config();
    cfg.voice = Some(VoiceConfig::default());
    assert!(cfg.validate().is_ok());
    assert!(cfg.voice_enabled());

    let mut bad = valid_config();
    let mut v = VoiceConfig::default();
    v.model_path = String::new();
    bad.voice = Some(v);
    assert!(matches!(bad.validate(), Err(AppError::Config(_))));

    let mut bad = valid_config();
    let mut v = VoiceConfig::default();
    v.silence_threshold_ms = 0;
    bad.voice = Some(v);
    assert!(matches!(bad.validate(), Err(AppError::Config(_))));

    let mut bad = valid_config();
    let mut v = VoiceConfig::default();
    v.max_duration_ms = 0;
    bad.voice = Some(v);
    assert!(matches!(bad.validate(), Err(AppError::Config(_))));
}

#[test]
fn voice_disabled_without_voice_section() {
    assert!(!valid_config().voice_enabled());
}

#[test]
fn sample_counts_follow_the_rate() {
    // 1.5 s at 16 kHz
    assert_eq!(samples_for_ms(1500, 16000), 24000);
    // 30 s at 44.1 kHz
    assert_eq!(samples_for_ms(30000, 44100), 1_323_000);
    // rounding down: 1 ms at 999 Hz spans 0 whole samples
    assert_eq!(samples_for_ms(1, 999), 0);
}

#[test]
fn ollama_config_fields_carry_through() {
    let c = OllamaConfig {
        base_url: "http://h:1".to_string(),
        model_name: "m".to_string(),
        timeout_secs: 9,
        max_retries: 2,
    };
    assert_eq!(c.timeout_secs, 9);
    assert_eq!(c.max_retries, 2);
}
