use voicepipe::agent::validate_input;
use voicepipe::error::AppError;
use voicepipe::input::{line_decision, LineOutcome};
use voicepipe::output::TextOutput;
use voicepipe::transcribe::{assemble_transcript, language_hint};

#[test]
fn zero_bytes_read_is_end_of_input() {
    assert!(matches!(line_decision(0, ""), LineOutcome::EndOfInput));
}

#[test]
fn blank_lines_are_skipped() {
    assert!(matches!(line_decision(1, "\n"), LineOutcome::SkipEmpty));
    assert!(matches!(line_decision(5, "   \t\n"), LineOutcome::SkipEmpty));
}

#[test]
fn lines_are_delivered_trimmed() {
    match line_decision(10, "  hello \n") {
        LineOutcome::Deliver(text) => assert_eq!(text, "hello"),
        _ => panic!("expected delivery"),
    }
}

#[test]
fn input_validation_refuses_blank_and_oversized() {
    assert!(validate_input("hello").is_ok());
    assert!(matches!(validate_input(""), Err(AppError::InvalidInput(_))));
    assert!(matches!(validate_input("   "), Err(AppError::InvalidInput(_))));

    let at_cap = "a".repeat(10000);
    assert!(validate_input(&at_cap).is_ok());
    let over_cap = "a".repeat(10001);
    assert!(matches!(validate_input(&over_cap), Err(AppError::InvalidInput(_))));
}

#[test]
fn output_buffers_and_drains() {
    let mut out = TextOutput::new();
    assert_eq!(out.pending_len(), 0);
    out.queue_text("abc");
    out.queue_newline();
    assert_eq!(out.pending_len(), 4);
    assert!(!out.needs_flush());
    let drained = out.take_pending();
    assert_eq!(drained, b"abc\n".to_vec());
    assert_eq!(out.pending_len(), 0);
}

#[test]
fn flush_threshold_is_1024_bytes() {
    let mut out = TextOutput::with_capacity(64);
    out.queue_text(&"x".repeat(1023));
    assert!(!out.needs_flush());
    out.queue_text("x");
    assert!(out.needs_flush());
}

#[test]
fn transcript_segments_concatenate_in_order_and_trim() {
    let segments = vec![" Hello".to_string(), ",".to_string(), " world ".to_string()];
    assert_eq!(assemble_transcript(&segments), "Hello, world");
    assert_eq!(assemble_transcript(&Vec::new()), "");
    assert_eq!(assemble_transcript(&vec!["   ".to_string()]), "");
}

#[test]
fn language_hint_is_none_for_auto() {
    assert!(language_hint(&"auto".to_string()).is_none());
    assert_eq!(language_hint(&"en".to_string()), Some("en".to_string()));
}
