use voicepipe::capture::{CaptureEvent, CaptureSession, CaptureStatus};
use voicepipe::energy::chunk_has_voice;
use voicepipe::segment::{Segmenter, SegmenterState};

fn voiced_chunk(n: usize) -> Vec<i16> {
    vec![3000i16; n]
}

fn silent_chunk(n: usize) -> Vec<i16> {
    vec![0i16; n]
}

#[test]
fn energy_threshold_is_exact() {
    // RMS must exceed 1/100 of full scale: 10000 * s^2 > 2^30 for one sample.
    // 328^2 = 107584, and 1075840000 > 1073741824; 327^2 = 106929 falls short.
    assert!(chunk_has_voice(&vec![328i16]));
    assert!(!chunk_has_voice(&vec![327i16]));
    assert!(chunk_has_voice(&vec![-328i16]));
}

#[test]
fn empty_chunk_is_silent() {
    assert!(!chunk_has_voice(&Vec::new()));
}

#[test]
fn quiet_chunk_is_silent() {
    assert!(!chunk_has_voice(&silent_chunk(1024)));
    assert!(chunk_has_voice(&voiced_chunk(1024)));
}

#[test]
fn all_silent_input_never_leaves_waiting_and_yields_no_signal() {
    let mut session = CaptureSession::new(10, 1000);
    for _ in 0..50 {
        let status = session.on_event(false, CaptureEvent::Chunk(silent_chunk(4)));
        assert_eq!(status, CaptureStatus::Continue);
        assert_eq!(session.seg.state, SegmenterState::WaitingForVoice);
        assert_eq!(session.seg.buffer.len(), 0);
    }
    let status = session.on_event(false, CaptureEvent::Closed);
    assert_eq!(status, CaptureStatus::NoSignal);
}

#[test]
fn buffer_grows_monotonically_once_recording() {
    let mut seg = Segmenter::new(1000, 100000);
    seg.push_chunk(&voiced_chunk(4));
    assert_eq!(seg.state, SegmenterState::Recording);
    let mut last_len = seg.buffer.len();
    let chunks = [
        voiced_chunk(4),
        silent_chunk(4),
        voiced_chunk(8),
        silent_chunk(4),
        silent_chunk(4),
    ];
    for chunk in chunks.iter() {
        seg.push_chunk(chunk);
        assert!(seg.buffer.len() >= last_len);
        // once voice was heard, every chunk is appended whole
        assert_eq!(seg.buffer.len(), last_len + chunk.len());
        last_len = seg.buffer.len();
    }
}

#[test]
fn leading_silence_is_excluded_and_trailing_silence_ends_the_utterance() {
    // chunk length 4, silence threshold 10: three silent chunks close it.
    let mut session = CaptureSession::new(10, 100000);

    assert_eq!(session.on_event(false, CaptureEvent::Chunk(silent_chunk(4))), CaptureStatus::Continue);
    assert_eq!(session.on_event(false, CaptureEvent::Chunk(silent_chunk(4))), CaptureStatus::Continue);
    assert_eq!(session.seg.buffer.len(), 0);

    assert_eq!(session.on_event(false, CaptureEvent::Chunk(voiced_chunk(4))), CaptureStatus::Continue);
    assert_eq!(session.on_event(false, CaptureEvent::Chunk(voiced_chunk(4))), CaptureStatus::Continue);
    assert_eq!(session.on_event(false, CaptureEvent::Chunk(voiced_chunk(4))), CaptureStatus::Continue);

    assert_eq!(session.on_event(false, CaptureEvent::Chunk(silent_chunk(4))), CaptureStatus::Continue);
    assert_eq!(session.on_event(false, CaptureEvent::Chunk(silent_chunk(4))), CaptureStatus::Continue);
    let status = session.on_event(false, CaptureEvent::Chunk(silent_chunk(4)));
    assert_eq!(status, CaptureStatus::Finished);

    // exactly the three voiced chunks plus the silent chunks from the
    // first voiced chunk onward; the two leading silent chunks are gone
    let mut expected = Vec::new();
    expected.extend_from_slice(&voiced_chunk(4));
    expected.extend_from_slice(&voiced_chunk(4));
    expected.extend_from_slice(&voiced_chunk(4));
    expected.extend_from_slice(&silent_chunk(4));
    expected.extend_from_slice(&silent_chunk(4));
    expected.extend_from_slice(&silent_chunk(4));
    assert_eq!(session.take_segment(), expected);
}

#[test]
fn transient_silence_resumes_recording() {
    let mut seg = Segmenter::new(100, 100000);
    seg.push_chunk(&voiced_chunk(4));
    seg.push_chunk(&silent_chunk(4));
    assert_eq!(seg.state, SegmenterState::SilenceDetected { silence_samples: 4 });
    seg.push_chunk(&voiced_chunk(4));
    assert_eq!(seg.state, SegmenterState::Recording);
}

#[test]
fn duration_cap_terminates_while_still_recording() {
    // voiced chunks only, cap at 10 samples, chunk length 4
    let mut session = CaptureSession::new(1000000, 10);
    assert_eq!(session.on_event(false, CaptureEvent::Chunk(voiced_chunk(4))), CaptureStatus::Continue);
    assert_eq!(session.on_event(false, CaptureEvent::Chunk(voiced_chunk(4))), CaptureStatus::Continue);
    assert_eq!(session.seg.state, SegmenterState::Recording);
    let status = session.on_event(false, CaptureEvent::Chunk(voiced_chunk(4)));
    assert_eq!(status, CaptureStatus::Finished);
    // the cap is reached and overshot by less than one chunk
    let segment = session.take_segment();
    assert_eq!(segment.len(), 12);
    assert!(segment.len() >= 10 && segment.len() < 10 + 4);
}

#[test]
fn stop_flag_cancels_the_attempt() {
    let mut session = CaptureSession::new(10, 1000);
    let status = session.on_event(true, CaptureEvent::Chunk(voiced_chunk(4)));
    assert_eq!(status, CaptureStatus::Cancelled);
    assert_eq!(session.seg.buffer.len(), 0);
}

#[test]
fn closed_channel_after_voice_finishes_the_utterance() {
    let mut session = CaptureSession::new(1000, 100000);
    session.on_event(false, CaptureEvent::Chunk(voiced_chunk(4)));
    let status = session.on_event(false, CaptureEvent::Closed);
    assert_eq!(status, CaptureStatus::Finished);
    assert_eq!(session.take_segment().len(), 4);
}
