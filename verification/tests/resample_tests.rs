use voicepipe::resample::ResampleSession;

#[test]
fn same_rate_resampling_is_identity() {
    let input: Vec<i16> = vec![5, -3, 200, 0, -32768, 32767];
    let session = ResampleSession::new(input.clone(), 16000, 16000, 0, 0);
    let out = session.finish();
    assert_eq!(out, input);
}

#[test]
fn same_rate_empty_input_stays_empty() {
    let session = ResampleSession::new(Vec::new(), 44100, 44100, 0, 0);
    assert_eq!(session.finish(), Vec::<i16>::new());
}

#[test]
fn frames_are_cut_and_zero_padded() {
    // 48000 -> 16000 with frames of 3 in, 1 out: 1 * 48000 == 3 * 16000
    let input: Vec<i16> = vec![1, 2, 3, 4, 5];
    let mut session = ResampleSession::new(input, 48000, 16000, 3, 1);
    let first = session.next_frame().unwrap();
    assert_eq!(first, vec![1, 2, 3]);
    session.push_output(&vec![7]);
    let second = session.next_frame().unwrap();
    assert_eq!(second, vec![4, 5, 0]);
    session.push_output(&vec![8]);
    assert!(session.next_frame().is_none());
}

#[test]
fn downsampling_output_length_is_exact() {
    // 10 samples from 48000 to 16000: 10 * 16000 / 48000 = 3
    let input: Vec<i16> = vec![9; 10];
    let mut session = ResampleSession::new(input, 48000, 16000, 3, 1);
    let mut frames: usize = 0;
    while let Some(frame) = session.next_frame() {
        assert_eq!(frame.len(), 3);
        session.push_output(&vec![1]);
        frames += 1;
    }
    // 10 samples make 4 frames of 3, the last padded with 2 zeros
    assert_eq!(frames, 4);
    let out = session.finish();
    assert_eq!(out.len(), 3);
}

#[test]
fn upsampling_output_length_is_exact() {
    // 5 samples from 16000 to 48000: 5 * 48000 / 16000 = 15
    let input: Vec<i16> = vec![2; 5];
    let mut session = ResampleSession::new(input, 16000, 48000, 2, 6);
    while session.next_frame().is_some() {
        session.push_output(&vec![3; 6]);
    }
    let out = session.finish();
    assert_eq!(out.len(), 15);
}

#[test]
fn collected_output_is_truncated_not_reordered() {
    let input: Vec<i16> = vec![1, 2, 3, 4];
    let mut session = ResampleSession::new(input, 48000, 16000, 3, 1);
    session.next_frame().unwrap();
    session.push_output(&vec![11]);
    session.next_frame().unwrap();
    session.push_output(&vec![22]);
    assert!(session.next_frame().is_none());
    // expected length: 4 * 16000 / 48000 = 1
    assert_eq!(session.finish(), vec![11]);
}
