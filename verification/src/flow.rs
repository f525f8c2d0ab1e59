//! The "next utterance" flow.
//!
//! One machine decides the whole cycle: run a capture; on a finished
//! segment, have it resampled and transcribed; on an empty transcript,
//! start the cycle over (empty transcriptions are absorbed, never
//! surfaced); on a cancelled capture, deliver no utterance.  The driver
//! performs the outside work each step asks for — resetting the stop
//! flag, recording, transcribing — and reports the result back.

use vstd::prelude::*;

verus! {

#[derive(Debug, Clone, Copy, PartialEq, Eq, Structural)]
pub enum FlowState {
    Ready,
    AwaitingCapture,
    AwaitingTranscript,
    Delivered,
}

/// How a capture attempt ended, as the flow sees it.  Fatal errors
/// propagate to the caller outside this machine.
pub enum CaptureOutcome {
    /// The segmenter finished a non-empty utterance segment.
    Completed(Vec<i16>),
    /// The stop flag cancelled the attempt.
    Stopped,
}

/// What the driver must do next.
pub enum FlowStep {
    /// Reset the stop flag and run a capture.
    StartCapture,
    /// Resample this segment and hand it to the transcription engine.
    Transcribe(Vec<i16>),
    /// The cycle is over: deliver the utterance, or none after a
    /// cancellation.
    Deliver(Option<String>),
}

pub struct UtteranceFlow {
    pub state: FlowState,
    /// Capture cycles started since `new`; an empty transcript starts
    /// another.
    pub capture_cycles: u64,
}

impl UtteranceFlow {
    pub fn new() -> (flow: UtteranceFlow)
        ensures
            flow.state == FlowState::Ready,
            flow.capture_cycles == 0,
    {
        UtteranceFlow { state: FlowState::Ready, capture_cycles: 0 }
    }

    /// Opens the cycle: the first capture begins.
    pub fn begin(&mut self) -> (step: FlowStep)
        requires
            old(self).state == FlowState::Ready,
            old(self).capture_cycles < u64::MAX,
        ensures
            final(self).state == FlowState::AwaitingCapture,
            final(self).capture_cycles == old(self).capture_cycles + 1,
            step is StartCapture,
    {
        self.state = FlowState::AwaitingCapture;
        self.capture_cycles = self.capture_cycles + 1;
        FlowStep::StartCapture
    }

    /// Reacts to the end of a capture: a finished segment goes on to
    /// transcription; a stopped attempt delivers no utterance.
    pub fn on_capture(&mut self, outcome: CaptureOutcome) -> (step: FlowStep)
        requires
            old(self).state == FlowState::AwaitingCapture,
        ensures
            final(self).capture_cycles == old(self).capture_cycles,
            outcome matches CaptureOutcome::Completed(segment) ==> {
                &&& final(self).state == FlowState::AwaitingTranscript
                &&& step matches FlowStep::Transcribe(s) && s@ == segment@
            },
            outcome is Stopped ==> {
                &&& final(self).state == FlowState::Delivered
                &&& step matches FlowStep::Deliver(u) && u is None
            },
    {
        match outcome {
            CaptureOutcome::Completed(segment) => {
                self.state = FlowState::AwaitingTranscript;
                FlowStep::Transcribe(segment)
            },
            CaptureOutcome::Stopped => {
                self.state = FlowState::Delivered;
                FlowStep::Deliver(None)
            },
        }
    }

    /// Reacts to a transcript: an empty one starts a fresh capture
    /// cycle, a non-empty one is the utterance.
    pub fn on_transcript(&mut self, text: String) -> (step: FlowStep)
        requires
            old(self).state == FlowState::AwaitingTranscript,
            old(self).capture_cycles < u64::MAX,
        ensures
            text@.len() == 0 ==> {
                &&& final(self).state == FlowState::AwaitingCapture
                &&& final(self).capture_cycles == old(self).capture_cycles + 1
                &&& step is StartCapture
            },
            text@.len() > 0 ==> {
                &&& final(self).state == FlowState::Delivered
                &&& final(self).capture_cycles == old(self).capture_cycles
                &&& step matches FlowStep::Deliver(u) && u matches Some(t) && t@ == text@
            },
    {
        if text.as_str().is_empty() {
            self.state = FlowState::AwaitingCapture;
            self.capture_cycles = self.capture_cycles + 1;
            FlowStep::StartCapture
        } else {
            self.state = FlowState::Delivered;
            FlowStep::Deliver(Some(text))
        }
    }
}

} // verus!
