//! The capture session: the segmenter wired to channel events and the
//! stop flag.
//!
//! The consumer of the chunk channel drives this machine with one event
//! per reception: either a chunk, or the news that the channel has
//! closed.  The stop flag, observed at each reception, discards the
//! attempt at once.  A closed channel before any voiced chunk means no
//! signal; after voice, whatever was accumulated stands as the utterance.

use vstd::prelude::*;

use crate::energy::spec_has_voice;
use crate::segment::{
    lemma_silent_input_never_records, seg_init, seg_run, seg_step, Segmenter, SegmenterState,
};

verus! {

#[derive(Debug, Clone, Copy, PartialEq, Eq, Structural)]
pub enum CaptureStatus {
    /// Still capturing: await the next event.
    Continue,
    /// The utterance is complete and non-empty.
    Finished,
    /// The stop flag was observed: the attempt is discarded.
    Cancelled,
    /// The producer went away before any voiced chunk was heard.
    NoSignal,
}

pub enum CaptureEvent {
    Chunk(Vec<i16>),
    Closed,
}

pub struct CaptureSession {
    pub seg: Segmenter,
    pub status: CaptureStatus,
    /// The chunks the segmenter has absorbed, oldest first.
    pub history: Ghost<Seq<Seq<i16>>>,
}

impl CaptureSession {
    pub open spec fn wf(self) -> bool {
        &&& self.seg.wf()
        &&& (self.status is Continue ==> !self.seg.done)
        &&& (self.status is Finished ==> self.seg.buffer@.len() > 0)
        &&& self.seg.model() == seg_run(
            self.history@,
            self.seg.silence_threshold_samples,
            self.seg.max_duration_samples,
        )
    }

    /// The session still accepts events.
    pub open spec fn active(self) -> bool {
        self.status is Continue
    }

    pub fn new(silence_threshold_samples: usize, max_duration_samples: usize) -> (s: CaptureSession)
        requires
            silence_threshold_samples > 0,
            max_duration_samples > 0,
        ensures
            s.wf(),
            s.active(),
            s.seg.model() == seg_init(),
            s.seg.silence_threshold_samples == silence_threshold_samples,
            s.seg.max_duration_samples == max_duration_samples,
            s.history@ == Seq::<Seq<i16>>::empty(),
    {
        CaptureSession {
            seg: Segmenter::new(silence_threshold_samples, max_duration_samples),
            status: CaptureStatus::Continue,
            history: Ghost(Seq::empty()),
        }
    }

    /// Absorbs one reception.  A raised stop flag cancels the attempt on
    /// the spot; a closed channel finishes with whatever was accumulated,
    /// or reports no signal if nothing ever was; a chunk advances the
    /// segmenter by exactly one abstract step.
    pub fn on_event(&mut self, stop_requested: bool, event: CaptureEvent) -> (status: CaptureStatus)
        requires
            old(self).wf(),
            old(self).active(),
        ensures
            final(self).wf(),
            status == final(self).status,
            final(self).seg.silence_threshold_samples == old(self).seg.silence_threshold_samples,
            final(self).seg.max_duration_samples == old(self).seg.max_duration_samples,
            stop_requested && event is Chunk ==> {
                &&& status is Cancelled
                &&& final(self).seg == old(self).seg
                &&& final(self).history@ == old(self).history@
            },
            event is Closed ==> {
                &&& final(self).seg == old(self).seg
                &&& final(self).history@ == old(self).history@
                &&& (status is Finished <==> old(self).seg.buffer@.len() > 0)
                &&& (status is NoSignal <==> old(self).seg.buffer@.len() == 0)
            },
            event matches CaptureEvent::Chunk(c) ==> (!stop_requested ==> {
                &&& final(self).seg.model() == seg_step(
                    old(self).seg.model(),
                    c@,
                    old(self).seg.silence_threshold_samples,
                    old(self).seg.max_duration_samples,
                )
                &&& final(self).history@ == old(self).history@.push(c@)
                &&& (status is Finished <==> final(self).seg.done)
                &&& (status is Continue <==> !final(self).seg.done)
            }),
    {
        match event {
            CaptureEvent::Chunk(chunk) => {
                if stop_requested {
                    self.status = CaptureStatus::Cancelled;
                } else {
                    let done = self.seg.push_chunk(&chunk);
                    proof {
                        let extended = self.history@.push(chunk@);
                        assert(extended.drop_last() =~= old(self).history@);
                        assert(extended.last() == chunk@);
                    }
                    self.history = Ghost(self.history@.push(chunk@));
                    if done {
                        self.status = CaptureStatus::Finished;
                    }
                }
            },
            CaptureEvent::Closed => {
                if self.seg.buffer.len() > 0 {
                    self.status = CaptureStatus::Finished;
                } else {
                    self.status = CaptureStatus::NoSignal;
                }
            },
        }
        self.status
    }

    /// When every chunk a session has absorbed was silent, it has
    /// recorded nothing: the segmenter still waits for voice, the buffer
    /// is empty, and a closed channel can therefore only end this
    /// capture with no signal.
    pub proof fn lemma_silent_session_records_nothing(self)
        requires
            self.wf(),
            forall|i: int|
                0 <= i < self.history@.len() ==> !spec_has_voice(#[trigger] self.history@[i]),
        ensures
            self.seg.state == SegmenterState::WaitingForVoice,
            self.seg.buffer@.len() == 0,
    {
        lemma_silent_input_never_records(
            self.history@,
            self.seg.silence_threshold_samples,
            self.seg.max_duration_samples,
        );
    }

    /// Hands out the finished utterance.
    pub fn take_segment(self) -> (segment: Vec<i16>)
        requires
            self.wf(),
            self.status is Finished,
        ensures
            segment@ == self.seg.buffer@,
            segment@.len() > 0,
    {
        self.seg.buffer
    }
}

} // verus!
