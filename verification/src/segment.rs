//! The voice activity segmenter.
//!
//! A state machine consumes the stream of audio chunks, classifies each as
//! voiced or silent by its energy, and accumulates the samples of the
//! current utterance.  While waiting for voice, silent chunks are
//! discarded, so an utterance never carries leading silence.  Once voice
//! has been heard every chunk is appended; sustained trailing silence of at
//! least the configured span, or a buffer that has reached the hard
//! duration cap, completes the utterance.
//!
//! The transition logic is stated once, as pure functions over an abstract
//! model (`SegModel`), and the executable segmenter is proved to follow
//! that model step by step.

use vstd::prelude::*;

use crate::energy::{chunk_has_voice, spec_has_voice};
use crate::samples::push_all;

verus! {

#[derive(Debug, Clone, Copy, PartialEq, Eq, Structural)]
pub enum SegmenterState {
    WaitingForVoice,
    Recording,
    SilenceDetected { silence_samples: usize },
}

/// Whether a chunk arriving in state `s` is appended to the utterance
/// buffer.  Only silent chunks heard before any voice are discarded.
pub open spec fn spec_appends(s: SegmenterState, voiced: bool) -> bool {
    !(s is WaitingForVoice && !voiced)
}

/// The state after one chunk of length `chunk_len` with voicedness
/// `voiced`: voice always (re)enters `Recording`; silence while recording
/// starts the silence count at the chunk's length; further silence extends
/// the count.
pub open spec fn spec_next_state(s: SegmenterState, voiced: bool, chunk_len: usize) -> SegmenterState {
    match s {
        SegmenterState::WaitingForVoice => if voiced {
            SegmenterState::Recording
        } else {
            SegmenterState::WaitingForVoice
        },
        SegmenterState::Recording => if voiced {
            SegmenterState::Recording
        } else {
            SegmenterState::SilenceDetected { silence_samples: chunk_len }
        },
        SegmenterState::SilenceDetected { silence_samples } => if voiced {
            SegmenterState::Recording
        } else {
            SegmenterState::SilenceDetected {
                silence_samples: (silence_samples + chunk_len) as usize,
            }
        },
    }
}

/// Whether this chunk completes the utterance by sustained silence.
pub open spec fn spec_silence_done(
    s: SegmenterState,
    voiced: bool,
    chunk_len: usize,
    silence_threshold: usize,
) -> bool {
    &&& s matches SegmenterState::SilenceDetected { silence_samples }
    &&& !voiced
    &&& silence_samples + chunk_len >= silence_threshold
}

/// The abstract state of a capture: segmenter state, accumulated samples,
/// and whether the utterance is complete.
pub struct SegModel {
    pub state: SegmenterState,
    pub buffer: Seq<i16>,
    pub done: bool,
}

pub open spec fn seg_init() -> SegModel {
    SegModel { state: SegmenterState::WaitingForVoice, buffer: Seq::empty(), done: false }
}

/// One chunk of the abstract segmenter.  A completed capture absorbs no
/// further chunks.  The buffer reaching `max_samples` completes the
/// capture whatever the silence state.
pub open spec fn seg_step(
    m: SegModel,
    chunk: Seq<i16>,
    silence_threshold: usize,
    max_samples: usize,
) -> SegModel {
    if m.done {
        m
    } else {
        let voiced = spec_has_voice(chunk);
        let buffer2 = if spec_appends(m.state, voiced) {
            m.buffer + chunk
        } else {
            m.buffer
        };
        SegModel {
            state: spec_next_state(m.state, voiced, chunk.len() as usize),
            buffer: buffer2,
            done: spec_silence_done(m.state, voiced, chunk.len() as usize, silence_threshold)
                || buffer2.len() >= max_samples,
        }
    }
}

/// The abstract segmenter folded over a whole chunk sequence.
pub open spec fn seg_run(chunks: Seq<Seq<i16>>, silence_threshold: usize, max_samples: usize) -> SegModel
    decreases chunks.len(),
{
    if chunks.len() == 0 {
        seg_init()
    } else {
        seg_step(
            seg_run(chunks.drop_last(), silence_threshold, max_samples),
            chunks.last(),
            silence_threshold,
            max_samples,
        )
    }
}

/// When every chunk of the input is silent, the segmenter never leaves
/// `WaitingForVoice` and accumulates nothing, so the capture can only end
/// with no signal.
pub proof fn lemma_silent_input_never_records(
    chunks: Seq<Seq<i16>>,
    silence_threshold: usize,
    max_samples: usize,
)
    requires
        max_samples > 0,
        forall|i: int| 0 <= i < chunks.len() ==> !spec_has_voice(#[trigger] chunks[i]),
    ensures
        seg_run(chunks, silence_threshold, max_samples).state == SegmenterState::WaitingForVoice,
        seg_run(chunks, silence_threshold, max_samples).buffer.len() == 0,
        !seg_run(chunks, silence_threshold, max_samples).done,
    decreases chunks.len(),
{
    if chunks.len() > 0 {
        lemma_silent_input_never_records(chunks.drop_last(), silence_threshold, max_samples);
    }
}

/// One step never shrinks the buffer: the old buffer is a prefix of the
/// new one; and once voice has been heard, every chunk of an unfinished
/// capture is appended whole.
pub proof fn lemma_buffer_monotonic_step(
    m: SegModel,
    chunk: Seq<i16>,
    silence_threshold: usize,
    max_samples: usize,
)
    ensures
        m.buffer.is_prefix_of(seg_step(m, chunk, silence_threshold, max_samples).buffer),
        m.buffer.len() <= seg_step(m, chunk, silence_threshold, max_samples).buffer.len(),
        !m.done && !(m.state is WaitingForVoice) ==> seg_step(
            m,
            chunk,
            silence_threshold,
            max_samples,
        ).buffer == m.buffer + chunk,
{
    assert(m.buffer.is_prefix_of(m.buffer + chunk)) by {
        assert(m.buffer =~= (m.buffer + chunk).take(m.buffer.len() as int));
    }
    assert(m.buffer.is_prefix_of(m.buffer)) by {
        assert(m.buffer =~= m.buffer.take(m.buffer.len() as int));
    }
}

/// Over a whole run, the buffer after any prefix of the input is a prefix
/// of the final buffer: accumulation is monotonic until termination.
pub proof fn lemma_buffer_monotonic_run(
    chunks: Seq<Seq<i16>>,
    i: int,
    silence_threshold: usize,
    max_samples: usize,
)
    requires
        0 <= i <= chunks.len(),
    ensures
        seg_run(chunks.take(i), silence_threshold, max_samples).buffer.is_prefix_of(
            seg_run(chunks, silence_threshold, max_samples).buffer,
        ),
    decreases chunks.len() - i,
{
    if i == chunks.len() {
        assert(chunks.take(i) =~= chunks);
        let b = seg_run(chunks, silence_threshold, max_samples).buffer;
        assert(b =~= b.take(b.len() as int));
    } else {
        assert(chunks.take(i + 1).drop_last() =~= chunks.take(i));
        assert(chunks.take(i + 1).last() == chunks[i]);
        lemma_buffer_monotonic_step(
            seg_run(chunks.take(i), silence_threshold, max_samples),
            chunks[i],
            silence_threshold,
            max_samples,
        );
        lemma_buffer_monotonic_run(chunks, i + 1, silence_threshold, max_samples);
        lemma_prefix_transitive(
            seg_run(chunks.take(i), silence_threshold, max_samples).buffer,
            seg_run(chunks.take(i + 1), silence_threshold, max_samples).buffer,
            seg_run(chunks, silence_threshold, max_samples).buffer,
        );
    }
}

/// Prefix-of is transitive.
pub proof fn lemma_prefix_transitive(a: Seq<i16>, b: Seq<i16>, c: Seq<i16>)
    requires
        a.is_prefix_of(b),
        b.is_prefix_of(c),
    ensures
        a.is_prefix_of(c),
{
    assert(a =~= c.take(a.len() as int));
}

/// Reaching the duration cap completes the capture at once, in whatever
/// state the segmenter stands, and the buffer never exceeds the cap by
/// more than the final chunk.
pub proof fn lemma_cap_terminates(
    m: SegModel,
    chunk: Seq<i16>,
    silence_threshold: usize,
    max_samples: usize,
)
    requires
        !m.done,
        m.buffer.len() < max_samples,
    ensures
        seg_step(m, chunk, silence_threshold, max_samples).buffer.len() >= max_samples
            ==> seg_step(m, chunk, silence_threshold, max_samples).done,
        seg_step(m, chunk, silence_threshold, max_samples).buffer.len() < max_samples
            + chunk.len(),
{
}

/// The executable segmenter: the abstract model plus the configured
/// thresholds, holding the samples in a real vector.
pub struct Segmenter {
    pub state: SegmenterState,
    pub buffer: Vec<i16>,
    pub silence_threshold_samples: usize,
    pub max_duration_samples: usize,
    pub done: bool,
}

impl Segmenter {
    /// The abstract state this segmenter stands in.
    pub open spec fn model(self) -> SegModel {
        SegModel { state: self.state, buffer: self.buffer@, done: self.done }
    }

    /// Internal consistency: positive thresholds; an empty buffer exactly
    /// while waiting for voice; a silence count no larger than the
    /// buffer; an unfinished capture strictly under the cap; a finished
    /// one never empty.
    pub open spec fn wf(self) -> bool {
        &&& self.silence_threshold_samples > 0
        &&& self.max_duration_samples > 0
        &&& (self.state is WaitingForVoice <==> self.buffer@.len() == 0)
        &&& (self.state matches SegmenterState::SilenceDetected { silence_samples }
            ==> silence_samples <= self.buffer@.len())
        &&& (!self.done ==> self.buffer@.len() < self.max_duration_samples)
        &&& (self.done ==> self.buffer@.len() > 0)
    }

    pub fn new(silence_threshold_samples: usize, max_duration_samples: usize) -> (s: Segmenter)
        requires
            silence_threshold_samples > 0,
            max_duration_samples > 0,
        ensures
            s.wf(),
            s.model() == seg_init(),
            s.silence_threshold_samples == silence_threshold_samples,
            s.max_duration_samples == max_duration_samples,
    {
        let s = Segmenter {
            state: SegmenterState::WaitingForVoice,
            buffer: Vec::new(),
            silence_threshold_samples,
            max_duration_samples,
            done: false,
        };
        proof {
            assert(s.model() == seg_init());
        }
        s
    }

    /// Feeds one chunk; returns whether the utterance is now complete.
    /// The new state is exactly one abstract step of the old.
    pub fn push_chunk(&mut self, chunk: &Vec<i16>) -> (done: bool)
        requires
            old(self).wf(),
            !old(self).done,
        ensures
            final(self).wf(),
            final(self).silence_threshold_samples == old(self).silence_threshold_samples,
            final(self).max_duration_samples == old(self).max_duration_samples,
            final(self).model() == seg_step(
                old(self).model(),
                chunk@,
                old(self).silence_threshold_samples,
                old(self).max_duration_samples,
            ),
            done == final(self).done,
    {
        let voiced = chunk_has_voice(chunk);

        let appends = match self.state {
            SegmenterState::WaitingForVoice => voiced,
            _ => true,
        };
        if appends {
            push_all(&mut self.buffer, chunk);
        }
        let buffered = self.buffer.len();

        let mut silence_finished = false;
        self.state = match self.state {
            SegmenterState::WaitingForVoice => if voiced {
                SegmenterState::Recording
            } else {
                SegmenterState::WaitingForVoice
            },
            SegmenterState::Recording => if voiced {
                SegmenterState::Recording
            } else {
                SegmenterState::SilenceDetected { silence_samples: chunk.len() }
            },
            SegmenterState::SilenceDetected { silence_samples } => if voiced {
                SegmenterState::Recording
            } else {
                let extended = silence_samples + chunk.len();
                if extended >= self.silence_threshold_samples {
                    silence_finished = true;
                }
                SegmenterState::SilenceDetected { silence_samples: extended }
            },
        };

        if silence_finished || buffered >= self.max_duration_samples {
            self.done = true;
        }
        self.done
    }
}

} // verus!
