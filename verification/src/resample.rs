//! The resampling plan for a finished utterance.
//!
//! Rate conversion itself is the work of an outside frequency-domain
//! resampler that consumes fixed-size input frames and yields fixed-size
//! output frames.  Everything around that call is decided and verified
//! here: the split of the captured segment into frames, the zero-padding
//! of the final partial frame, and the truncation of the collected output
//! to exactly `input_len * to_rate / from_rate` samples, which strips any
//! padding-induced excess.  When the two rates are equal the segment is
//! handed back unchanged, without any processing.
//!
//! The driver alternates `next_frame` (take one padded frame), the
//! outside conversion, and `push_output` (return its output), then calls
//! `finish`.

use vstd::prelude::*;

use crate::samples::push_all;

verus! {

/// The contents of one input frame: the samples of `input` from `pos` on,
/// zero-padded at the tail to exactly `frame_in` samples.
pub open spec fn spec_padded_frame(input: Seq<i16>, pos: int, frame_in: int) -> Seq<i16> {
    let end = if pos + frame_in <= input.len() {
        pos + frame_in
    } else {
        input.len() as int
    };
    input.subrange(pos, end) + Seq::new((frame_in - (end - pos)) as nat, |i: int| 0i16)
}

pub struct ResampleSession {
    pub input: Vec<i16>,
    pub from_rate: u32,
    pub to_rate: u32,
    pub frame_in: usize,
    pub frame_out: usize,
    /// Samples of `input` handed out so far, counted with padding,
    /// so always a whole number of frames.
    pub pos: usize,
    /// Frames handed out / frame outputs returned.
    pub frames_given: usize,
    pub frames_done: usize,
    pub collected: Vec<i16>,
}

impl ResampleSession {
    pub open spec fn same_rate(self) -> bool {
        self.from_rate == self.to_rate
    }

    /// A frame has been handed out whose output has not come back yet.
    pub open spec fn awaiting_output(self) -> bool {
        self.frames_done != self.frames_given
    }

    /// How many samples the finished conversion must hold.
    pub open spec fn expected_output_len(self) -> int {
        if self.same_rate() {
            self.input@.len() as int
        } else {
            self.input@.len() * self.to_rate / (self.from_rate as int)
        }
    }

    pub open spec fn wf(self) -> bool {
        &&& self.from_rate > 0
        &&& self.to_rate > 0
        &&& (!self.same_rate() ==> {
            &&& self.frame_in > 0
            &&& self.frame_out > 0
            &&& self.frame_out * self.from_rate == self.frame_in * self.to_rate
            &&& self.input@.len() * self.to_rate / (self.from_rate as int) <= usize::MAX
            &&& self.input@.len() + self.frame_in <= usize::MAX
        })
        &&& self.frames_done <= self.frames_given <= self.frames_done + 1
        &&& self.pos == self.frames_given * self.frame_in
        &&& self.collected@.len() == self.frames_done * self.frame_out
        &&& (self.frames_given > 0 ==> self.pos < self.input@.len() + self.frame_in)
    }

    /// All frames are out and all outputs are back.
    pub open spec fn conversion_complete(self) -> bool {
        self.same_rate() || (self.pos >= self.input@.len() && !self.awaiting_output())
    }

    pub fn new(input: Vec<i16>, from_rate: u32, to_rate: u32, frame_in: usize, frame_out: usize) -> (s:
        ResampleSession)
        requires
            from_rate > 0,
            to_rate > 0,
            from_rate != to_rate ==> {
                &&& frame_in > 0
                &&& frame_out > 0
                &&& frame_out * from_rate == frame_in * to_rate
                &&& input@.len() * to_rate / (from_rate as int) <= usize::MAX
                &&& input@.len() + frame_in <= usize::MAX
            },
        ensures
            s.wf(),
            s.input@ == input@,
            s.from_rate == from_rate,
            s.to_rate == to_rate,
            s.frame_in == frame_in,
            s.frame_out == frame_out,
            s.collected@.len() == 0,
            s.conversion_complete() <==> (from_rate == to_rate || input@.len() == 0),
    {
        ResampleSession {
            input,
            from_rate,
            to_rate,
            frame_in,
            frame_out,
            pos: 0,
            frames_given: 0,
            frames_done: 0,
            collected: Vec::new(),
        }
    }

    /// Hands out the next input frame, zero-padded to the frame size, or
    /// nothing when the whole segment has been handed out.
    pub fn next_frame(&mut self) -> (frame: Option<Vec<i16>>)
        requires
            old(self).wf(),
            !old(self).same_rate(),
            !old(self).awaiting_output(),
        ensures
            final(self).wf(),
            final(self).input@ == old(self).input@,
            final(self).from_rate == old(self).from_rate,
            final(self).to_rate == old(self).to_rate,
            final(self).frame_in == old(self).frame_in,
            final(self).frame_out == old(self).frame_out,
            final(self).collected@ == old(self).collected@,
            old(self).pos >= old(self).input@.len() ==> frame is None && *final(self)
                == *old(self),
            old(self).pos < old(self).input@.len() ==> {
                &&& frame matches Some(f) && f@ == spec_padded_frame(
                    old(self).input@,
                    old(self).pos as int,
                    old(self).frame_in as int,
                )
                &&& final(self).pos == old(self).pos + old(self).frame_in
                &&& final(self).awaiting_output()
            },
    {
        if self.pos >= self.input.len() {
            return None;
        }
        let remaining: usize = self.input.len() - self.pos;
        let end: usize = if remaining >= self.frame_in {
            self.pos + self.frame_in
        } else {
            self.input.len()
        };
        let mut frame: Vec<i16> = Vec::new();
        let mut i: usize = self.pos;
        while i < end
            invariant
                self.pos <= i <= end <= self.input@.len(),
                frame@ == self.input@.subrange(self.pos as int, i as int),
            decreases end - i,
        {
            frame.push(self.input[i]);
            proof {
                assert(self.input@.subrange(self.pos as int, i + 1 as int) =~= self.input@.subrange(
                    self.pos as int,
                    i as int,
                ).push(self.input@[i as int]));
            }
            i = i + 1;
        }
        while frame.len() < self.frame_in
            invariant
                self.pos <= end <= self.input@.len(),
                end - self.pos <= self.frame_in,
                end - self.pos <= frame@.len() <= self.frame_in,
                frame@ == self.input@.subrange(self.pos as int, end as int) + Seq::new(
                    (frame@.len() - (end - self.pos)) as nat,
                    |j: int| 0i16,
                ),
            decreases self.frame_in - frame@.len(),
        {
            frame.push(0i16);
            proof {
                assert(frame@ =~= self.input@.subrange(self.pos as int, end as int) + Seq::new(
                    (frame@.len() - (end - self.pos)) as nat,
                    |j: int| 0i16,
                ));
            }
        }
        proof {
            assert(frame@ =~= spec_padded_frame(
                self.input@,
                self.pos as int,
                self.frame_in as int,
            ));
            assert((self.frames_given + 1) * self.frame_in == self.frames_given * self.frame_in
                + self.frame_in) by (nonlinear_arith);
            assert(self.frames_given + 1 <= usize::MAX) by (nonlinear_arith)
                requires
                    (self.frames_given + 1) * self.frame_in <= usize::MAX,
                    self.frame_in >= 1,
                    self.frames_given >= 0,
            ;
        }
        self.pos = self.pos + self.frame_in;
        self.frames_given = self.frames_given + 1;
        Some(frame)
    }

    /// Takes back the conversion of the frame last handed out.
    pub fn push_output(&mut self, out: &Vec<i16>)
        requires
            old(self).wf(),
            !old(self).same_rate(),
            old(self).awaiting_output(),
            out@.len() == old(self).frame_out,
        ensures
            final(self).wf(),
            final(self).input@ == old(self).input@,
            final(self).from_rate == old(self).from_rate,
            final(self).to_rate == old(self).to_rate,
            final(self).frame_in == old(self).frame_in,
            final(self).frame_out == old(self).frame_out,
            final(self).pos == old(self).pos,
            final(self).collected@ == old(self).collected@ + out@,
            !final(self).awaiting_output(),
    {
        proof {
            assert((self.frames_done + 1) * self.frame_out == self.frames_done * self.frame_out
                + self.frame_out) by (nonlinear_arith);
        }
        push_all(&mut self.collected, out);
        self.frames_done = self.frames_done + 1;
    }

    /// Completes the conversion.  With equal rates the segment comes back
    /// unchanged; otherwise the collected output is cut to exactly
    /// `input_len * to_rate / from_rate` samples.
    pub fn finish(self) -> (out: Vec<i16>)
        requires
            self.wf(),
            self.conversion_complete(),
        ensures
            self.same_rate() ==> out@ == self.input@,
            !self.same_rate() ==> out@.len() == self.expected_output_len(),
    {
        if self.from_rate == self.to_rate {
            return self.input;
        }
        let len_wide: u128 = self.input.len() as u128;
        proof {
            assert((len_wide as int) * (self.to_rate as int) <= 0xffff_ffff_ffff_ffff
                * 0xffff_ffff) by (nonlinear_arith)
                requires
                    len_wide <= 0xffff_ffff_ffff_ffff,
                    self.to_rate <= 0xffff_ffff,
            ;
        }
        let expected_wide: u128 = len_wide * (self.to_rate as u128) / (self.from_rate as u128);
        proof {
            let n = self.input@.len() as int;
            let give = self.frames_given as int;
            let fi = self.frame_in as int;
            let fo = self.frame_out as int;
            let fr = self.from_rate as int;
            let to = self.to_rate as int;
            assert(give * fi >= n);
            // collected length in terms of frames
            assert(self.collected@.len() == give * fo);
            // give * fo * fr == give * fi * to >= n * to
            assert(give * fo * fr == give * (fo * fr)) by (nonlinear_arith);
            assert(give * (fo * fr) == give * (fi * to)) by (nonlinear_arith)
                requires
                    fo * fr == fi * to,
            ;
            assert(give * (fi * to) == (give * fi) * to) by (nonlinear_arith);
            assert((give * fi) * to >= n * to) by (nonlinear_arith)
                requires
                    give * fi >= n,
                    to > 0,
            ;
            // a * fr >= b implies a >= b / fr for positive fr
            assert(give * fo >= (n * to) / fr) by (nonlinear_arith)
                requires
                    (give * fo) * fr >= n * to,
                    fr > 0,
                    give * fo >= 0,
            ;
            assert(expected_wide == (n * to) / fr);
        }
        let expected: usize = expected_wide as usize;
        let mut collected = self.collected;
        collected.truncate(expected);
        collected
    }
}

} // verus!
