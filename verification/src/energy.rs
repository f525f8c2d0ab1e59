//! Energy classification of audio chunks.
//!
//! A chunk is "voiced" when its root-mean-square amplitude exceeds a fixed
//! empirical threshold of 1/100 of full scale.  Samples are 16-bit PCM, so
//! full scale squared is `0x4000_0000`, and the comparison
//! `rms > full_scale / 100` is carried out exactly on integers as
//! `10000 * sum_of_squares > 0x4000_0000 * len`.

use vstd::prelude::*;

verus! {

/// The square of one sample, as a mathematical integer.
pub open spec fn sample_sq(x: i16) -> int {
    (x as int) * (x as int)
}

/// Sum of the squared samples of a chunk.
pub open spec fn sum_squares(s: Seq<i16>) -> int
    decreases s.len(),
{
    if s.len() == 0 {
        0
    } else {
        sum_squares(s.drop_last()) + sample_sq(s.last())
    }
}

/// A chunk is voiced when its RMS amplitude exceeds 1/100 of full scale.
/// An empty chunk has zero energy and is never voiced.
pub open spec fn spec_has_voice(s: Seq<i16>) -> bool {
    10000 * sum_squares(s) > 0x4000_0000 * s.len()
}

/// Each sample's square lies in `[0, 0x4000_0000]`.
pub proof fn lemma_sample_sq_bounds(x: i16)
    ensures
        0 <= sample_sq(x) <= 0x4000_0000,
{
    assert(0 <= (x as int) * (x as int) <= 0x4000_0000) by (nonlinear_arith)
        requires
            -0x8000 <= x as int <= 0x7fff,
    ;
}

/// The sum of squares of a chunk lies in `[0, len * 0x4000_0000]`.
pub proof fn lemma_sum_squares_bounds(s: Seq<i16>)
    ensures
        0 <= sum_squares(s) <= s.len() * 0x4000_0000,
    decreases s.len(),
{
    if s.len() == 0 {
    } else {
        lemma_sum_squares_bounds(s.drop_last());
        lemma_sample_sq_bounds(s.last());
    }
}

/// Decides whether a chunk is voiced, exactly as `spec_has_voice` states.
pub fn chunk_has_voice(chunk: &Vec<i16>) -> (voiced: bool)
    ensures
        voiced == spec_has_voice(chunk@),
{
    let mut sum: u128 = 0;
    let mut i: usize = 0;
    while i < chunk.len()
        invariant
            i <= chunk@.len(),
            sum == sum_squares(chunk@.take(i as int)),
            sum <= (i as int) * 0x4000_0000,
        decreases chunk@.len() - i,
    {
        let x: i64 = chunk[i] as i64;
        proof {
            lemma_sample_sq_bounds(chunk@[i as int]);
        }
        let x_sq: i64 = x * x;
        proof {
            assert(chunk@.take(i + 1 as int).drop_last() =~= chunk@.take(i as int));
            assert(chunk@.take(i + 1 as int).last() == chunk@[i as int]);
            assert((i as int) * 0x4000_0000 + 0x4000_0000 == (i + 1 as int) * 0x4000_0000)
                by (nonlinear_arith);
            lemma_sum_squares_bounds(chunk@.take(i + 1 as int));
        }
        sum = sum + (x_sq as u128);
        i = i + 1;
    }
    proof {
        assert(chunk@.take(chunk@.len() as int) =~= chunk@);
        assert(sum <= (chunk@.len() as int) * 0x4000_0000);
        assert(10000 * sum <= 10000 * ((chunk@.len() as int) * 0x4000_0000)) by (nonlinear_arith)
            requires
                sum <= (chunk@.len() as int) * 0x4000_0000,
        ;
    }
    10000 * sum > 0x4000_0000 * (chunk.len() as u128)
}

} // verus!
