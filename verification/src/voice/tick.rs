//! One tick of audio: what it adds to a session's history, and whether it
//! counts as silence.
//!
//! A tick is the list of its speakers' sample sequences. A tick without
//! speakers stands for continued silence.

use super::mixing::mixed;
use super::buffer::silence;
use super::{SILENCE_SAMPLE_THRESHOLD, TICK_SAMPLE_COUNT};
use vstd::prelude::*;

verus! {

/// Absolute value of a sample.
pub open spec fn magnitude(sample: i16) -> int {
    if sample >= 0 {
        sample as int
    } else {
        -(sample as int)
    }
}

/// Whether no sample of a run rises above the silence threshold.
pub open spec fn is_quiet(samples: Seq<i16>) -> bool {
    forall|position: int|
        0 <= position < samples.len() ==> magnitude(#[trigger] samples[position])
            <= SILENCE_SAMPLE_THRESHOLD
}

/// The samples a tick adds to the history: the mix of its speakers, or a
/// tick's worth of zeros if nobody speaks.
pub open spec fn tick_samples(sources: Seq<Seq<i16>>) -> Seq<i16> {
    if sources.len() == 0 {
        silence(TICK_SAMPLE_COUNT as nat)
    } else {
        mixed(sources)
    }
}

/// Whether a tick is silent: it has no speakers, or its mix is quiet.
pub open spec fn tick_is_silent(sources: Seq<Seq<i16>>) -> bool {
    sources.len() == 0 || is_quiet(mixed(sources))
}

/// A silent tick adds nothing but quiet samples.
pub proof fn lemma_silent_tick_is_quiet(sources: Seq<Seq<i16>>)
    ensures
        tick_is_silent(sources) <==> is_quiet(tick_samples(sources)),
{
}

/// Whether no sample of a run rises above the silence threshold.
pub fn samples_are_quiet(samples: &Vec<i16>) -> (quiet: bool)
    ensures
        quiet == is_quiet(samples@),
{
    let mut position: usize = 0;
    while position < samples.len()
        invariant
            position <= samples.len(),
            is_quiet(samples@.take(position as int)),
        decreases samples.len() - position,
    {
        let sample = samples[position];
        if sample > SILENCE_SAMPLE_THRESHOLD || sample < -SILENCE_SAMPLE_THRESHOLD {
            assert(magnitude(samples@[position as int]) > SILENCE_SAMPLE_THRESHOLD);
            return false;
        }
        proof {
            let longer = samples@.take(position + 1);
            assert forall|earlier: int| 0 <= earlier < longer.len() implies magnitude(
                #[trigger] longer[earlier],
            ) <= SILENCE_SAMPLE_THRESHOLD by {
                if earlier < position {
                    assert(samples@.take(position as int)[earlier] == longer[earlier]);
                }
            }
        }
        position += 1;
    }
    proof {
        assert(samples@.take(position as int) =~= samples@);
    }
    true
}

} // verus!
