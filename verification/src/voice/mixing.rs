//! Mixdown of the speakers of one tick into a single channel.
//!
//! Every position of the mix is the mean of what the speakers contribute at
//! that position, a speaker that has run out of samples contributing zero. The
//! mean is taken once, over the exact sum, and rounded toward zero.

use vstd::prelude::*;

verus! {

/// The per-speaker sample sequences that a tick holds.
pub open spec fn sources_view(sources: &Vec<Vec<i16>>) -> Seq<Seq<i16>> {
    Seq::new(sources@.len(), |speaker: int| sources@[speaker]@)
}

/// What a speaker contributes at a position: its sample, or zero past its end.
pub open spec fn sample_or_zero(source: Seq<i16>, position: int) -> int {
    if 0 <= position < source.len() {
        source[position] as int
    } else {
        0
    }
}

/// Exact sum of all speakers' contributions at a position.
pub open spec fn sum_at(sources: Seq<Seq<i16>>, position: int) -> int
    decreases sources.len(),
{
    if sources.len() == 0 {
        0
    } else {
        sum_at(sources.drop_last(), position) + sample_or_zero(sources.last(), position)
    }
}

/// Length of the longest speaker sequence; zero without speakers.
pub open spec fn longest(sources: Seq<Seq<i16>>) -> nat
    decreases sources.len(),
{
    if sources.len() == 0 {
        0
    } else if sources.last().len() > longest(sources.drop_last()) {
        sources.last().len()
    } else {
        longest(sources.drop_last())
    }
}

/// Integer quotient rounded toward zero, for a positive divisor.
pub open spec fn quotient_toward_zero(total: int, count: int) -> int {
    if total >= 0 {
        total / count
    } else {
        -((-total) / count)
    }
}

/// The mixed sample at a position: the speakers' sum over their number.
pub open spec fn mixed_sample(sources: Seq<Seq<i16>>, position: int) -> int {
    quotient_toward_zero(sum_at(sources, position), sources.len() as int)
}

/// The mix of a set of speakers: as long as the longest of them, empty when
/// there is none.
pub open spec fn mixed(sources: Seq<Seq<i16>>) -> Seq<i16> {
    Seq::new(longest(sources), |position: int| mixed_sample(sources, position) as i16)
}

/// The sum at a position stays within what that many 16-bit samples can reach.
pub proof fn lemma_sum_at_bounds(sources: Seq<Seq<i16>>, position: int)
    ensures
        -32768 * sources.len() <= sum_at(sources, position) <= 32767 * sources.len(),
    decreases sources.len(),
{
    if sources.len() > 0 {
        lemma_sum_at_bounds(sources.drop_last(), position);
    }
}

/// A mean of 16-bit samples, rounded toward zero, is a 16-bit sample again.
pub proof fn lemma_mixed_sample_fits(sources: Seq<Seq<i16>>, position: int)
    requires
        sources.len() > 0,
    ensures
        -32768 <= mixed_sample(sources, position) <= 32767,
{
    lemma_sum_at_bounds(sources, position);
    let total = sum_at(sources, position);
    let count = sources.len() as int;
    if total >= 0 {
        assert(0 <= total / count <= 32767) by (nonlinear_arith)
            requires
                count > 0,
                0 <= total <= 32767 * count,
        ;
    } else {
        assert(0 <= (-total) / count <= 32768) by (nonlinear_arith)
            requires
                count > 0,
                0 <= -total <= 32768 * count,
        ;
    }
}

/// Mixing law: wherever rounding toward zero and rounding down agree, that is
/// where the sum is not negative or the number of speakers divides it, the
/// mixed sample is the floor of the speakers' sum over their number.
pub proof fn lemma_mixed_sample_is_floor_of_mean(sources: Seq<Seq<i16>>, position: int)
    requires
        sources.len() > 0,
        0 <= position < longest(sources),
        sum_at(sources, position) >= 0 || sum_at(sources, position) % (sources.len() as int) == 0,
    ensures
        mixed(sources)[position] as int == sum_at(sources, position) / (sources.len() as int),
{
    lemma_mixed_sample_fits(sources, position);
    let total = sum_at(sources, position);
    let count = sources.len() as int;
    if total < 0 {
        assert(-((-total) / count) == total / count) by (nonlinear_arith)
            requires
                count > 0,
                total % count == 0,
        ;
    }
}

/// A single speaker is mixed to itself.
pub proof fn lemma_single_speaker_is_unchanged(source: Seq<i16>)
    ensures
        mixed(seq![source]) == source,
{
    let sources = seq![source];
    assert(sources.drop_last() =~= Seq::<Seq<i16>>::empty());
    assert(longest(sources.drop_last()) == 0);
    assert(sources.last() == source);
    assert(longest(sources) == source.len());
    assert forall|position: int| 0 <= position < source.len() implies mixed(sources)[position]
        == source[position] by {
        assert(sum_at(sources.drop_last(), position) == 0);
        assert(sum_at(sources, position) == source[position] as int);
    }
    assert(mixed(sources) =~= source);
}

fn longest_source(sources: &Vec<Vec<i16>>) -> (length: usize)
    ensures
        length == longest(sources_view(sources)),
{
    let ghost all = sources_view(sources);
    let mut length: usize = 0;
    let mut speaker: usize = 0;
    while speaker < sources.len()
        invariant
            speaker <= sources.len(),
            all == sources_view(sources),
            length == longest(all.take(speaker as int)),
        decreases sources.len() - speaker,
    {
        proof {
            assert(all.take(speaker + 1).drop_last() =~= all.take(speaker as int));
        }
        if sources[speaker].len() > length {
            length = sources[speaker].len();
        }
        speaker += 1;
    }
    proof {
        assert(all.take(speaker as int) =~= all);
    }
    length
}

fn sum_at_position(sources: &Vec<Vec<i16>>, position: usize) -> (total: i128)
    ensures
        total == sum_at(sources_view(sources), position as int),
{
    let ghost all = sources_view(sources);
    let mut total: i128 = 0;
    let mut speaker: usize = 0;
    while speaker < sources.len()
        invariant
            speaker <= sources.len(),
            all == sources_view(sources),
            total == sum_at(all.take(speaker as int), position as int),
        decreases sources.len() - speaker,
    {
        proof {
            assert(all.take(speaker + 1).drop_last() =~= all.take(speaker as int));
            lemma_sum_at_bounds(all.take(speaker as int), position as int);
        }
        let source = &sources[speaker];
        if position < source.len() {
            total = total + source[position] as i128;
        }
        speaker += 1;
    }
    proof {
        assert(all.take(speaker as int) =~= all);
    }
    total
}

/// Mixes the speakers of one tick into a single channel.
pub fn mix_audio_sources(sources: &Vec<Vec<i16>>) -> (mixed_samples: Vec<i16>)
    ensures
        mixed_samples@ == mixed(sources_view(sources)),
{
    let ghost all = sources_view(sources);
    let source_count = sources.len();
    let length = longest_source(sources);
    let mut mixed_samples: Vec<i16> = Vec::new();
    let mut position: usize = 0;
    while position < length
        invariant
            position <= length,
            length == longest(all),
            all == sources_view(sources),
            source_count == sources.len(),
            mixed_samples@ == mixed(all).take(position as int),
        decreases length - position,
    {
        proof {
            lemma_mixed_sample_fits(all, position as int);
        }
        let total = sum_at_position(sources, position);
        let sample = (total / (source_count as i128)) as i16;
        mixed_samples.push(sample);
        proof {
            assert(mixed_samples@ =~= mixed(all).take(position + 1));
        }
        position += 1;
    }
    proof {
        assert(mixed(all).take(position as int) =~= mixed(all));
    }
    mixed_samples
}

} // verus!
