//! What a run of ticks does to a session, from one segmentation to the next.

use super::buffer::{lemma_appended_twice, most_recent};
use super::session::{
    after_tick, kept_length, lemma_after_tick_wf, segment_at, segment_of, tick_fires,
    trailing_silence_at, SessionView,
};
use super::tick::{tick_is_silent, tick_samples};
use super::{BUFFER_CAPACITY, SILENCE_SEPARATOR_SAMPLE_COUNT};
use vstd::prelude::*;

verus! {

/// The session after a run of ticks, taken in one after the other.
pub open spec fn after_ticks(session: SessionView, ticks: Seq<Seq<Seq<i16>>>) -> SessionView
    decreases ticks.len(),
{
    if ticks.len() == 0 {
        session
    } else {
        after_tick(after_ticks(session, ticks.drop_last()), ticks.last())
    }
}

/// Whether no tick of a run ends an utterance of the session that takes the
/// run in.
pub open spec fn none_fires(session: SessionView, ticks: Seq<Seq<Seq<i16>>>) -> bool
    decreases ticks.len(),
{
    ticks.len() > 0 ==> {
        &&& none_fires(session, ticks.drop_last())
        &&& !tick_fires(after_ticks(session, ticks.drop_last()), ticks.last())
    }
}

/// All the samples that a run of ticks adds to a history, in order.
pub open spec fn samples_of(ticks: Seq<Seq<Seq<i16>>>) -> Seq<i16>
    decreases ticks.len(),
{
    if ticks.len() == 0 {
        Seq::empty()
    } else {
        samples_of(ticks.drop_last()) + tick_samples(ticks.last())
    }
}

/// Number of samples in the silent ticks that close a run: the cumulative
/// silence since the last voiced tick.
pub open spec fn closing_silence_of(ticks: Seq<Seq<Seq<i16>>>) -> nat
    decreases ticks.len(),
{
    if ticks.len() == 0 {
        0
    } else if tick_is_silent(ticks.last()) {
        closing_silence_of(ticks.drop_last()) + tick_samples(ticks.last()).len()
    } else {
        0
    }
}

/// Bounded memory: whatever ticks a session takes in, its history never
/// holds more than `BUFFER_CAPACITY` samples, and its silent run never rests
/// beyond the separator length.
pub proof fn lemma_bounded_memory(session: SessionView, ticks: Seq<Seq<Seq<i16>>>)
    requires
        session.wf(),
    ensures
        after_ticks(session, ticks).wf(),
        after_ticks(session, ticks).samples.len() <= BUFFER_CAPACITY,
    decreases ticks.len(),
{
    if ticks.len() > 0 {
        lemma_bounded_memory(session, ticks.drop_last());
        lemma_after_tick_wf(after_ticks(session, ticks.drop_last()), ticks.last());
    }
}

/// Between two segmentations a session holds the most recent
/// `BUFFER_CAPACITY` of all the samples it has received since the first, and
/// its silent run is the silence that closes what it has received.
pub proof fn lemma_history_between_segmentations(ticks: Seq<Seq<Seq<i16>>>)
    requires
        none_fires(SessionView::fresh(), ticks),
    ensures
        after_ticks(SessionView::fresh(), ticks).samples == most_recent(
            samples_of(ticks),
            BUFFER_CAPACITY as nat,
        ),
        after_ticks(SessionView::fresh(), ticks).silent_run == closing_silence_of(ticks),
    decreases ticks.len(),
{
    if ticks.len() > 0 {
        lemma_history_between_segmentations(ticks.drop_last());
        lemma_appended_twice(
            Seq::empty(),
            BUFFER_CAPACITY as nat,
            samples_of(ticks.drop_last()),
            tick_samples(ticks.last()),
        );
        assert(Seq::<i16>::empty() + samples_of(ticks.drop_last()) =~= samples_of(
            ticks.drop_last(),
        ));
        assert(Seq::<i16>::empty() + samples_of(ticks) =~= samples_of(ticks));
    }
}

/// Segmentation trigger: after a run of ticks since the last segmentation,
/// the next tick ends the utterance if and only if the cumulative silence,
/// that tick included, strictly exceeds the separator length; and right
/// after it has, the silent run is zero.
pub proof fn lemma_segmentation_trigger(ticks: Seq<Seq<Seq<i16>>>, last: Seq<Seq<i16>>)
    requires
        none_fires(SessionView::fresh(), ticks),
    ensures
        tick_fires(after_ticks(SessionView::fresh(), ticks), last) <==> closing_silence_of(
            ticks.push(last),
        ) > SILENCE_SEPARATOR_SAMPLE_COUNT,
        tick_fires(after_ticks(SessionView::fresh(), ticks), last) ==> after_ticks(
            SessionView::fresh(),
            ticks.push(last),
        ).silent_run == 0,
        tick_fires(after_ticks(SessionView::fresh(), ticks), last) ==> trailing_silence_at(
            after_ticks(SessionView::fresh(), ticks),
            last,
        ) == closing_silence_of(ticks.push(last)),
{
    lemma_history_between_segmentations(ticks);
    assert(ticks.push(last).drop_last() =~= ticks);
}

/// Segment length: the segment that a tick cuts off holds the samples
/// received since the last segmentation, at most `BUFFER_CAPACITY` of them,
/// less the silence that closes them, and never fewer than none.
pub proof fn lemma_segment_length(ticks: Seq<Seq<Seq<i16>>>, last: Seq<Seq<i16>>)
    requires
        none_fires(SessionView::fresh(), ticks),
        tick_fires(after_ticks(SessionView::fresh(), ticks), last),
    ensures
        segment_at(after_ticks(SessionView::fresh(), ticks), last) == Some(
            segment_of(
                most_recent(samples_of(ticks.push(last)), BUFFER_CAPACITY as nat),
                closing_silence_of(ticks.push(last)),
            ),
        ),
        segment_at(after_ticks(SessionView::fresh(), ticks), last).unwrap().len() == kept_length(
            if samples_of(ticks.push(last)).len() <= BUFFER_CAPACITY {
                samples_of(ticks.push(last)).len()
            } else {
                BUFFER_CAPACITY as nat
            },
            closing_silence_of(ticks.push(last)),
        ),
{
    lemma_history_between_segmentations(ticks);
    lemma_segmentation_trigger(ticks, last);
    assert(ticks.push(last).drop_last() =~= ticks);
    lemma_appended_twice(
        Seq::empty(),
        BUFFER_CAPACITY as nat,
        samples_of(ticks),
        tick_samples(last),
    );
    assert(Seq::<i16>::empty() + samples_of(ticks) =~= samples_of(ticks));
    assert(Seq::<i16>::empty() + samples_of(ticks.push(last)) =~= samples_of(ticks.push(last)));
}

} // verus!
