//! One session: its bounded history, its silence tracker, and the step that a
//! tick makes them take.

use super::buffer::{appended, lemma_appended_len, SessionBuffer};
use super::mixing::{mix_audio_sources, sources_view};
use super::silence::{fires, run_after, Segmentation, SilenceTracker};
use super::tick::{samples_are_quiet, tick_is_silent, tick_samples};
use super::{BUFFER_CAPACITY, SILENCE_SEPARATOR_SAMPLE_COUNT, TICK_SAMPLE_COUNT};
use vstd::prelude::*;

verus! {

/// What a session is, mathematically: the samples it holds, oldest first, and
/// the length of its current silent run.
pub struct SessionView {
    pub samples: Seq<i16>,
    pub silent_run: nat,
}

impl SessionView {
    /// A session that has not received anything since it was created or since
    /// its last segmentation.
    pub open spec fn fresh() -> SessionView {
        SessionView { samples: Seq::empty(), silent_run: 0 }
    }

    /// The bounds that every session keeps: the history within its capacity,
    /// the silent run within the separator length.
    pub open spec fn wf(self) -> bool {
        &&& self.samples.len() <= BUFFER_CAPACITY
        &&& self.silent_run <= SILENCE_SEPARATOR_SAMPLE_COUNT
    }
}

/// Number of samples of a history of `length` samples that a segment keeps
/// when the most recent `trailing_silence` are left out: never below zero.
pub open spec fn kept_length(length: nat, trailing_silence: nat) -> nat {
    if trailing_silence >= length {
        0
    } else {
        (length - trailing_silence) as nat
    }
}

/// The segment cut from a history: the history in chronological order without
/// its most recent `trailing_silence` samples.
pub open spec fn segment_of(samples: Seq<i16>, trailing_silence: nat) -> Seq<i16> {
    samples.take(kept_length(samples.len(), trailing_silence) as int)
}

/// The history once a tick has been appended to it.
pub open spec fn history_with_tick(session: SessionView, sources: Seq<Seq<i16>>) -> Seq<i16> {
    appended(session.samples, BUFFER_CAPACITY as nat, tick_samples(sources))
}

/// Whether a tick ends the session's utterance.
pub open spec fn tick_fires(session: SessionView, sources: Seq<Seq<i16>>) -> bool {
    fires(session.silent_run, tick_is_silent(sources), tick_samples(sources).len())
}

/// The silent run that a firing tick closes, the tick included.
pub open spec fn trailing_silence_at(session: SessionView, sources: Seq<Seq<i16>>) -> nat {
    session.silent_run + tick_samples(sources).len()
}

/// The session after a tick. A tick that ends the utterance leaves an empty
/// history and no silent run; any other tick leaves the history with the tick
/// appended and the silent run that the tracker keeps.
pub open spec fn after_tick(session: SessionView, sources: Seq<Seq<i16>>) -> SessionView {
    if tick_fires(session, sources) {
        SessionView::fresh()
    } else {
        SessionView {
            samples: history_with_tick(session, sources),
            silent_run: run_after(
                session.silent_run,
                tick_is_silent(sources),
                tick_samples(sources).len(),
            ),
        }
    }
}

/// The segment that a tick cuts off, if it ends the utterance: the history
/// with the tick appended, less the silent run that the tick closes.
pub open spec fn segment_at(session: SessionView, sources: Seq<Seq<i16>>) -> Option<Seq<i16>> {
    if tick_fires(session, sources) {
        Some(segment_of(history_with_tick(session, sources), trailing_silence_at(session, sources)))
    } else {
        None
    }
}

/// The samples of a segment, if there is one.
pub open spec fn segment_view(segment: Option<Vec<i16>>) -> Option<Seq<i16>> {
    match segment {
        Some(samples) => Some(samples@),
        None => None,
    }
}

/// A tick keeps a session within its bounds.
pub proof fn lemma_after_tick_wf(session: SessionView, sources: Seq<Seq<i16>>)
    requires
        session.wf(),
    ensures
        after_tick(session, sources).wf(),
{
    lemma_appended_len(session.samples, BUFFER_CAPACITY as nat, tick_samples(sources));
}

/// The state of one voice connection: the recent audio and the silence
/// tracker that decides where its utterances end.
pub struct Session {
    buffer: SessionBuffer,
    silence: SilenceTracker,
}

impl View for Session {
    type V = SessionView;

    closed spec fn view(&self) -> SessionView {
        SessionView { samples: self.buffer@, silent_run: self.silence@ }
    }
}

impl Session {
    #[verifier::type_invariant]
    spec fn holds_full_capacity(&self) -> bool {
        self.buffer.spec_capacity() == BUFFER_CAPACITY
    }

    /// A session that has received nothing yet.
    pub fn new() -> (session: Self)
        ensures
            session@ == SessionView::fresh(),
    {
        Session { buffer: SessionBuffer::with_capacity(BUFFER_CAPACITY), silence: SilenceTracker::new() }
    }

    /// Number of samples in the history, which never exceeds the capacity.
    pub fn buffered_len(&self) -> (length: usize)
        ensures
            length == self@.samples.len(),
            length <= BUFFER_CAPACITY,
    {
        proof {
            use_type_invariant(self);
        }
        self.buffer.len()
    }

    /// Length of the current silent run, which at rest never exceeds the
    /// separator length.
    pub fn silent_run(&self) -> (silent_run: usize)
        ensures
            silent_run == self@.silent_run,
            silent_run <= SILENCE_SEPARATOR_SAMPLE_COUNT,
    {
        self.silence.silent_run()
    }

    /// Cuts the current utterance out of the history and empties the history
    /// for the next one.
    ///
    /// The segment is the history in chronological order without its most
    /// recent `trailing_silence` samples, the silent run that ended the
    /// utterance. Where that run is at least as long as the history, the
    /// segment is empty.
    pub fn extract_segment(&mut self, segmentation: Segmentation) -> (segment: Vec<i16>)
        ensures
            segment@ == segment_of(old(self)@.samples, segmentation.trailing_silence as nat),
            final(self)@.samples == Seq::<i16>::empty(),
            final(self)@.silent_run == old(self)@.silent_run,
    {
        proof {
            use_type_invariant(&*self);
        }
        let length = self.buffer.len();
        let kept = if segmentation.trailing_silence >= length {
            0
        } else {
            length - segmentation.trailing_silence
        };
        let segment = self.buffer.oldest(kept);
        self.buffer.clear();
        segment
    }

    /// Takes in one tick of audio.
    ///
    /// The tick is mixed down, or replaced by a tick's worth of zeros if nobody
    /// speaks, and appended to the history. If the tick is silent and takes the
    /// silent run beyond the separator length, the utterance has ended: its
    /// segment is returned and the session starts afresh.
    pub fn process_tick(&mut self, sources: &Vec<Vec<i16>>) -> (segment: Option<Vec<i16>>)
        ensures
            final(self)@ == after_tick(old(self)@, sources_view(sources)),
            segment_view(segment) == segment_at(old(self)@, sources_view(sources)),
            final(self)@.wf(),
    {
        proof {
            use_type_invariant(&*self);
        }
        let ghost before = self@;
        let ghost tick = sources_view(sources);
        let sample_count: usize;
        let is_silent: bool;
        if sources.len() == 0 {
            self.buffer.extend_with_silence(TICK_SAMPLE_COUNT);
            sample_count = TICK_SAMPLE_COUNT;
            is_silent = true;
        } else {
            let samples = mix_audio_sources(sources);
            is_silent = samples_are_quiet(&samples);
            self.buffer.extend(&samples);
            sample_count = samples.len();
        }
        assert(self@.samples == history_with_tick(before, tick));
        match self.silence.update(is_silent, sample_count) {
            None => None,
            Some(segmentation) => Some(self.extract_segment(segmentation)),
        }
    }
}

} // verus!
