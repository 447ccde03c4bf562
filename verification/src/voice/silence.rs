//! Detection of the end of an utterance from the length of the current run of
//! silence.

use super::SILENCE_SEPARATOR_SAMPLE_COUNT;
use vstd::prelude::*;

verus! {

/// The end of an utterance, as the silence tracker reports it.
#[derive(Clone, Copy, Debug, PartialEq, Eq, Structural)]
pub struct Segmentation {
    /// Length of the silent run that ended the utterance: the number of most
    /// recent samples that are to be left out of the segment.
    pub trailing_silence: usize,
}

/// Whether a tick ends the utterance: it is silent and takes the silent run
/// strictly beyond the separator length.
pub open spec fn fires(silent_run: nat, is_silent: bool, sample_count: nat) -> bool {
    is_silent && silent_run + sample_count > SILENCE_SEPARATOR_SAMPLE_COUNT
}

/// The silent run after a tick: zero after a voiced tick and after the end of
/// an utterance, longer by the tick otherwise.
pub open spec fn run_after(silent_run: nat, is_silent: bool, sample_count: nat) -> nat {
    if !is_silent || fires(silent_run, is_silent, sample_count) {
        0
    } else {
        silent_run + sample_count
    }
}

/// The silent run that a firing tick reports, held to what a `usize` can hold.
pub open spec fn reported_run(silent_run: nat, sample_count: nat) -> nat {
    if silent_run + sample_count <= usize::MAX {
        silent_run + sample_count
    } else {
        usize::MAX as nat
    }
}

/// What the tracker reports for a tick.
pub open spec fn segmentation_after(
    silent_run: nat,
    is_silent: bool,
    sample_count: nat,
) -> Option<Segmentation> {
    if fires(silent_run, is_silent, sample_count) {
        Some(Segmentation { trailing_silence: reported_run(silent_run, sample_count) as usize })
    } else {
        None
    }
}

/// Count of the silent samples that a session has received in a row since its
/// last voiced sample or its last segmentation.
pub struct SilenceTracker {
    silent_run: usize,
}

impl View for SilenceTracker {
    type V = nat;

    /// The length of the current silent run.
    closed spec fn view(&self) -> nat {
        self.silent_run as nat
    }
}

impl SilenceTracker {
    #[verifier::type_invariant]
    spec fn below_separator(&self) -> bool {
        self.silent_run <= SILENCE_SEPARATOR_SAMPLE_COUNT
    }

    /// A tracker that has seen no silence yet.
    pub fn new() -> (tracker: Self)
        ensures
            tracker@ == 0,
    {
        SilenceTracker { silent_run: 0 }
    }

    /// The length of the current silent run, which at rest never exceeds the
    /// separator length.
    pub fn silent_run(&self) -> (silent_run: usize)
        ensures
            silent_run == self@,
            silent_run <= SILENCE_SEPARATOR_SAMPLE_COUNT,
    {
        proof {
            use_type_invariant(self);
        }
        self.silent_run
    }

    /// Takes note of one tick of `sample_count` samples.
    ///
    /// A voiced tick resets the silent run. A silent tick extends it; once the
    /// run strictly exceeds the separator length the utterance has ended: the
    /// run is reported and starts again from zero.
    pub fn update(&mut self, is_silent: bool, sample_count: usize) -> (segmentation: Option<
        Segmentation,
    >)
        ensures
            segmentation.is_some() <==> fires(old(self)@, is_silent, sample_count as nat),
            segmentation == segmentation_after(old(self)@, is_silent, sample_count as nat),
            final(self)@ == run_after(old(self)@, is_silent, sample_count as nat),
            final(self)@ <= SILENCE_SEPARATOR_SAMPLE_COUNT,
            segmentation.is_some() ==> final(self)@ == 0,
        no_unwind
    {
        proof {
            use_type_invariant(&*self);
        }
        if !is_silent {
            self.silent_run = 0;
            return None;
        }
        if sample_count <= SILENCE_SEPARATOR_SAMPLE_COUNT - self.silent_run {
            self.silent_run = self.silent_run + sample_count;
            return None;
        }
        let trailing_silence = if sample_count <= usize::MAX - self.silent_run {
            self.silent_run + sample_count
        } else {
            usize::MAX
        };
        self.silent_run = 0;
        Some(Segmentation { trailing_silence })
    }
}

} // verus!
