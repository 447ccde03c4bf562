//! Segmentation of continuous call audio into utterances, and the ordered
//! hand-over of those utterances to a single transcription worker.
//!
//! Audio arrives tick by tick, per session. Each tick is mixed down to one
//! channel, appended to the session's bounded history and classified as silent
//! or voiced. A long enough run of silence ends an utterance: the history, less
//! that closing silence, is queued as one segment and the history starts
//! afresh. A single worker takes the segments from the queue in the order in
//! which they were put there.

use vstd::prelude::*;

pub mod buffer;
pub mod history;
pub mod mixing;
pub mod queue;
pub mod session;
pub mod silence;
pub mod tick;
pub mod transcriptor;
pub mod worker;

verus! {

/// Samples per second of the decoded audio.
pub const SAMPLE_RATE_RAW: u32 = 16_000;

/// Milliseconds between two ticks of a session, as the voice transport sets it.
pub const EVENT_FIRE_INTERVAL_MILLIS: u32 = 20;

/// Seconds of uninterrupted silence that end an utterance.
pub const SILENCE_SEPARATOR_SECONDS: u32 = 3;

/// Seconds of audio kept for one utterance, on top of the silence that ends it.
pub const TRANSCRIPTION_SECONDS: u32 = 7;

/// Largest absolute value a sample may have in a silent tick.
pub const SILENCE_SAMPLE_THRESHOLD: i16 = 655;

/// Samples in one tick; a tick without speakers counts as this much silence.
pub const TICK_SAMPLE_COUNT: usize = 320;

/// A silent run has to grow beyond this many samples to end an utterance.
pub const SILENCE_SEPARATOR_SAMPLE_COUNT: usize = 48_000;

/// Samples a session keeps at most.
pub const BUFFER_CAPACITY: usize = 160_000;

/// The sample counts above are the durations above at the sample rate, and the
/// threshold is one fiftieth of the largest 16-bit sample.
pub proof fn lemma_derived_constants()
    ensures
        SILENCE_SAMPLE_THRESHOLD == i16::MAX / 50,
        TICK_SAMPLE_COUNT * 1000 == EVENT_FIRE_INTERVAL_MILLIS * SAMPLE_RATE_RAW,
        SILENCE_SEPARATOR_SAMPLE_COUNT == SILENCE_SEPARATOR_SECONDS * SAMPLE_RATE_RAW,
        BUFFER_CAPACITY == (SILENCE_SEPARATOR_SECONDS + TRANSCRIPTION_SECONDS) * SAMPLE_RATE_RAW,
{
}

} // verus!
