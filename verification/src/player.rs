//! The play queue and the decisions of a player: which track starts when
//! something is enqueued, skipped, moved to, shuffled, or comes to its end.
//!
//! Starting a track is a matter of the voice connection and stays outside.
//! What is decided here is which track that is: every operation that makes
//! another track current hands back its position in the queue.

use crate::model::Track;
use rand::rngs::StdRng;
use rand::seq::SliceRandom;
use vstd::prelude::*;

verus! {

#[verifier::external_type_specification]
#[verifier::external_body]
pub struct ExStdRng(StdRng);

/// `SliceRandom::shuffle` on the tracks of a queue: the same tracks in an order
/// that the generator decides. Nothing is added, dropped or repeated.
#[verifier::external_body]
fn shuffle_tracks(tracks: &mut Vec<Track>, rng: &mut StdRng)
    ensures
        final(tracks)@.to_multiset() == old(tracks)@.to_multiset(),
        final(tracks)@.len() == old(tracks)@.len(),
    no_unwind
{
    tracks.shuffle(rng)
}

/// There is no track after the current one.
#[derive(Clone, Copy, Debug, PartialEq, Eq, Structural)]
pub struct NextNoTrackError;

/// There is no track before the current one.
#[derive(Clone, Copy, Debug, PartialEq, Eq, Structural)]
pub struct PreviousNoTrackError;

/// A track has ended although none was playing.
#[derive(Clone, Copy, Debug, PartialEq, Eq, Structural)]
pub struct OnTrackEndedNotPlayingError;

/// The queue has no track at this position.
#[derive(Clone, Copy, Debug, PartialEq, Eq, Structural)]
pub struct QueueMoveIndexExceedsQueueLengthError(pub usize);

/// The tracks of a player in playing order, and the position of the one that
/// plays.
#[derive(Clone)]
pub struct Queue {
    pub tracks: Vec<Track>,
    pub current_playing_track_index: Option<usize>,
}

impl Queue {
    /// Whether the current position, if there is one, points at a track.
    pub open spec fn wf(&self) -> bool {
        match self.current_playing_track_index {
            Some(index) => index < self.tracks@.len(),
            None => true,
        }
    }
}

impl Default for Queue {
    fn default() -> (queue: Self)
        ensures
            queue.tracks@ == Seq::<Track>::empty(),
            queue.current_playing_track_index.is_none(),
    {
        Queue { tracks: Vec::new(), current_playing_track_index: None }
    }
}

/// What a player is, mathematically.
pub struct PlaybackView {
    pub tracks: Seq<Track>,
    pub current: Option<usize>,
    pub repeating: bool,
    pub repeating_queue: bool,
    pub is_stopped: bool,
}

impl PlaybackView {
    /// The position after the current one, if a track stands there.
    pub open spec fn next_index(self) -> Option<usize> {
        match self.current {
            Some(index) if index + 1 < self.tracks.len() => Some((index + 1) as usize),
            _ => None,
        }
    }

    /// The position before the current one, or the last position if nothing
    /// plays; none if that would lie before the first track.
    pub open spec fn previous_index(self) -> Option<usize> {
        match self.current {
            Some(index) if index > 0 => Some((index - 1) as usize),
            None if self.tracks.len() > 0 => Some((self.tracks.len() - 1) as usize),
            _ => None,
        }
    }

    /// The same player with another current position.
    pub open spec fn with_current(self, current: Option<usize>) -> PlaybackView {
        PlaybackView { current, ..self }
    }

    /// What the end of the current track leads to: the position of the track
    /// that starts next, nothing if the queue is played out, or an error if a
    /// track is to be repeated while none plays.
    ///
    /// A repeated track starts again. Otherwise the next track starts; after
    /// the last one the first starts again if the queue is repeated, and
    /// nothing plays any more if it is not.
    pub open spec fn after_track_end(self) -> Result<Option<usize>, OnTrackEndedNotPlayingError> {
        if self.repeating {
            match self.current {
                Some(index) => Ok(Some(index)),
                None => Err(OnTrackEndedNotPlayingError),
            }
        } else if self.next_index().is_some() {
            Ok(self.next_index())
        } else if self.repeating_queue {
            Ok(Some(0))
        } else {
            Ok(None)
        }
    }
}

/// The state of a player, as far as it decides which track plays.
pub struct Playback {
    queue: Queue,
    repeating: bool,
    repeating_queue: bool,
    is_stopped: bool,
}

impl View for Playback {
    type V = PlaybackView;

    closed spec fn view(&self) -> PlaybackView {
        PlaybackView {
            tracks: self.queue.tracks@,
            current: self.queue.current_playing_track_index,
            repeating: self.repeating,
            repeating_queue: self.repeating_queue,
            is_stopped: self.is_stopped,
        }
    }
}

impl Playback {
    #[verifier::type_invariant]
    spec fn current_is_in_queue(&self) -> bool {
        self.queue.wf()
    }

    /// A player with an empty queue that repeats nothing and is not stopped.
    pub fn new() -> (playback: Self)
        ensures
            playback@.tracks == Seq::<Track>::empty(),
            playback@.current.is_none(),
            !playback@.repeating,
            !playback@.repeating_queue,
            !playback@.is_stopped,
    {
        Playback {
            queue: Queue::default(),
            repeating: false,
            repeating_queue: false,
            is_stopped: false,
        }
    }

    /// The queue as it stands. Its current position, if any, points at one of
    /// its tracks.
    pub fn queue(&self) -> (queue: &Queue)
        ensures
            queue.tracks@ == self@.tracks,
            queue.current_playing_track_index == self@.current,
            queue.wf(),
    {
        proof {
            use_type_invariant(self);
        }
        &self.queue
    }

    pub fn is_stopped(&self) -> (is_stopped: bool)
        ensures
            is_stopped == self@.is_stopped,
    {
        self.is_stopped
    }

    /// Whether the current track starts over when it ends.
    pub fn is_repeating(&self) -> (repeating: bool)
        ensures
            repeating == self@.repeating,
    {
        self.repeating
    }

    /// Whether the queue starts over after its last track.
    pub fn is_repeating_queue(&self) -> (repeating_queue: bool)
        ensures
            repeating_queue == self@.repeating_queue,
    {
        self.repeating_queue
    }

    /// Puts a track at the end of the queue. If nothing plays, the new track
    /// becomes current and its position is returned.
    pub fn enqueue(&mut self, track: Track) -> (started: Option<usize>)
        ensures
            started == if old(self)@.current.is_none() {
                Some(old(self)@.tracks.len() as usize)
            } else {
                None
            },
            final(self)@ == (PlaybackView {
                tracks: old(self)@.tracks.push(track),
                current: if old(self)@.current.is_none() {
                    Some(old(self)@.tracks.len() as usize)
                } else {
                    old(self)@.current
                },
                ..old(self)@
            }),
    {
        proof {
            use_type_invariant(&*self);
        }
        let mut queue = Queue::default();
        std::mem::swap(&mut queue, &mut self.queue);
        queue.tracks.push(track);
        let started = if queue.current_playing_track_index.is_none() {
            Some(queue.tracks.len() - 1)
        } else {
            None
        };
        if started.is_some() {
            queue.current_playing_track_index = started;
        }
        self.queue = queue;
        started
    }

    /// Moves on to the track after the current one and returns its position.
    /// Fails, and changes nothing, if nothing plays or the current track is
    /// the last.
    pub fn next(&mut self) -> (started: Result<usize, NextNoTrackError>)
        ensures
            match old(self)@.next_index() {
                Some(index) => started == Ok::<usize, NextNoTrackError>(index) && final(self)@
                    == old(self)@.with_current(Some(index)),
                None => started.is_err() && final(self)@ == old(self)@,
            },
    {
        proof {
            use_type_invariant(&*self);
        }
        let length = self.queue.tracks.len();
        match self.queue.current_playing_track_index {
            None => Err(NextNoTrackError),
            Some(index) => {
                if index + 1 >= length {
                    return Err(NextNoTrackError);
                }
                self.queue.current_playing_track_index = Some(index + 1);
                Ok(index + 1)
            },
        }
    }

    /// Moves back to the track before the current one, or to the last track
    /// if nothing plays, and returns its position. Fails, and changes
    /// nothing, if that would lead before the first track.
    pub fn previous(&mut self) -> (started: Result<usize, PreviousNoTrackError>)
        ensures
            match old(self)@.previous_index() {
                Some(index) => started == Ok::<usize, PreviousNoTrackError>(index) && final(self)@
                    == old(self)@.with_current(Some(index)),
                None => started.is_err() && final(self)@ == old(self)@,
            },
    {
        proof {
            use_type_invariant(&*self);
        }
        let position = match self.queue.current_playing_track_index {
            None => self.queue.tracks.len(),
            Some(index) => index,
        };
        if position == 0 {
            return Err(PreviousNoTrackError);
        }
        self.queue.current_playing_track_index = Some(position - 1);
        Ok(position - 1)
    }

    /// Moves to the track at `index` and returns that position. Fails with
    /// the position, and changes nothing, if the queue is not that long.
    pub fn queue_move(&mut self, index: usize) -> (started: Result<
        usize,
        QueueMoveIndexExceedsQueueLengthError,
    >)
        ensures
            index < old(self)@.tracks.len() ==> started == Ok::<
                usize,
                QueueMoveIndexExceedsQueueLengthError,
            >(index) && final(self)@ == old(self)@.with_current(Some(index)),
            index >= old(self)@.tracks.len() ==> started == Err::<
                usize,
                QueueMoveIndexExceedsQueueLengthError,
            >(QueueMoveIndexExceedsQueueLengthError(index)) && final(self)@ == old(self)@,
    {
        if index >= self.queue.tracks.len() {
            return Err(QueueMoveIndexExceedsQueueLengthError(index));
        }
        self.queue.current_playing_track_index = Some(index);
        Ok(index)
    }

    /// Sets whether the queue starts over after its last track.
    pub fn queue_repeat(&mut self, repeat: bool)
        ensures
            final(self)@ == (PlaybackView { repeating_queue: repeat, ..old(self)@ }),
    {
        proof {
            use_type_invariant(&*self);
        }
        self.repeating_queue = repeat;
    }

    /// Sets whether the current track starts over when it ends.
    pub fn repeat(&mut self, repeat: bool)
        ensures
            final(self)@ == (PlaybackView { repeating: repeat, ..old(self)@ }),
    {
        proof {
            use_type_invariant(&*self);
        }
        self.repeating = repeat;
    }

    /// Marks the player as stopped.
    pub fn stop(&mut self)
        ensures
            final(self)@ == (PlaybackView { is_stopped: true, ..old(self)@ }),
    {
        proof {
            use_type_invariant(&*self);
        }
        self.is_stopped = true;
    }

    /// Puts the tracks of the queue into a random order and makes the first
    /// of them current. The queue has to hold a track.
    pub fn queue_shuffle(&mut self, rng: &mut StdRng) -> (started: usize)
        requires
            old(self)@.tracks.len() > 0,
        ensures
            started == 0,
            final(self)@.tracks.to_multiset() == old(self)@.tracks.to_multiset(),
            final(self)@.tracks.len() == old(self)@.tracks.len(),
            final(self)@.current == Some(0usize),
            final(self)@.repeating == old(self)@.repeating,
            final(self)@.repeating_queue == old(self)@.repeating_queue,
            final(self)@.is_stopped == old(self)@.is_stopped,
    {
        proof {
            use_type_invariant(&*self);
        }
        let mut queue = Queue::default();
        std::mem::swap(&mut queue, &mut self.queue);
        shuffle_tracks(&mut queue.tracks, rng);
        queue.current_playing_track_index = Some(0);
        self.queue = queue;
        0
    }

    /// Decides what follows the end of the current track, and makes the
    /// track that follows current.
    ///
    /// Where the queue is repeated, the first track can only start again if
    /// there is one.
    pub fn on_track_ended(&mut self) -> (started: Result<
        Option<usize>,
        OnTrackEndedNotPlayingError,
    >)
        requires
            old(self)@.tracks.len() > 0 || old(self)@.repeating || !old(self)@.repeating_queue,
        ensures
            started == old(self)@.after_track_end(),
            final(self)@ == match started {
                Ok(current) => old(self)@.with_current(current),
                Err(_) => old(self)@,
            },
    {
        proof {
            use_type_invariant(&*self);
        }
        if self.repeating {
            return match self.queue.current_playing_track_index {
                Some(index) => Ok(Some(index)),
                None => Err(OnTrackEndedNotPlayingError),
            };
        }
        match self.next() {
            Ok(index) => Ok(Some(index)),
            Err(_) => {
                if self.repeating_queue {
                    self.queue.current_playing_track_index = Some(0);
                    Ok(Some(0))
                } else {
                    self.queue.current_playing_track_index = None;
                    Ok(None)
                }
            },
        }
    }
}

} // verus!
