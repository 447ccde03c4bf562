//! The engine as a whole: every session, the queue they share, and the worker
//! that drains it.

use super::mixing::sources_view;
use super::queue::{TranscriptionQueue, TranscriptionQueueItem, TranscriptionQueueItemView};
use super::session::{after_tick, segment_at, Session, SessionView};
use super::worker::{
    action_for, queue_after_step, state_after, TranscriptionWorker, WorkerAction, WorkerEvent,
    WorkerState,
};
use std::collections::HashMap;
use vstd::prelude::*;

verus! {

broadcast use vstd::std_specs::hash::group_hash_axioms;

/// What the engine is, mathematically: its sessions by identity, the waiting
/// segments in order, and where the worker stands.
pub struct TranscriptorView {
    pub sessions: Map<u64, SessionView>,
    pub queue: Seq<TranscriptionQueueItemView>,
    pub worker: WorkerState,
}

/// The session that a tick meets: the one known under that identity, or a
/// fresh one if this is the first tick of that session.
pub open spec fn session_of(sessions: Map<u64, SessionView>, guild_id: u64) -> SessionView {
    if sessions.contains_key(guild_id) {
        sessions[guild_id]
    } else {
        SessionView::fresh()
    }
}

/// The queue after a tick: longer by one item of that session if the tick
/// ended an utterance, unchanged otherwise.
pub open spec fn queue_after_tick(
    queue: Seq<TranscriptionQueueItemView>,
    session: SessionView,
    guild_id: u64,
    sources: Seq<Seq<i16>>,
) -> Seq<TranscriptionQueueItemView> {
    match segment_at(session, sources) {
        Some(samples) => queue.push(TranscriptionQueueItemView { samples, guild_id }),
        None => queue,
    }
}

/// The engine after a tick of one session. Only that session changes; the
/// worker is not involved.
pub open spec fn after_voice_tick(
    engine: TranscriptorView,
    guild_id: u64,
    sources: Seq<Seq<i16>>,
) -> TranscriptorView {
    let session = session_of(engine.sessions, guild_id);
    TranscriptorView {
        sessions: engine.sessions.insert(guild_id, after_tick(session, sources)),
        queue: queue_after_tick(engine.queue, session, guild_id, sources),
        worker: engine.worker,
    }
}

/// Segmentation and transcription dispatch for all sessions of the process.
pub struct Transcriptor {
    sessions: HashMap<u64, Session>,
    queue: TranscriptionQueue,
    worker: TranscriptionWorker,
}

impl View for Transcriptor {
    type V = TranscriptorView;

    closed spec fn view(&self) -> TranscriptorView {
        TranscriptorView {
            sessions: self.sessions@.map_values(|session: Session| session@),
            queue: self.queue@,
            worker: self.worker@,
        }
    }
}

impl Transcriptor {
    /// An engine without sessions, with an empty queue and an idle worker.
    pub fn new() -> (engine: Self)
        ensures
            engine@.sessions == Map::<u64, SessionView>::empty(),
            engine@.queue == Seq::<TranscriptionQueueItemView>::empty(),
            engine@.worker == WorkerState::Idle,
    {
        let engine = Transcriptor {
            sessions: HashMap::new(),
            queue: TranscriptionQueue::new(),
            worker: TranscriptionWorker::new(),
        };
        assert(engine@.sessions =~= Map::<u64, SessionView>::empty());
        engine
    }

    /// Takes in one tick of one session.
    ///
    /// The session is created on its first tick. If the tick ends an
    /// utterance, the segment is put at the back of the queue under the
    /// session's identity, empty or not.
    pub fn process_voice_tick(&mut self, guild_id: u64, voice_tick: &Vec<Vec<i16>>)
        ensures
            final(self)@ == after_voice_tick(old(self)@, guild_id, sources_view(voice_tick)),
    {
        let ghost before = self@;
        let mut session = match self.sessions.remove(&guild_id) {
            Some(session) => session,
            None => Session::new(),
        };
        assert(session@ == session_of(before.sessions, guild_id));
        let segment = session.process_tick(voice_tick);
        self.sessions.insert(guild_id, session);
        if let Some(samples) = segment {
            self.queue.push(TranscriptionQueueItem::new(samples, guild_id));
        }
        assert(self@.sessions =~= before.sessions.insert(
            guild_id,
            after_tick(session_of(before.sessions, guild_id), sources_view(voice_tick)),
        ));
    }

    /// One decision of the worker on this engine's queue: what it does after
    /// `event`, given whether an observer is registered at this moment.
    pub fn transcribe_from_queue(&mut self, event: WorkerEvent, observer_registered: bool) -> (action:
        WorkerAction)
        ensures
            final(self)@.sessions == old(self)@.sessions,
            final(self)@.worker == state_after(
                old(self)@.worker,
                event@,
                old(self)@.queue,
                observer_registered,
            ),
            final(self)@.queue == queue_after_step(old(self)@.worker, event@, old(self)@.queue),
            action@ == action_for(old(self)@.worker, event@, old(self)@.queue, observer_registered),
    {
        self.worker.step(event, &mut self.queue, observer_registered)
    }

    /// Number of segments that wait for transcription.
    pub fn queue_len(&self) -> (length: usize)
        ensures
            length == self@.queue.len(),
    {
        self.queue.len()
    }

    /// Where the worker stands.
    pub fn worker_state(&self) -> (state: WorkerState)
        ensures
            state == self@.worker,
    {
        self.worker.state()
    }

    /// Number of samples in the history of a session, if the session exists.
    pub fn buffered_len(&self, guild_id: u64) -> (length: Option<usize>)
        ensures
            length.is_some() == self@.sessions.contains_key(guild_id),
            length matches Some(length) ==> length == self@.sessions[guild_id].samples.len(),
    {
        match self.sessions.get(&guild_id) {
            Some(session) => Some(session.buffered_len()),
            None => None,
        }
    }

    /// Length of the current silent run of a session, if the session exists.
    pub fn silent_run(&self, guild_id: u64) -> (silent_run: Option<usize>)
        ensures
            silent_run.is_some() == self@.sessions.contains_key(guild_id),
            silent_run matches Some(silent_run) ==> silent_run
                == self@.sessions[guild_id].silent_run,
    {
        match self.sessions.get(&guild_id) {
            Some(session) => Some(session.silent_run()),
            None => None,
        }
    }
}

} // verus!
