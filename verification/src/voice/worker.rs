//! The decisions of the transcription worker.
//!
//! The worker is a loop around three things that happen outside this
//! library: a sleep, the inference, and the hand-over of a text to the
//! observer. What it decides between them is the function `step` here: from
//! the state it is in and the event that has just happened to the state it
//! moves to and the action it takes next. The loop itself only performs the
//! action and reports the event that ends it.

use super::queue::{front, without_front, TranscriptionQueue, TranscriptionQueueItemView};
use vstd::prelude::*;

verus! {

/// Milliseconds the worker sleeps before each look at the queue.
pub const POLLING_INTERVAL_MILLIS: u64 = 100;

/// Where the worker stands.
#[derive(Clone, Copy, Debug, PartialEq, Eq, Structural)]
pub enum WorkerState {
    /// Asleep, or about to look at the queue.
    Idle,
    /// An item of this session has been taken from the queue and is with the
    /// inference.
    Draining { guild_id: u64 },
    /// The worker found no observer and has stopped for good.
    Stopped,
}

/// What has just happened to the worker.
pub enum WorkerEvent {
    /// The polling interval has passed.
    Woke,
    /// The inference has returned: a text, or nothing if it failed.
    Transcribed(Option<String>),
}

/// What the worker does next.
pub enum WorkerAction {
    /// Sleep for the polling interval, then report `Woke`.
    Sleep,
    /// Run the inference on these samples, then report `Transcribed`.
    Transcribe(Vec<i16>),
    /// Hand the text to the observer without waiting for it to finish, then
    /// sleep for the polling interval and report `Woke`.
    Dispatch { guild_id: u64, text: String },
    /// Leave the loop and never come back.
    Stop,
}

/// What an event is, mathematically.
pub enum WorkerEventView {
    Woke,
    Transcribed(Option<Seq<char>>),
}

/// What an action is, mathematically.
pub enum WorkerActionView {
    Sleep,
    Transcribe(Seq<i16>),
    Dispatch { guild_id: u64, text: Seq<char> },
    Stop,
}

impl View for WorkerEvent {
    type V = WorkerEventView;

    open spec fn view(&self) -> WorkerEventView {
        match self {
            WorkerEvent::Woke => WorkerEventView::Woke,
            WorkerEvent::Transcribed(Some(text)) => WorkerEventView::Transcribed(Some(text@)),
            WorkerEvent::Transcribed(None) => WorkerEventView::Transcribed(None),
        }
    }
}

impl View for WorkerAction {
    type V = WorkerActionView;

    open spec fn view(&self) -> WorkerActionView {
        match self {
            WorkerAction::Sleep => WorkerActionView::Sleep,
            WorkerAction::Transcribe(samples) => WorkerActionView::Transcribe(samples@),
            WorkerAction::Dispatch { guild_id, text } => WorkerActionView::Dispatch {
                guild_id: *guild_id,
                text: text@,
            },
            WorkerAction::Stop => WorkerActionView::Stop,
        }
    }
}

/// The state the worker moves to.
///
/// On waking while idle it looks at the front of the queue: nothing there, it
/// stays idle; an item there and an observer registered, it starts draining
/// that item; an item there and no observer, it stops for good. When the
/// inference returns while it drains, a failure sends it back to idle, and so
/// does a text with an observer registered; a text without an observer stops
/// it for good. An event that does not belong to the state changes nothing.
pub open spec fn state_after(
    state: WorkerState,
    event: WorkerEventView,
    queue: Seq<TranscriptionQueueItemView>,
    observer_registered: bool,
) -> WorkerState {
    match (state, event) {
        (WorkerState::Idle, WorkerEventView::Woke) => match front(queue) {
            None => WorkerState::Idle,
            Some(item) => if observer_registered {
                WorkerState::Draining { guild_id: item.guild_id }
            } else {
                WorkerState::Stopped
            },
        },
        (WorkerState::Draining { guild_id }, WorkerEventView::Transcribed(text)) => match text {
            None => WorkerState::Idle,
            Some(_) => if observer_registered {
                WorkerState::Idle
            } else {
                WorkerState::Stopped
            },
        },
        _ => state,
    }
}

/// The queue the worker leaves: without its front item if the worker woke
/// while idle, untouched otherwise. An item that the worker takes while no
/// observer is registered is lost.
pub open spec fn queue_after_step(
    state: WorkerState,
    event: WorkerEventView,
    queue: Seq<TranscriptionQueueItemView>,
) -> Seq<TranscriptionQueueItemView> {
    match (state, event) {
        (WorkerState::Idle, WorkerEventView::Woke) => without_front(queue),
        _ => queue,
    }
}

/// The action the worker takes.
///
/// An item found with an observer registered goes to the inference. A text
/// that comes back with an observer registered is dispatched under the
/// session of the item it was made from. A failed inference drops the item:
/// the worker just sleeps again. A stopped worker stops.
pub open spec fn action_for(
    state: WorkerState,
    event: WorkerEventView,
    queue: Seq<TranscriptionQueueItemView>,
    observer_registered: bool,
) -> WorkerActionView {
    match (state, event) {
        (WorkerState::Idle, WorkerEventView::Woke) => match front(queue) {
            None => WorkerActionView::Sleep,
            Some(item) => if observer_registered {
                WorkerActionView::Transcribe(item.samples)
            } else {
                WorkerActionView::Stop
            },
        },
        (WorkerState::Draining { guild_id }, WorkerEventView::Transcribed(text)) => match text {
            None => WorkerActionView::Sleep,
            Some(text) => if observer_registered {
                WorkerActionView::Dispatch { guild_id, text }
            } else {
                WorkerActionView::Stop
            },
        },
        (WorkerState::Stopped, _) => WorkerActionView::Stop,
        _ => WorkerActionView::Sleep,
    }
}

/// Once stopped, the worker stays stopped and leaves the queue alone,
/// whatever happens and whether or not an observer is registered again.
pub proof fn lemma_stopped_is_terminal(
    event: WorkerEventView,
    queue: Seq<TranscriptionQueueItemView>,
    observer_registered: bool,
)
    ensures
        state_after(WorkerState::Stopped, event, queue, observer_registered)
            == WorkerState::Stopped,
        queue_after_step(WorkerState::Stopped, event, queue) == queue,
        action_for(WorkerState::Stopped, event, queue, observer_registered)
            == WorkerActionView::Stop,
{
}

/// A step takes at most one item from the queue, and only from its front.
pub proof fn lemma_step_takes_at_most_the_front(
    state: WorkerState,
    event: WorkerEventView,
    queue: Seq<TranscriptionQueueItemView>,
)
    ensures
        queue_after_step(state, event, queue) == queue || queue_after_step(state, event, queue)
            == without_front(queue),
{
}

/// The single worker that drains the transcription queue.
pub struct TranscriptionWorker {
    state: WorkerState,
}

impl View for TranscriptionWorker {
    type V = WorkerState;

    closed spec fn view(&self) -> WorkerState {
        self.state
    }
}

impl TranscriptionWorker {
    /// A worker that has not looked at the queue yet.
    pub fn new() -> (worker: Self)
        ensures
            worker@ == WorkerState::Idle,
    {
        TranscriptionWorker { state: WorkerState::Idle }
    }

    /// Where the worker stands.
    pub fn state(&self) -> (state: WorkerState)
        ensures
            state == self@,
    {
        self.state
    }

    /// Decides what the worker does after `event`, given whether an observer
    /// is registered at this moment.
    pub fn step(
        &mut self,
        event: WorkerEvent,
        queue: &mut TranscriptionQueue,
        observer_registered: bool,
    ) -> (action: WorkerAction)
        ensures
            final(self)@ == state_after(old(self)@, event@, old(queue)@, observer_registered),
            final(queue)@ == queue_after_step(old(self)@, event@, old(queue)@),
            action@ == action_for(old(self)@, event@, old(queue)@, observer_registered),
    {
        match (self.state, event) {
            (WorkerState::Idle, WorkerEvent::Woke) => match queue.pop() {
                None => WorkerAction::Sleep,
                Some(item) => {
                    if observer_registered {
                        self.state = WorkerState::Draining { guild_id: item.guild_id };
                        WorkerAction::Transcribe(item.samples)
                    } else {
                        self.state = WorkerState::Stopped;
                        WorkerAction::Stop
                    }
                },
            },
            (WorkerState::Draining { guild_id }, WorkerEvent::Transcribed(text)) => match text {
                None => {
                    self.state = WorkerState::Idle;
                    WorkerAction::Sleep
                },
                Some(text) => {
                    if observer_registered {
                        self.state = WorkerState::Idle;
                        WorkerAction::Dispatch { guild_id, text }
                    } else {
                        self.state = WorkerState::Stopped;
                        WorkerAction::Stop
                    }
                },
            },
            (WorkerState::Stopped, _) => WorkerAction::Stop,
            _ => WorkerAction::Sleep,
        }
    }
}

} // verus!
