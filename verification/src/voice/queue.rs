//! The queue of segments that wait for transcription: one for all sessions,
//! first in, first out.

use std::collections::VecDeque;
use vstd::prelude::*;

verus! {

/// One utterance on its way to transcription: the samples of its segment and
/// the session it was cut from.
pub struct TranscriptionQueueItem {
    pub samples: Vec<i16>,
    pub guild_id: u64,
}

/// What a queue item is, mathematically.
pub struct TranscriptionQueueItemView {
    pub samples: Seq<i16>,
    pub guild_id: u64,
}

impl View for TranscriptionQueueItem {
    type V = TranscriptionQueueItemView;

    open spec fn view(&self) -> TranscriptionQueueItemView {
        TranscriptionQueueItemView { samples: self.samples@, guild_id: self.guild_id }
    }
}

impl TranscriptionQueueItem {
    pub fn new(samples: Vec<i16>, guild_id: u64) -> (item: Self)
        ensures
            item.samples == samples,
            item.guild_id == guild_id,
    {
        Self { samples, guild_id }
    }
}

/// The item at the front of a queue, if the queue holds any.
pub open spec fn front(queue: Seq<TranscriptionQueueItemView>) -> Option<
    TranscriptionQueueItemView,
> {
    if queue.len() > 0 {
        Some(queue.first())
    } else {
        None
    }
}

/// A queue after one attempt to take its front item.
pub open spec fn without_front(queue: Seq<TranscriptionQueueItemView>) -> Seq<
    TranscriptionQueueItemView,
> {
    if queue.len() > 0 {
        queue.drop_first()
    } else {
        queue
    }
}

/// The view of an item that was taken from a queue, if one was.
pub open spec fn item_view(item: Option<TranscriptionQueueItem>) -> Option<
    TranscriptionQueueItemView,
> {
    match item {
        Some(item) => Some(item@),
        None => None,
    }
}

/// Segments that wait for transcription, in the order in which they arrived.
pub struct TranscriptionQueue {
    items: VecDeque<TranscriptionQueueItem>,
}

impl View for TranscriptionQueue {
    type V = Seq<TranscriptionQueueItemView>;

    /// The waiting items, the one that has waited longest first.
    closed spec fn view(&self) -> Seq<TranscriptionQueueItemView> {
        self.items@.map_values(|item: TranscriptionQueueItem| item@)
    }
}

impl TranscriptionQueue {
    /// An empty queue.
    pub fn new() -> (queue: Self)
        ensures
            queue@ == Seq::<TranscriptionQueueItemView>::empty(),
    {
        let queue = TranscriptionQueue { items: VecDeque::new() };
        assert(queue@ =~= Seq::<TranscriptionQueueItemView>::empty());
        queue
    }

    /// Number of waiting items.
    pub fn len(&self) -> (length: usize)
        ensures
            length == self@.len(),
    {
        self.items.len()
    }

    /// Whether no item waits.
    pub fn is_empty(&self) -> (empty: bool)
        ensures
            empty == (self@.len() == 0),
    {
        self.items.len() == 0
    }

    /// Puts an item at the back of the queue.
    pub fn push(&mut self, item: TranscriptionQueueItem)
        ensures
            final(self)@ == old(self)@.push(item@),
    {
        self.items.push_back(item);
        assert(self@ =~= old(self)@.push(item@));
    }

    /// Takes the item at the front of the queue, if there is one.
    pub fn pop(&mut self) -> (item: Option<TranscriptionQueueItem>)
        ensures
            item_view(item) == front(old(self)@),
            final(self)@ == without_front(old(self)@),
    {
        let item = self.items.pop_front();
        assert(self@ =~= without_front(old(self)@));
        item
    }
}

/// One step in the life of a queue, as the sessions and the worker take them
/// in whatever order.
pub enum QueueOperation {
    Push(TranscriptionQueueItemView),
    Pop,
}

/// The queue that a run of operations leaves, starting from an empty queue.
pub open spec fn queue_after(operations: Seq<QueueOperation>) -> Seq<TranscriptionQueueItemView>
    decreases operations.len(),
{
    if operations.len() == 0 {
        Seq::empty()
    } else {
        let earlier = queue_after(operations.drop_last());
        match operations.last() {
            QueueOperation::Push(item) => earlier.push(item),
            QueueOperation::Pop => without_front(earlier),
        }
    }
}

/// The items that a run of operations has put into the queue, in the order in
/// which they were put there.
pub open spec fn enqueued_by(operations: Seq<QueueOperation>) -> Seq<TranscriptionQueueItemView>
    decreases operations.len(),
{
    if operations.len() == 0 {
        Seq::empty()
    } else {
        let earlier = enqueued_by(operations.drop_last());
        match operations.last() {
            QueueOperation::Push(item) => earlier.push(item),
            QueueOperation::Pop => earlier,
        }
    }
}

/// The items that a run of operations has taken from the queue, in the order
/// in which they were taken.
pub open spec fn dequeued_by(operations: Seq<QueueOperation>) -> Seq<TranscriptionQueueItemView>
    decreases operations.len(),
{
    if operations.len() == 0 {
        Seq::empty()
    } else {
        let earlier = dequeued_by(operations.drop_last());
        match operations.last() {
            QueueOperation::Push(item) => earlier,
            QueueOperation::Pop => match front(queue_after(operations.drop_last())) {
                Some(item) => earlier.push(item),
                None => earlier,
            },
        }
    }
}

/// First in, first out: however pushes and pops are interleaved, the items
/// taken so far, followed by the items that still wait, are the items put in
/// so far, in the order in which they were put in. Nothing is lost, nothing
/// is taken twice, and nothing overtakes.
pub proof fn lemma_first_in_first_out(operations: Seq<QueueOperation>)
    ensures
        dequeued_by(operations) + queue_after(operations) == enqueued_by(operations),
    decreases operations.len(),
{
    if operations.len() > 0 {
        let before = operations.drop_last();
        lemma_first_in_first_out(before);
        let waiting = queue_after(before);
        assert(dequeued_by(operations) + queue_after(operations) =~= enqueued_by(operations)) by {
            match operations.last() {
                QueueOperation::Push(item) => {
                    assert(dequeued_by(before) + waiting.push(item) =~= (dequeued_by(before)
                        + waiting).push(item));
                },
                QueueOperation::Pop => {
                    if waiting.len() > 0 {
                        assert(dequeued_by(before).push(waiting.first()) + waiting.drop_first()
                            =~= dequeued_by(before) + waiting);
                    }
                },
            }
        }
    } else {
        assert(dequeued_by(operations) + queue_after(operations) =~= enqueued_by(operations));
    }
}

} // verus!
