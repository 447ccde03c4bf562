//! Bounded history of the most recent mixed samples of one session.
//!
//! The history lives in a `CircularQueue`. What that crate does is taken on
//! trust, through the declarations at the top of this file; everything built on
//! them is proved.

use circular_queue::CircularQueue;
use vstd::prelude::*;

verus! {

#[verifier::external_type_specification]
#[verifier::external_body]
#[verifier::reject_recursive_types(T)]
pub struct ExCircularQueue<T>(CircularQueue<T>);

/// The samples a queue currently holds, from the least recently pushed to the
/// most recently pushed.
pub uninterp spec fn queue_samples(queue: CircularQueue<i16>) -> Seq<i16>;

/// The capacity a queue was created with.
pub uninterp spec fn queue_capacity(queue: CircularQueue<i16>) -> nat;

/// `CircularQueue::with_capacity`: an empty queue that remembers the requested
/// capacity. The backing vector is allocated up front, which is why the byte
/// size of the request has to stay within `isize::MAX`.
#[verifier::external_body]
fn queue_with_capacity(capacity: usize) -> (queue: CircularQueue<i16>)
    requires
        2 * capacity <= isize::MAX,
    ensures
        queue_samples(queue) == Seq::<i16>::empty(),
        queue_capacity(queue) == capacity,
{
    CircularQueue::with_capacity(capacity)
}

/// `CircularQueue::capacity`: the capacity the queue was created with.
#[verifier::external_body]
fn queue_capacity_of(queue: &CircularQueue<i16>) -> (capacity: usize)
    ensures
        capacity == queue_capacity(*queue),
{
    queue.capacity()
}

/// `CircularQueue::len`: the number of samples held.
#[verifier::external_body]
fn queue_len(queue: &CircularQueue<i16>) -> (length: usize)
    ensures
        length == queue_samples(*queue).len(),
{
    queue.len()
}

/// `CircularQueue::is_empty`: whether no sample is held.
#[verifier::external_body]
fn queue_is_empty(queue: &CircularQueue<i16>) -> (empty: bool)
    ensures
        empty == (queue_samples(*queue).len() == 0),
{
    queue.is_empty()
}

/// `CircularQueue::push`: appends a sample; a full queue first gives up its
/// oldest sample, which is returned. A queue of capacity zero stays empty.
#[verifier::external_body]
fn queue_push(queue: &mut CircularQueue<i16>, sample: i16) -> (evicted: Option<i16>)
    ensures
        queue_capacity(*final(queue)) == queue_capacity(*old(queue)),
        queue_samples(*final(queue)) == pushed(
            queue_samples(*old(queue)),
            queue_capacity(*old(queue)),
            sample,
        ),
        evicted == evicted_by_push(queue_samples(*old(queue)), queue_capacity(*old(queue))),
    no_unwind
{
    queue.push(sample)
}

/// `CircularQueue::clear`: drops every sample and keeps the capacity.
#[verifier::external_body]
fn queue_clear(queue: &mut CircularQueue<i16>)
    ensures
        queue_capacity(*final(queue)) == queue_capacity(*old(queue)),
        queue_samples(*final(queue)) == Seq::<i16>::empty(),
    no_unwind
{
    queue.clear()
}

/// `Clone` of `CircularQueue`, as derived in that crate: a queue with the same
/// samples and the same capacity.
#[verifier::external_body]
fn queue_clone(queue: &CircularQueue<i16>) -> (copy: CircularQueue<i16>)
    ensures
        queue_samples(copy) == queue_samples(*queue),
        queue_capacity(copy) == queue_capacity(*queue),
{
    queue.clone()
}

/// `CircularQueue::into_vec`: the samples as a vector that starts with the most
/// recently pushed one and ends with the oldest.
#[verifier::external_body]
fn queue_into_vec(queue: CircularQueue<i16>) -> (newest_first: Vec<i16>)
    ensures
        newest_first@ == queue_samples(queue).reverse(),
{
    queue.into_vec()
}

/// Contents of a bounded history after one more sample arrives.
pub open spec fn pushed(samples: Seq<i16>, capacity: nat, sample: i16) -> Seq<i16> {
    if capacity == 0 {
        samples
    } else if samples.len() < capacity {
        samples.push(sample)
    } else {
        samples.drop_first().push(sample)
    }
}

/// The sample that has to leave a bounded history when one more arrives.
pub open spec fn evicted_by_push(samples: Seq<i16>, capacity: nat) -> Option<i16> {
    if capacity > 0 && samples.len() >= capacity {
        Some(samples.first())
    } else {
        None
    }
}

/// The most recent `limit` elements of a sequence, or all of it if it is
/// shorter.
pub open spec fn most_recent(samples: Seq<i16>, limit: nat) -> Seq<i16> {
    if samples.len() <= limit {
        samples
    } else {
        samples.subrange(samples.len() - limit, samples.len() as int)
    }
}

/// Contents of a bounded history after a run of samples arrives: the old
/// contents followed by the run, cut down to the most recent `capacity`.
pub open spec fn appended(samples: Seq<i16>, capacity: nat, run: Seq<i16>) -> Seq<i16> {
    most_recent(samples + run, capacity)
}

/// A run of `length` zero samples.
pub open spec fn silence(length: nat) -> Seq<i16> {
    Seq::new(length, |position: int| 0i16)
}

/// Pushing one sample is appending a run of one.
pub proof fn lemma_pushed_is_appended(samples: Seq<i16>, capacity: nat, sample: i16)
    requires
        samples.len() <= capacity,
    ensures
        pushed(samples, capacity, sample) == appended(samples, capacity, seq![sample]),
{
    assert(samples.push(sample) =~= samples + seq![sample]);
    assert(pushed(samples, capacity, sample) =~= appended(samples, capacity, seq![sample]));
}

/// Appending two runs in turn is appending their concatenation.
pub proof fn lemma_appended_twice(
    samples: Seq<i16>,
    capacity: nat,
    first: Seq<i16>,
    second: Seq<i16>,
)
    ensures
        appended(appended(samples, capacity, first), capacity, second) == appended(
            samples,
            capacity,
            first + second,
        ),
{
    assert((samples + first) + second =~= samples + (first + second));
    assert(appended(appended(samples, capacity, first), capacity, second) =~= appended(
        samples,
        capacity,
        first + second,
    ));
}

/// A history never outgrows its capacity, and below the capacity nothing is
/// lost.
pub proof fn lemma_appended_len(samples: Seq<i16>, capacity: nat, run: Seq<i16>)
    ensures
        appended(samples, capacity, run).len() == if samples.len() + run.len() <= capacity {
            samples.len() + run.len()
        } else {
            capacity
        },
{
}

/// Fixed-capacity history of the most recent samples of one session, in
/// chronological order. Once full, each new sample evicts the oldest one.
pub struct SessionBuffer {
    queue: CircularQueue<i16>,
}

impl View for SessionBuffer {
    type V = Seq<i16>;

    /// The samples held, oldest first.
    closed spec fn view(&self) -> Seq<i16> {
        queue_samples(self.queue)
    }
}

impl SessionBuffer {
    /// The capacity the buffer was created with.
    pub closed spec fn spec_capacity(&self) -> nat {
        queue_capacity(self.queue)
    }

    #[verifier::type_invariant]
    spec fn within_capacity(&self) -> bool {
        queue_samples(self.queue).len() <= queue_capacity(self.queue)
    }

    /// An empty buffer that will hold at most `capacity` samples.
    pub fn with_capacity(capacity: usize) -> (buffer: Self)
        requires
            2 * capacity <= isize::MAX,
        ensures
            buffer@ == Seq::<i16>::empty(),
            buffer.spec_capacity() == capacity,
    {
        SessionBuffer { queue: queue_with_capacity(capacity) }
    }

    /// The most samples the buffer will hold.
    pub fn capacity(&self) -> (capacity: usize)
        ensures
            capacity == self.spec_capacity(),
    {
        queue_capacity_of(&self.queue)
    }

    /// The number of samples held, which never exceeds the capacity.
    pub fn len(&self) -> (length: usize)
        ensures
            length == self@.len(),
            length <= self.spec_capacity(),
    {
        proof {
            use_type_invariant(self);
        }
        queue_len(&self.queue)
    }

    /// Whether no sample is held.
    pub fn is_empty(&self) -> (empty: bool)
        ensures
            empty == (self@.len() == 0),
    {
        queue_is_empty(&self.queue)
    }

    /// Appends one sample, evicting and returning the oldest one if the buffer
    /// is full.
    pub fn push(&mut self, sample: i16) -> (evicted: Option<i16>)
        ensures
            final(self).spec_capacity() == old(self).spec_capacity(),
            final(self)@ == appended(old(self)@, old(self).spec_capacity(), seq![sample]),
            final(self)@.len() <= final(self).spec_capacity(),
            evicted == evicted_by_push(old(self)@, old(self).spec_capacity()),
        no_unwind
    {
        proof {
            use_type_invariant(&*self);
            lemma_pushed_is_appended(
                queue_samples(self.queue),
                queue_capacity(self.queue),
                sample,
            );
        }
        queue_push(&mut self.queue, sample)
    }

    /// Appends a run of samples in order.
    pub fn extend(&mut self, run: &Vec<i16>)
        ensures
            final(self).spec_capacity() == old(self).spec_capacity(),
            final(self)@ == appended(old(self)@, old(self).spec_capacity(), run@),
            final(self)@.len() <= final(self).spec_capacity(),
        no_unwind
    {
        proof {
            use_type_invariant(&*self);
        }
        let ghost before = self@;
        let ghost capacity = self.spec_capacity();
        let mut position: usize = 0;
        proof {
            assert(before + run@.take(0) =~= before);
        }
        while position < run.len()
            invariant
                position <= run.len(),
                before.len() <= capacity,
                self.spec_capacity() == capacity,
                self@ == appended(before, capacity, run@.take(position as int)),
            decreases run.len() - position,
        {
            proof {
                lemma_appended_twice(
                    before,
                    capacity,
                    run@.take(position as int),
                    seq![run[position as int]],
                );
                assert(run@.take(position as int) + seq![run[position as int]] =~= run@.take(
                    position + 1,
                ));
            }
            self.push(run[position]);
            position += 1;
        }
        proof {
            assert(run@.take(position as int) =~= run@);
        }
    }

    /// Appends a run of `length` zero samples.
    pub fn extend_with_silence(&mut self, length: usize)
        ensures
            final(self).spec_capacity() == old(self).spec_capacity(),
            final(self)@ == appended(old(self)@, old(self).spec_capacity(), silence(length as nat)),
            final(self)@.len() <= final(self).spec_capacity(),
        no_unwind
    {
        proof {
            use_type_invariant(&*self);
        }
        let ghost before = self@;
        let ghost capacity = self.spec_capacity();
        let mut pushed_count: usize = 0;
        proof {
            assert(before + silence(0) =~= before);
        }
        while pushed_count < length
            invariant
                pushed_count <= length,
                before.len() <= capacity,
                self.spec_capacity() == capacity,
                self@ == appended(before, capacity, silence(pushed_count as nat)),
            decreases length - pushed_count,
        {
            proof {
                lemma_appended_twice(before, capacity, silence(pushed_count as nat), seq![0i16]);
                assert(silence(pushed_count as nat) + seq![0i16] =~= silence(
                    (pushed_count + 1) as nat,
                ));
            }
            self.push(0);
            pushed_count += 1;
        }
    }

    /// Drops every sample; the capacity stays.
    pub fn clear(&mut self)
        ensures
            final(self).spec_capacity() == old(self).spec_capacity(),
            final(self)@ == Seq::<i16>::empty(),
        no_unwind
    {
        queue_clear(&mut self.queue)
    }

    /// The oldest `count` samples in chronological order, or all of them if
    /// fewer are held.
    pub fn oldest(&self, count: usize) -> (samples: Vec<i16>)
        ensures
            samples@ == self@.take(
                if count <= self@.len() {
                    count as int
                } else {
                    self@.len() as int
                },
            ),
    {
        let newest_first = queue_into_vec(queue_clone(&self.queue));
        let length = newest_first.len();
        let kept = if count <= length {
            count
        } else {
            length
        };
        let mut samples: Vec<i16> = Vec::new();
        let mut position: usize = 0;
        while position < kept
            invariant
                position <= kept <= length,
                length == newest_first@.len(),
                newest_first@ == self@.reverse(),
                samples@ == self@.take(position as int),
            decreases kept - position,
        {
            samples.push(newest_first[length - 1 - position]);
            proof {
                assert(samples@ =~= self@.take(position + 1));
            }
            position += 1;
        }
        samples
    }
}

} // verus!
