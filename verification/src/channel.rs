//! The path that parameter changes take from the control thread to the
//! audio thread: a bounded queue that never blocks and, when it is full,
//! refuses the newest change rather than wait.

use crossbeam::queue::ArrayQueue;
use std::sync::Arc;
use vstd::prelude::*;

verus! {

/// The number of pending updates that the voice's channel is made for.
pub const DEFAULT_CAPACITY: usize = 16;

/// The largest capacity that a channel can be made with: as many slots,
/// of at most sixteen bytes each, as one allocation can hold.
pub const MAX_CAPACITY: usize = usize::MAX / 32;

/// A change of one parameter of the voice, on its way to the audio thread.
#[derive(Clone, Copy, Debug, PartialEq, Eq, Structural)]
pub enum ParameterUpdate {
    /// A new carrier frequency, in hertz scaled to `ONE`.
    CarrierFrequency(i32),
    /// A new modulator frequency, in hertz scaled to `ONE`.
    ModulatorFrequency(i32),
    /// A new attack time, in microseconds.
    Attack(u32),
    /// A new release time, in microseconds.
    Release(u32),
}

/// A channel as plain values: the updates waiting in it, oldest first, and
/// how many it can hold.
pub struct Backlog {
    pub items: Seq<ParameterUpdate>,
    pub capacity: nat,
}

impl Backlog {
    /// An empty backlog with room for `capacity` updates.
    pub open spec fn empty(capacity: nat) -> Backlog {
        Backlog { items: Seq::empty(), capacity }
    }

    /// A backlog never holds more than its capacity, and has room for at
    /// least one update.
    pub open spec fn valid(self) -> bool {
        0 < self.capacity && self.items.len() <= self.capacity
    }

    /// Whether there is room for one more update.
    pub open spec fn accepts(self) -> bool {
        self.items.len() < self.capacity
    }

    /// The backlog after an attempt to push `update`: the update goes to the
    /// back if there is room, and is dropped if there is none.
    pub open spec fn pushed(self, update: ParameterUpdate) -> Backlog {
        if self.accepts() {
            Backlog { items: self.items.push(update), capacity: self.capacity }
        } else {
            self
        }
    }

    /// The oldest update waiting, if any.
    pub open spec fn head(self) -> Option<ParameterUpdate> {
        if self.items.len() > 0 {
            Some(self.items[0])
        } else {
            None
        }
    }

    /// The backlog after an attempt to pop: without its oldest update.
    pub open spec fn popped(self) -> Backlog {
        if self.items.len() > 0 {
            Backlog { items: self.items.drop_first(), capacity: self.capacity }
        } else {
            self
        }
    }

    /// The backlog after attempts to push each of `updates` in order.
    pub open spec fn pushed_all(self, updates: Seq<ParameterUpdate>) -> Backlog
        decreases updates.len(),
    {
        if updates.len() == 0 {
            self
        } else {
            self.pushed_all(updates.drop_last()).pushed(updates.last())
        }
    }

    /// The backlog after `n` attempts to pop.
    pub open spec fn popped_times(self, n: nat) -> Backlog
        decreases n,
    {
        if n == 0 {
            self
        } else {
            self.popped_times((n - 1) as nat).popped()
        }
    }
}

/// `crossbeam::queue::ArrayQueue`, taken as it is: nothing inside it is
/// visible here, and all that is said of it is said by the functions below.
#[verifier::external_type_specification]
#[verifier::external_body]
#[verifier::reject_recursive_types(T)]
pub struct ExArrayQueue<T>(ArrayQueue<T>);

/// The updates that a queue holds, oldest first. It stands for what is in
/// the queue's buffer between its head and its tail.
pub uninterp spec fn queued(queue: ArrayQueue<ParameterUpdate>) -> Seq<ParameterUpdate>;

/// The capacity that a queue was made with, which it keeps for life.
pub uninterp spec fn queue_limit(queue: ArrayQueue<ParameterUpdate>) -> nat;

/// `ArrayQueue::new`: allocates a queue for `capacity` elements, which
/// starts empty. It panics on a capacity of zero, and where the buffer, of
/// one stamp and one update a slot, would be larger than an allocation can
/// be; both are left out here.
#[verifier::external_body]
fn queue_with_capacity(capacity: usize) -> (queue: ArrayQueue<ParameterUpdate>)
    requires
        0 < capacity <= MAX_CAPACITY,
    ensures
        queued(queue) == Seq::<ParameterUpdate>::empty(),
        queue_limit(queue) == capacity,
{
    ArrayQueue::new(capacity)
}

/// `ArrayQueue::push` on a queue that nobody else can reach: the element
/// goes to the back unless the queue already holds as many as its capacity,
/// in which case the queue hands it back and stays as it was.
#[verifier::external_body]
fn queue_push(queue: &mut ArrayQueue<ParameterUpdate>, update: ParameterUpdate) -> (accepted: bool)
    ensures
        queue_limit(*final(queue)) == queue_limit(*old(queue)),
        accepted == (queued(*old(queue)).len() < queue_limit(*old(queue))),
        accepted ==> queued(*final(queue)) == queued(*old(queue)).push(update),
        !accepted ==> queued(*final(queue)) == queued(*old(queue)),
{
    queue.push(update).is_ok()
}

/// `ArrayQueue::pop` on a queue that nobody else can reach: the element at
/// the front leaves the queue, and an empty queue gives an error and stays
/// empty.
#[verifier::external_body]
fn queue_pop(queue: &mut ArrayQueue<ParameterUpdate>) -> (head: Option<ParameterUpdate>)
    ensures
        queue_limit(*final(queue)) == queue_limit(*old(queue)),
        queued(*old(queue)).len() == 0 ==> head.is_none() && queued(*final(queue)) == queued(
            *old(queue),
        ),
        queued(*old(queue)).len() > 0 ==> head == Some(queued(*old(queue))[0]) && queued(
            *final(queue),
        ) == queued(*old(queue)).drop_first(),
{
    queue.pop().ok()
}

/// `ArrayQueue::push` on a queue that another thread may be popping from:
/// whether there was room depends on that thread, so nothing is promised.
#[verifier::external_body]
fn shared_push(
    queue: &Arc<ArrayQueue<ParameterUpdate>>,
    update: ParameterUpdate,
) -> (accepted: bool) {
    queue.push(update).is_ok()
}

/// `ArrayQueue::pop` on a queue that another thread may be pushing to: what
/// is waiting depends on that thread, so nothing is promised.
#[verifier::external_body]
fn shared_pop(queue: &Arc<ArrayQueue<ParameterUpdate>>) -> (head: Option<ParameterUpdate>) {
    queue.pop().ok()
}

/// The channel while one owner holds both of its ends.
pub struct ParameterChannel {
    queue: ArrayQueue<ParameterUpdate>,
    capacity: usize,
}

/// The end of a shared channel that the control thread pushes into.
pub struct UpdateSender {
    queue: Arc<ArrayQueue<ParameterUpdate>>,
    capacity: usize,
}

/// The end of a shared channel that the audio thread pops from.
pub struct UpdateReceiver {
    queue: Arc<ArrayQueue<ParameterUpdate>>,
    capacity: usize,
}

impl ParameterChannel {
    /// The channel as plain values.
    pub closed spec fn view(&self) -> Backlog {
        Backlog { items: queued(self.queue), capacity: queue_limit(self.queue) }
    }

    /// Whether the channel is in order; every constructor and method sees
    /// to it.
    pub closed spec fn wf(&self) -> bool {
        self@.valid() && self.capacity == queue_limit(self.queue)
    }

    /// An empty channel for `capacity` updates, or nothing if the capacity
    /// is zero or more than `MAX_CAPACITY`.
    pub fn new(capacity: usize) -> (channel: Option<ParameterChannel>)
        ensures
            channel.is_some() == (0 < capacity <= MAX_CAPACITY),
            channel matches Some(c) ==> c.wf() && c@ == Backlog::empty(capacity as nat),
    {
        if capacity == 0 || capacity > MAX_CAPACITY {
            None
        } else {
            Some(ParameterChannel { queue: queue_with_capacity(capacity), capacity })
        }
    }

    /// Queues `update` behind those waiting and says so, or, if the channel
    /// is full, drops it and says so. It never blocks.
    pub fn try_push(&mut self, update: ParameterUpdate) -> (accepted: bool)
        requires
            old(self).wf(),
        ensures
            final(self).wf(),
            accepted == old(self)@.accepts(),
            final(self)@ == old(self)@.pushed(update),
    {
        queue_push(&mut self.queue, update)
    }

    /// Takes the oldest update out of the channel, or gives nothing if none
    /// is waiting. It never blocks.
    pub fn try_pop(&mut self) -> (head: Option<ParameterUpdate>)
        requires
            old(self).wf(),
        ensures
            final(self).wf(),
            head == old(self)@.head(),
            final(self)@ == old(self)@.popped(),
    {
        queue_pop(&mut self.queue)
    }

    /// How many updates the channel can hold.
    pub fn capacity(&self) -> (capacity: usize)
        requires
            self.wf(),
        ensures
            capacity == self@.capacity,
    {
        self.capacity
    }

    /// Parts the channel into the end that pushes and the end that pops, to
    /// be handed to two threads. Both ends are on the queue of this channel,
    /// with what was waiting in it still waiting.
    pub fn split(self) -> (ends: (UpdateSender, UpdateReceiver))
        requires
            self.wf(),
        ensures
            ends.0.at_parting() == self@,
            ends.1.at_parting() == self@,
            ends.0.spec_capacity() == self@.capacity,
            ends.1.spec_capacity() == self@.capacity,
    {
        let capacity: usize = self.capacity;
        let sending = Arc::new(self.queue);
        let receiving = sending.clone();
        (UpdateSender { queue: sending, capacity }, UpdateReceiver { queue: receiving, capacity })
    }
}

impl UpdateSender {
    /// How many updates the shared channel can hold.
    pub closed spec fn spec_capacity(&self) -> nat {
        self.capacity as nat
    }

    /// The channel as it was handed over when it was parted into its two
    /// ends: what was waiting then, before either thread went on.
    pub closed spec fn at_parting(&self) -> Backlog {
        Backlog { items: queued(*self.queue), capacity: queue_limit(*self.queue) }
    }

    /// Queues `update` and says so, or drops it and says so if the channel
    /// is full at that moment. It never blocks.
    ///
    /// Whether there is room is up to the thread that pops, so nothing is
    /// promised of the answer; the end itself is as it was.
    pub fn try_push(&mut self, update: ParameterUpdate) -> (accepted: bool)
        ensures
            final(self).spec_capacity() == old(self).spec_capacity(),
            final(self).at_parting() == old(self).at_parting(),
    {
        shared_push(&self.queue, update)
    }

    /// How many updates the shared channel can hold.
    pub fn capacity(&self) -> (capacity: usize)
        ensures
            capacity == self.spec_capacity(),
    {
        self.capacity
    }
}

impl UpdateReceiver {
    /// How many updates the shared channel can hold.
    pub closed spec fn spec_capacity(&self) -> nat {
        self.capacity as nat
    }

    /// The channel as it was handed over when it was parted into its two
    /// ends: what was waiting then, before either thread went on.
    pub closed spec fn at_parting(&self) -> Backlog {
        Backlog { items: queued(*self.queue), capacity: queue_limit(*self.queue) }
    }

    /// Takes the oldest update out of the channel, or gives nothing if none
    /// is waiting at that moment. It never blocks.
    ///
    /// What is waiting is up to the thread that pushes, so nothing is
    /// promised of what comes out; the end itself is as it was.
    pub fn try_pop(&mut self) -> (head: Option<ParameterUpdate>)
        ensures
            final(self).spec_capacity() == old(self).spec_capacity(),
            final(self).at_parting() == old(self).at_parting(),
    {
        shared_pop(&self.queue)
    }

    /// How many updates the shared channel can hold.
    pub fn capacity(&self) -> (capacity: usize)
        ensures
            capacity == self.spec_capacity(),
    {
        self.capacity
    }
}

/// Updates pushed into an empty channel wait in the order they were pushed,
/// and those pushed once it is full are dropped: what waits is the first
/// `capacity` of them.
pub proof fn lemma_push_keeps_oldest(capacity: nat, updates: Seq<ParameterUpdate>)
    requires
        capacity > 0,
    ensures
        Backlog::empty(capacity).pushed_all(updates).capacity == capacity,
        updates.len() <= capacity ==> Backlog::empty(capacity).pushed_all(updates).items
            == updates,
        updates.len() > capacity ==> Backlog::empty(capacity).pushed_all(updates).items
            == updates.take(capacity as int),
    decreases updates.len(),
{
    if updates.len() > 0 {
        let earlier = updates.drop_last();
        lemma_push_keeps_oldest(capacity, earlier);
        let before = Backlog::empty(capacity).pushed_all(earlier);
        if updates.len() <= capacity {
            assert(before.items.push(updates.last()) =~= updates);
        } else if updates.len() == capacity + 1 {
            assert(earlier =~= updates.take(capacity as int));
        } else {
            assert(earlier.take(capacity as int) =~= updates.take(capacity as int));
        }
    } else {
        assert(Backlog::empty(capacity).pushed_all(updates).items =~= updates);
    }
}

/// Popping hands the waiting updates out oldest first: after `n` pops the
/// first `n` are gone, and the next pop gives the one that was at place `n`.
pub proof fn lemma_pop_in_order(backlog: Backlog, n: nat)
    requires
        n <= backlog.items.len(),
    ensures
        backlog.popped_times(n).capacity == backlog.capacity,
        backlog.popped_times(n).items == backlog.items.skip(n as int),
        n < backlog.items.len() ==> backlog.popped_times(n).head() == Some(backlog.items[n as int]),
    decreases n,
{
    if n > 0 {
        lemma_pop_in_order(backlog, (n - 1) as nat);
        let before = backlog.popped_times((n - 1) as nat);
        assert(before.items.drop_first() =~= backlog.items.skip(n as int));
    } else {
        assert(backlog.items.skip(0) =~= backlog.items);
    }
}

/// A channel filled to its capacity and then emptied gives back the same
/// updates in the same order, and one push too many loses only the update
/// that was pushed last.
pub proof fn lemma_fill_then_drain(capacity: nat, updates: Seq<ParameterUpdate>, i: int)
    requires
        capacity > 0,
        capacity <= updates.len() <= capacity + 1,
        0 <= i < capacity,
    ensures
        Backlog::empty(capacity).pushed_all(updates).popped_times(i as nat).head() == Some(
            updates[i],
        ),
        Backlog::empty(capacity).pushed_all(updates).popped_times(capacity).items
            == Seq::<ParameterUpdate>::empty(),
{
    lemma_push_keeps_oldest(capacity, updates);
    let full = Backlog::empty(capacity).pushed_all(updates);
    assert(full.items.len() == capacity);
    lemma_pop_in_order(full, i as nat);
    lemma_pop_in_order(full, capacity);
    assert(full.items.skip(capacity as int) =~= Seq::<ParameterUpdate>::empty());
}

/// An update that the channel accepts is popped after exactly as many pops
/// as updates were waiting before it, which is fewer than the capacity: at
/// one pop a block it reaches the voice within `capacity` blocks.
pub proof fn lemma_accepted_update_arrives(backlog: Backlog, update: ParameterUpdate)
    requires
        backlog.valid(),
        backlog.accepts(),
    ensures
        backlog.items.len() < backlog.capacity,
        backlog.pushed(update).popped_times(backlog.items.len()).head() == Some(update),
{
    lemma_pop_in_order(backlog.pushed(update), backlog.items.len());
}

} // verus!
