//! The bounded FIFO that carries records from the ingestion path to the
//! consumer. A push into a full queue fails at once and the record is lost;
//! nothing ever blocks or grows past the capacity.
use vstd::prelude::*;
use std::collections::VecDeque;
use crate::record::SourceAddr;

verus! {

/// Number of slots of a queue made with `with_default_capacity`.
pub const DEFAULT_CAPACITY: usize = 1024;

/// The refusal of a push into a full queue.
#[derive(Debug, Clone, Copy, PartialEq, Eq, Structural)]
pub struct QueueFull;

/// A fixed-capacity FIFO of records.
pub struct HandoffQueue {
    items: VecDeque<SourceAddr>,
    capacity: usize,
}

/// The queue after one push of `r` onto contents `items` with capacity `cap`,
/// or `None` where the queue is full and the push is refused.
pub open spec fn push_step(items: Seq<SourceAddr>, cap: nat, r: SourceAddr) -> Option<Seq<SourceAddr>> {
    if items.len() < cap {
        Some(items.push(r))
    } else {
        None
    }
}

/// The oldest record and what stays behind it, or `None` on an empty queue.
pub open spec fn pop_step(items: Seq<SourceAddr>) -> Option<(SourceAddr, Seq<SourceAddr>)> {
    if items.len() > 0 {
        Some((items[0], items.drop_first()))
    } else {
        None
    }
}

impl View for HandoffQueue {
    type V = Seq<SourceAddr>;

    /// The queued records, oldest first.
    closed spec fn view(&self) -> Seq<SourceAddr> {
        self.items@
    }
}

impl HandoffQueue {
    /// The number of slots.
    pub closed spec fn cap(&self) -> nat {
        self.capacity as nat
    }

    /// The queue never holds more records than it has slots.
    pub closed spec fn wf(&self) -> bool {
        self.items@.len() <= self.capacity
    }

    /// An empty queue with `capacity` slots, its storage reserved at once so
    /// that pushes within the capacity need no further allocation.
    pub fn new(capacity: usize) -> (q: HandoffQueue)
        ensures
            q.wf(),
            q@ == Seq::<SourceAddr>::empty(),
            q.cap() == capacity,
    {
        HandoffQueue { items: VecDeque::with_capacity(capacity), capacity }
    }

    /// An empty queue with `DEFAULT_CAPACITY` slots.
    pub fn with_default_capacity() -> (q: HandoffQueue)
        ensures
            q.wf(),
            q@ == Seq::<SourceAddr>::empty(),
            q.cap() == DEFAULT_CAPACITY,
    {
        HandoffQueue::new(DEFAULT_CAPACITY)
    }

    /// The number of slots.
    pub fn capacity(&self) -> (r: usize)
        ensures
            r == self.cap(),
    {
        self.capacity
    }

    /// The number of queued records.
    pub fn len(&self) -> (r: usize)
        ensures
            r == self@.len(),
    {
        self.items.len()
    }

    /// Whether no record is queued.
    pub fn is_empty(&self) -> (r: bool)
        ensures
            r == (self@.len() == 0),
    {
        self.items.len() == 0
    }

    /// Whether every slot is taken.
    pub fn is_full(&self) -> (r: bool)
        requires
            self.wf(),
        ensures
            r == (self@.len() == self.cap()),
    {
        self.items.len() == self.capacity
    }

    /// Appends `record` behind the queued ones, or fails with `QueueFull`,
    /// leaving the queue as it was, when every slot is taken.
    pub fn push(&mut self, record: SourceAddr) -> (r: Result<(), QueueFull>)
        requires
            old(self).wf(),
        ensures
            final(self).wf(),
            final(self).cap() == old(self).cap(),
            match push_step(old(self)@, old(self).cap(), record) {
                Some(s) => r is Ok && final(self)@ == s,
                None => r is Err && final(self)@ == old(self)@,
            },
    {
        if self.items.len() >= self.capacity {
            return Err(QueueFull);
        }
        self.items.push_back(record);
        Ok(())
    }

    /// Removes and returns the oldest queued record, or `None` when the queue
    /// is empty.
    pub fn pop(&mut self) -> (r: Option<SourceAddr>)
        requires
            old(self).wf(),
        ensures
            final(self).wf(),
            final(self).cap() == old(self).cap(),
            match pop_step(old(self)@) {
                Some((x, s)) => r == Some(x) && final(self)@ == s,
                None => r is None && final(self)@ == old(self)@,
            },
    {
        self.items.pop_front()
    }
}

/// The queue after pushing `recs` in order onto contents `items`, or `None`
/// where one of those pushes is refused.
pub open spec fn push_all(items: Seq<SourceAddr>, cap: nat, recs: Seq<SourceAddr>) -> Option<Seq<SourceAddr>>
    decreases recs.len(),
{
    if recs.len() == 0 {
        Some(items)
    } else {
        match push_all(items, cap, recs.drop_last()) {
            Some(s) => push_step(s, cap, recs.last()),
            None => None,
        }
    }
}

/// The records returned by `n` pops from contents `items`, in the order they
/// came out, and the contents left afterwards.
pub open spec fn pop_n(items: Seq<SourceAddr>, n: nat) -> (Seq<SourceAddr>, Seq<SourceAddr>)
    decreases n,
{
    if n == 0 {
        (Seq::empty(), items)
    } else {
        let (out, rest) = pop_n(items, (n - 1) as nat);
        match pop_step(rest) {
            Some((x, left)) => (out.push(x), left),
            None => (out, rest),
        }
    }
}

/// Pushing at most `cap` records onto an empty queue succeeds every time and
/// leaves exactly those records queued, in push order.
pub proof fn lemma_push_all_fits(cap: nat, recs: Seq<SourceAddr>)
    requires
        recs.len() <= cap,
    ensures
        push_all(Seq::empty(), cap, recs) == Some(recs),
    decreases recs.len(),
{
    if recs.len() > 0 {
        lemma_push_all_fits(cap, recs.drop_last());
        assert(recs.drop_last().push(recs.last()) == recs);
    }
}

/// `n` pops hand out the first `n` queued records, oldest first, and leave
/// the rest.
pub proof fn lemma_pop_n(items: Seq<SourceAddr>, n: nat)
    requires
        n <= items.len(),
    ensures
        pop_n(items, n) == (items.take(n as int), items.skip(n as int)),
    decreases n,
{
    if n > 0 {
        lemma_pop_n(items, (n - 1) as nat);
        let rest = items.skip(n - 1);
        assert(rest.drop_first() == items.skip(n as int));
        assert(items.take(n - 1).push(rest[0]) == items.take(n as int));
    }
}

/// Round trip: pushing `recs`, no more than the capacity, onto an empty queue
/// and then popping as many times returns exactly `recs`, in push order, and
/// leaves the queue empty.
pub proof fn lemma_round_trip(cap: nat, recs: Seq<SourceAddr>)
    requires
        recs.len() <= cap,
    ensures
        push_all(Seq::empty(), cap, recs) == Some(recs),
        pop_n(recs, recs.len()) == (recs, Seq::<SourceAddr>::empty()),
{
    lemma_push_all_fits(cap, recs);
    lemma_pop_n(recs, recs.len());
    assert(recs.take(recs.len() as int) == recs);
    assert(recs.skip(recs.len() as int) == Seq::<SourceAddr>::empty());
}

/// Overflow: on an empty queue of capacity `cap`, `cap` pushes succeed, the
/// next push is refused and changes nothing, and `cap` pops then return the
/// first `cap` records in push order.
pub proof fn lemma_overflow(cap: nat, recs: Seq<SourceAddr>, extra: SourceAddr)
    requires
        recs.len() == cap,
    ensures
        push_all(Seq::empty(), cap, recs) == Some(recs),
        push_step(recs, cap, extra) is None,
        pop_n(recs, cap) == (recs, Seq::<SourceAddr>::empty()),
{
    lemma_round_trip(cap, recs);
}

} // verus!
