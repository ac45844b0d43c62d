//! The relay queue: a bounded FIFO byte buffer, the sole handoff point
//! between the interrupt-context producer and the scheduled consumer. The
//! buffer itself is crossbeam's lock-free `ArrayQueue`; its behaviour is
//! stated here and believed, and the FIFO laws are proved over a model of it.

use vstd::prelude::*;
use crossbeam_queue::ArrayQueue;

verus! {

/// crossbeam's bounded lock-free queue, declared so that values of it can
/// stand in verified fields. Verus sees nothing inside such a value.
#[verifier::external_type_specification]
#[verifier::external_body]
#[verifier::reject_recursive_types(T)]
pub struct ExArrayQueue<T>(ArrayQueue<T>);

/// The bytes the queue holds, oldest first.
pub uninterp spec fn array_queue_contents(q: ArrayQueue<u8>) -> Seq<u8>;

/// The capacity the queue was created with.
pub uninterp spec fn array_queue_capacity(q: ArrayQueue<u8>) -> nat;

/// Bounded FIFO byte buffer. Non-blocking insert and remove; when full, the
/// newest incoming byte is rejected and the held bytes are left untouched.
pub struct RelayQueue {
    inner: ArrayQueue<u8>,
}

impl View for RelayQueue {
    type V = Seq<u8>;

    closed spec fn view(&self) -> Seq<u8> {
        array_queue_contents(self.inner)
    }
}

/// Relies on `crossbeam_queue::ArrayQueue::new`: an empty queue with the
/// given capacity. `new` panics on capacity zero and on capacities so large
/// that an internal index would overflow, so those are kept out.
#[verifier::external_body]
fn array_queue_new(capacity: usize) -> (q: ArrayQueue<u8>)
    requires
        1 <= capacity <= 0x1000_0000,
    ensures
        array_queue_contents(q) == Seq::<u8>::empty(),
        array_queue_capacity(q) == capacity,
{
    ArrayQueue::new(capacity)
}

/// Relies on `crossbeam_queue::ArrayQueue::push`: appends the byte at the
/// tail when a slot is free, and hands it back as the error when the queue is
/// full; it never blocks and never disturbs the bytes held.
#[verifier::external_body]
fn array_queue_push(q: &mut ArrayQueue<u8>, byte: u8) -> (r: Result<(), u8>)
    ensures
        array_queue_capacity(*final(q)) == array_queue_capacity(*old(q)),
        array_queue_contents(*old(q)).len() < array_queue_capacity(*old(q)) ==> {
            &&& r == Ok::<(), u8>(())
            &&& array_queue_contents(*final(q)) == array_queue_contents(*old(q)).push(byte)
        },
        array_queue_contents(*old(q)).len() >= array_queue_capacity(*old(q)) ==> {
            &&& r == Err::<(), u8>(byte)
            &&& array_queue_contents(*final(q)) == array_queue_contents(*old(q))
        },
{
    q.push(byte)
}

/// Relies on `crossbeam_queue::ArrayQueue::pop`: removes and returns the
/// oldest byte, or `None` when the queue is empty; it never blocks.
#[verifier::external_body]
fn array_queue_pop(q: &mut ArrayQueue<u8>) -> (r: Option<u8>)
    ensures
        array_queue_capacity(*final(q)) == array_queue_capacity(*old(q)),
        array_queue_contents(*old(q)).len() == 0 ==> {
            &&& r == None::<u8>
            &&& array_queue_contents(*final(q)) == array_queue_contents(*old(q))
        },
        array_queue_contents(*old(q)).len() > 0 ==> {
            &&& r == Some(array_queue_contents(*old(q))[0])
            &&& array_queue_contents(*final(q)) == array_queue_contents(*old(q)).drop_first()
        },
{
    q.pop()
}

impl RelayQueue {
    /// The fixed bound set at creation; the length of the view never
    /// exceeds it.
    pub closed spec fn capacity(&self) -> nat {
        array_queue_capacity(self.inner)
    }

    /// An empty relay queue with the given capacity.
    pub fn new(capacity: usize) -> (q: RelayQueue)
        requires
            1 <= capacity <= 0x1000_0000,
        ensures
            q@ == Seq::<u8>::empty(),
            q.capacity() == capacity,
    {
        RelayQueue { inner: array_queue_new(capacity) }
    }

    /// Non-blocking insert: appends the byte when a slot is free; when the
    /// queue is full the byte comes back as the error and the held bytes are
    /// left exactly as they were.
    pub fn push(&mut self, byte: u8) -> (r: Result<(), u8>)
        ensures
            final(self).capacity() == old(self).capacity(),
            old(self)@.len() < old(self).capacity() ==> {
                &&& r == Ok::<(), u8>(())
                &&& final(self)@ == old(self)@.push(byte)
            },
            old(self)@.len() >= old(self).capacity() ==> {
                &&& r == Err::<(), u8>(byte)
                &&& final(self)@ == old(self)@
            },
    {
        array_queue_push(&mut self.inner, byte)
    }

    /// Non-blocking remove: takes the oldest byte, or `None` from an empty
    /// queue.
    pub fn pop(&mut self) -> (r: Option<u8>)
        ensures
            final(self).capacity() == old(self).capacity(),
            old(self)@.len() == 0 ==> {
                &&& r == None::<u8>
                &&& final(self)@ == old(self)@
            },
            old(self)@.len() > 0 ==> {
                &&& r == Some(old(self)@[0])
                &&& final(self)@ == old(self)@.drop_first()
            },
    {
        array_queue_pop(&mut self.inner)
    }
}

/// One operation of the relay queue's model: a non-blocking insert of a byte,
/// or a non-blocking remove.
pub enum QueueOp {
    Insert(u8),
    Remove,
}

/// A run of the model: the bytes currently held, the bytes accepted so far in
/// arrival order, and the bytes removed so far in removal order.
pub struct QueueTrace {
    pub held: Seq<u8>,
    pub accepted: Seq<u8>,
    pub removed: Seq<u8>,
}

/// One model step, exactly as the queue's operations behave: an insert
/// appends when a slot is free and is rejected when the queue is full (the
/// held bytes untouched either way); a remove takes the oldest byte, or
/// nothing from an empty queue.
pub open spec fn queue_trace_step(t: QueueTrace, cap: nat, op: QueueOp) -> QueueTrace {
    match op {
        QueueOp::Insert(b) => {
            if t.held.len() < cap {
                QueueTrace {
                    held: t.held.push(b),
                    accepted: t.accepted.push(b),
                    removed: t.removed,
                }
            } else {
                t
            }
        },
        QueueOp::Remove => {
            if t.held.len() > 0 {
                QueueTrace {
                    held: t.held.drop_first(),
                    accepted: t.accepted,
                    removed: t.removed.push(t.held[0]),
                }
            } else {
                t
            }
        },
    }
}

/// A whole run of inserts interleaved with removes.
pub open spec fn queue_trace_run(t: QueueTrace, cap: nat, ops: Seq<QueueOp>) -> QueueTrace
    decreases ops.len(),
{
    if ops.len() == 0 {
        t
    } else {
        queue_trace_run(queue_trace_step(t, cap, ops[0]), cap, ops.drop_first())
    }
}

/// The empty starting point of a run.
pub open spec fn queue_trace_empty() -> QueueTrace {
    QueueTrace { held: Seq::empty(), accepted: Seq::empty(), removed: Seq::empty() }
}

/// FIFO law: over any sequence of inserts interleaved with removes, the
/// accepted bytes are exactly the removed bytes followed by the held ones, so
/// removal order equals acceptance order and the queue holds the
/// accepted-but-not-yet-removed bytes in arrival order.
pub proof fn lemma_queue_fifo(t: QueueTrace, cap: nat, ops: Seq<QueueOp>)
    requires
        t.accepted == t.removed + t.held,
    ensures
        ({
            let r = queue_trace_run(t, cap, ops);
            &&& r.accepted == r.removed + r.held
            &&& r.removed == r.accepted.take(r.removed.len() as int)
        }),
    decreases ops.len(),
{
    lemma_queue_invariant(t, cap, ops);
    let r = queue_trace_run(t, cap, ops);
    assert(r.removed =~= (r.removed + r.held).take(r.removed.len() as int));
}

/// The run invariant behind the FIFO law, by induction over the operations.
proof fn lemma_queue_invariant(t: QueueTrace, cap: nat, ops: Seq<QueueOp>)
    requires
        t.accepted == t.removed + t.held,
    ensures
        queue_trace_run(t, cap, ops).accepted
            == queue_trace_run(t, cap, ops).removed + queue_trace_run(t, cap, ops).held,
    decreases ops.len(),
{
    if ops.len() > 0 {
        let t1 = queue_trace_step(t, cap, ops[0]);
        match ops[0] {
            QueueOp::Insert(b) => {
                if t.held.len() < cap {
                    assert(t.accepted.push(b) =~= t.removed + t.held.push(b));
                }
            },
            QueueOp::Remove => {
                if t.held.len() > 0 {
                    assert(t.accepted =~= t.removed.push(t.held[0]) + t.held.drop_first());
                }
            },
        }
        lemma_queue_invariant(t1, cap, ops.drop_first());
    }
}

/// Bounded-buffer law: from any state within the bound, no run of inserts
/// and removes ever makes the queue hold more than its capacity.
pub proof fn lemma_queue_bounded(t: QueueTrace, cap: nat, ops: Seq<QueueOp>)
    requires
        t.held.len() <= cap,
    ensures
        queue_trace_run(t, cap, ops).held.len() <= cap,
    decreases ops.len(),
{
    if ops.len() > 0 {
        lemma_queue_bounded(queue_trace_step(t, cap, ops[0]), cap, ops.drop_first());
    }
}

/// No-corrupt law: an insert into a full queue is rejected and leaves the
/// model — held, accepted and removed bytes alike — exactly as it was.
pub proof fn lemma_full_insert_rejected(t: QueueTrace, cap: nat, b: u8)
    requires
        t.held.len() >= cap,
    ensures
        queue_trace_step(t, cap, QueueOp::Insert(b)) == t,
{
}

} // verus!
