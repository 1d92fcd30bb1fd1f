//! The byte queue between the receive interrupt and the idle task.
//!
//! The storage and the queue discipline come from an outside lock-free
//! single-producer/single-consumer ring; this module states its behaviour
//! over the sequence of bytes it holds and exposes the two operations the
//! tasks use. The ring holds at most sixteen bytes; a byte offered to a full
//! ring is handed back and nothing changes.

use vstd::prelude::*;

verus! {

/// Bytes the ring can hold at once.
pub const RING_CAPACITY: usize = 16;

/// The outside ring. The queue type holds one spare slot, so seventeen
/// slots give a capacity of sixteen.
#[verifier::external_body]
pub struct ByteQueue {
    q: heapless::spsc::Queue<u8, 17>,
}

/// The bytes the ring holds, oldest first.
pub uninterp spec fn ring_bytes(q: ByteQueue) -> Seq<u8>;

/// Relies on heapless::spsc::Queue::new: a fresh queue holds nothing.
#[verifier::external_body]
fn queue_new() -> (q: ByteQueue)
    ensures
        ring_bytes(q) == Seq::<u8>::empty(),
{
    ByteQueue { q: heapless::spsc::Queue::new() }
}

/// Relies on heapless::spsc::Queue::len: the number of items held.
#[verifier::external_body]
fn queue_len(q: &ByteQueue) -> (n: usize)
    ensures
        n == ring_bytes(*q).len(),
{
    q.q.len()
}

/// Relies on heapless::spsc::Queue::enqueue: appends at the back, or hands
/// the item back unchanged when the queue is full, which for seventeen slots
/// means sixteen items held.
#[verifier::external_body]
fn queue_enqueue(q: &mut ByteQueue, b: u8) -> (r: Result<(), u8>)
    ensures
        ring_bytes(*old(q)).len() < RING_CAPACITY as int ==> (r == Ok::<(), u8>(()) && ring_bytes(
            *final(q),
        ) == ring_bytes(*old(q)).push(b)),
        ring_bytes(*old(q)).len() >= RING_CAPACITY as int ==> (r == Err::<(), u8>(b) && ring_bytes(
            *final(q),
        ) == ring_bytes(*old(q))),
{
    q.q.enqueue(b)
}

/// Relies on heapless::spsc::Queue::dequeue: removes and returns the item
/// at the front, or nothing from an empty queue.
#[verifier::external_body]
fn queue_dequeue(q: &mut ByteQueue) -> (r: Option<u8>)
    ensures
        ring_bytes(*old(q)).len() == 0 ==> (r is None && ring_bytes(*final(q)) == ring_bytes(
            *old(q),
        )),
        ring_bytes(*old(q)).len() > 0 ==> (r == Some(ring_bytes(*old(q))[0]) && ring_bytes(
            *final(q),
        ) == ring_bytes(*old(q)).drop_first()),
{
    q.q.dequeue()
}

/// One enqueue on the model: appended when there is room, refused whole
/// when there is none.
pub open spec fn spec_ring_enqueue(s: Seq<u8>, b: u8) -> (Seq<u8>, bool) {
    if s.len() < RING_CAPACITY as int {
        (s.push(b), true)
    } else {
        (s, false)
    }
}

/// One dequeue on the model: the oldest byte leaves first.
pub open spec fn spec_ring_dequeue(s: Seq<u8>) -> (Seq<u8>, Option<u8>) {
    if s.len() == 0 {
        (s, None)
    } else {
        (s.drop_first(), Some(s[0]))
    }
}

/// The ring with both of its endpoints: the receive interrupt owns the
/// producing end, the idle task the consuming end, and the queue discipline
/// is the same seen from either.
pub struct Pipe {
    q: ByteQueue,
}

impl View for Pipe {
    type V = Seq<u8>;

    closed spec fn view(&self) -> Seq<u8> {
        ring_bytes(self.q)
    }
}

/// Make the ring, empty.
pub fn pipe() -> (p: Pipe)
    ensures
        p@ == Seq::<u8>::empty(),
{
    Pipe { q: queue_new() }
}

impl Pipe {
    /// Offer one byte to the back of the ring.
    pub fn enqueue(&mut self, b: u8) -> (r: Result<(), u8>)
        ensures
            final(self)@ == spec_ring_enqueue(old(self)@, b).0,
            spec_ring_enqueue(old(self)@, b).1 == (r is Ok),
            r is Err ==> r == Err::<(), u8>(b),
    {
        queue_enqueue(&mut self.q, b)
    }

    /// Take the oldest byte from the front of the ring.
    pub fn dequeue(&mut self) -> (r: Option<u8>)
        ensures
            final(self)@ == spec_ring_dequeue(old(self)@).0,
            r == spec_ring_dequeue(old(self)@).1,
    {
        queue_dequeue(&mut self.q)
    }

    /// The number of bytes waiting.
    pub fn len(&self) -> (n: usize)
        ensures
            n == self@.len(),
    {
        queue_len(&self.q)
    }
}

/// Enqueueing a run of bytes one after the other.
pub open spec fn spec_enqueue_all(s: Seq<u8>, bs: Seq<u8>) -> Seq<u8>
    decreases bs.len(),
{
    if bs.len() == 0 {
        s
    } else {
        spec_enqueue_all(spec_ring_enqueue(s, bs[0]).0, bs.drop_first())
    }
}

/// While there is room for them all, enqueues append in order.
pub proof fn lemma_enqueue_all_appends(s: Seq<u8>, bs: Seq<u8>)
    requires
        s.len() + bs.len() <= RING_CAPACITY as int,
    ensures
        spec_enqueue_all(s, bs) == s + bs,
    decreases bs.len(),
{
    if bs.len() == 0 {
        assert(spec_enqueue_all(s, bs) =~= s + bs);
    } else {
        lemma_enqueue_all_appends(s.push(bs[0]), bs.drop_first());
        assert(s.push(bs[0]) + bs.drop_first() =~= s + bs);
    }
}

/// FIFO law of the ring: sixteen bytes enqueued into the empty ring are all
/// accepted and held exactly in arrival order, and a seventeenth enqueue
/// before any dequeue is refused and leaves the sixteen untouched; dequeues
/// then return them oldest first.
pub proof fn lemma_ring_fifo(bytes: Seq<u8>, extra: u8)
    requires
        bytes.len() == RING_CAPACITY as int,
    ensures
        spec_enqueue_all(Seq::empty(), bytes) == bytes,
        spec_ring_enqueue(bytes, extra) == (bytes, false),
        spec_ring_dequeue(bytes).1 == Some(bytes[0]),
        spec_ring_dequeue(bytes).0 == bytes.drop_first(),
{
    lemma_enqueue_all_appends(Seq::empty(), bytes);
    assert(Seq::empty() + bytes =~= bytes);
}

} // verus!
