//! The bounded sample ring that sits between the decoder and the device.
//!
//! Storage and cursor arithmetic are those of `ringbuf::LocalRb`. What this
//! module adds is a mathematical account of it: at any time the ring *is* a
//! sequence of samples, oldest first, together with a fixed capacity, and
//! every operation is stated as a change to that sequence.

use vstd::prelude::*;
use ringbuf::storage::Heap;
use ringbuf::traits::Consumer;
use ringbuf::traits::Observer;
use ringbuf::traits::Producer;
use ringbuf::LocalRb;

verus! {

/// Largest capacity a ring can be built with: the backing store of 32-bit
/// samples has to fit in an allocation.
pub const MAX_CAPACITY: usize = 0x1fff_ffff;

/// A `ringbuf::LocalRb` over heap storage of `i32`. Its inside is not
/// visible to the verifier; everything known about it comes from the
/// functions below.
#[verifier::external_body]
pub struct RawRing {
    rb: LocalRb<Heap<i32>>,
}

/// The samples held by the ring, oldest first.
pub uninterp spec fn ring_contents(raw: RawRing) -> Seq<i32>;

/// The number of slots the ring was built with.
pub uninterp spec fn ring_capacity(raw: RawRing) -> nat;

/// The slot of the storage that the oldest sample is in, or would be in:
/// the read cursor, counted from the start of the storage.
pub uninterp spec fn ring_head(raw: RawRing) -> nat;

/// `LocalRb::new`: allocates `capacity` slots and starts with both cursors
/// at zero, so the ring is empty. The call panics on a zero capacity or
/// when the allocation cannot be made, hence the bounds.
#[verifier::external_body]
fn raw_new(capacity: usize) -> (raw: RawRing)
    requires
        0 < capacity <= MAX_CAPACITY,
    ensures
        ring_contents(raw) == Seq::<i32>::empty(),
        ring_capacity(raw) == capacity,
        ring_head(raw) == 0,
{
    RawRing { rb: LocalRb::new(capacity) }
}

/// `Observer::occupied_len`: the distance from the read cursor to the write
/// cursor, which is the number of samples held.
#[verifier::external_body]
fn raw_occupied_len(raw: &RawRing) -> (n: usize)
    ensures
        n == ring_contents(*raw).len(),
{
    raw.rb.occupied_len()
}

/// `Observer::vacant_len`: the capacity less the number of samples held.
#[verifier::external_body]
fn raw_vacant_len(raw: &RawRing) -> (n: usize)
    requires
        ring_contents(*raw).len() <= ring_capacity(*raw),
    ensures
        n == ring_capacity(*raw) - ring_contents(*raw).len(),
{
    raw.rb.vacant_len()
}

/// `Producer::push_slice`: copies the longest prefix of `elems` that fits
/// into the free slots, appends it behind what is held, and returns its
/// length. The read cursor stays.
#[verifier::external_body]
fn raw_push_slice(raw: &mut RawRing, elems: &[i32]) -> (n: usize)
    requires
        ring_contents(*old(raw)).len() <= ring_capacity(*old(raw)),
    ensures
        n == vstd::math::min(
            elems@.len() as int,
            ring_capacity(*old(raw)) - ring_contents(*old(raw)).len(),
        ),
        ring_contents(*final(raw)) == ring_contents(*old(raw)) + elems@.take(n as int),
        ring_capacity(*final(raw)) == ring_capacity(*old(raw)),
        ring_head(*final(raw)) == ring_head(*old(raw)),
{
    raw.rb.push_slice(elems)
}

/// `Consumer::as_slices`: the two stretches of storage that hold the
/// contents, in order. The first runs from the read cursor to the end of
/// the storage, or to the last sample held if that comes sooner; the
/// second holds what has wrapped around to the start of the storage.
#[verifier::external_body]
fn raw_as_slices(raw: &RawRing) -> (s: (&[i32], &[i32]))
    requires
        ring_contents(*raw).len() <= ring_capacity(*raw),
        ring_head(*raw) < ring_capacity(*raw),
    ensures
        s.0@ + s.1@ == ring_contents(*raw),
        s.0@.len() == vstd::math::min(
            ring_contents(*raw).len() as int,
            ring_capacity(*raw) - ring_head(*raw),
        ),
{
    raw.rb.as_slices()
}

/// `Consumer::skip`: drops the oldest `count` samples, or all of them when
/// fewer are held, and returns how many were dropped. The read cursor
/// moves on by as many slots, around the end of the storage.
#[verifier::external_body]
fn raw_skip(raw: &mut RawRing, count: usize) -> (n: usize)
    requires
        0 < ring_capacity(*old(raw)),
    ensures
        ring_head(*final(raw)) == slot_after(ring_head(*old(raw)), n as nat, ring_capacity(*old(raw))),
        n == vstd::math::min(count as int, ring_contents(*old(raw)).len() as int),
        ring_contents(*final(raw)) == ring_contents(*old(raw)).skip(n as int),
        ring_capacity(*final(raw)) == ring_capacity(*old(raw)),
{
    raw.rb.skip(count)
}

/// `Consumer::clear`: drops every sample held and returns how many there
/// were. The read cursor moves on by as many slots, around the end of the
/// storage.
#[verifier::external_body]
fn raw_clear(raw: &mut RawRing) -> (n: usize)
    requires
        0 < ring_capacity(*old(raw)),
    ensures
        ring_head(*final(raw)) == slot_after(ring_head(*old(raw)), n as nat, ring_capacity(*old(raw))),
        n == ring_contents(*old(raw)).len(),
        ring_contents(*final(raw)) == Seq::<i32>::empty(),
        ring_capacity(*final(raw)) == ring_capacity(*old(raw)),
{
    raw.rb.clear()
}

/// Number of samples that lie in one stretch from slot `head` on, when
/// `len` are held in a storage of `capacity` slots.
pub open spec fn front_stretch(len: nat, capacity: nat, head: nat) -> nat {
    vstd::math::min(len as int, capacity - head) as nat
}

/// The slot `n` slots after `head`, around the end of the storage.
pub open spec fn slot_after(head: nat, n: nat, capacity: nat) -> nat {
    (((head + n) as int) % (capacity as int)) as nat
}

/// A fixed-capacity FIFO of samples with one writer and one reader.
pub struct RingBuffer {
    raw: RawRing,
    capacity: usize,
}

impl View for RingBuffer {
    type V = Seq<i32>;

    /// The samples waiting to be read, oldest first.
    closed spec fn view(&self) -> Seq<i32> {
        ring_contents(self.raw)
    }
}

impl RingBuffer {
    /// The capacity the ring was built with.
    pub closed spec fn cap(&self) -> nat {
        self.capacity as nat
    }

    /// The slot of the storage that the oldest sample is in, or would be
    /// in, counted from the start of the storage.
    pub closed spec fn head(&self) -> nat {
        ring_head(self.raw)
    }

    /// The ring never holds more than its capacity, its capacity is
    /// positive and never changes, and its read cursor is a slot of its
    /// storage.
    pub closed spec fn wf(&self) -> bool {
        &&& ring_capacity(self.raw) == self.capacity
        &&& 0 < self.capacity <= MAX_CAPACITY
        &&& ring_contents(self.raw).len() <= self.capacity
        &&& ring_head(self.raw) < self.capacity
    }

    /// Free slots.
    pub open spec fn room(&self) -> nat {
        (self.cap() - self@.len()) as nat
    }

    /// Number of samples that can be read in one stretch: those from the
    /// read cursor to the end of the storage, or all that are held if they
    /// do not reach that far.
    pub open spec fn front_len(&self) -> nat {
        front_stretch(self@.len(), self.cap(), self.head())
    }

    /// An empty ring with room for `capacity` samples.
    pub fn new(capacity: usize) -> (ring: RingBuffer)
        requires
            0 < capacity <= MAX_CAPACITY,
        ensures
            ring.wf(),
            ring@ == Seq::<i32>::empty(),
            ring.cap() == capacity,
            ring.head() == 0,
    {
        RingBuffer { raw: raw_new(capacity), capacity }
    }

    pub fn capacity(&self) -> (n: usize)
        requires
            self.wf(),
        ensures
            n == self.cap(),
            n > 0,
    {
        self.capacity
    }

    /// Number of samples waiting to be read.
    pub fn len(&self) -> (n: usize)
        requires
            self.wf(),
        ensures
            n == self@.len(),
            n <= self.cap(),
    {
        raw_occupied_len(&self.raw)
    }

    pub fn is_empty(&self) -> (b: bool)
        requires
            self.wf(),
        ensures
            b == (self@.len() == 0),
    {
        raw_occupied_len(&self.raw) == 0
    }

    /// Number of samples that can still be written.
    pub fn vacancy(&self) -> (n: usize)
        requires
            self.wf(),
        ensures
            n == self.room(),
            n + self@.len() == self.cap(),
    {
        raw_vacant_len(&self.raw)
    }

    /// Appends as many of `samples` as there is room for, from the front,
    /// and returns how many were taken. The rest stays with the caller.
    pub fn write(&mut self, samples: &[i32]) -> (count: usize)
        requires
            old(self).wf(),
        ensures
            final(self).wf(),
            final(self).cap() == old(self).cap(),
            final(self).head() == old(self).head(),
            count == vstd::math::min(samples@.len() as int, old(self).room() as int),
            final(self)@ == old(self)@ + samples@.take(count as int),
    {
        raw_push_slice(&mut self.raw, samples)
    }

    /// The readable samples as two slices over the storage: `front` holds
    /// the oldest, up to the end of the storage, `wrapped` what follows
    /// after the storage wraps around. Nothing is copied. `front` is empty
    /// only when the ring is.
    pub fn read_available(&self) -> (slices: (&[i32], &[i32]))
        requires
            self.wf(),
        ensures
            slices.0@ == self@.take(self.front_len() as int),
            slices.1@ == self@.skip(self.front_len() as int),
            self@.len() > 0 ==> self.front_len() > 0,
    {
        let slices = raw_as_slices(&self.raw);
        proof {
            let n = self.front_len() as int;
            assert(slices.0@ =~= (slices.0@ + slices.1@).take(n));
            assert(slices.1@ =~= (slices.0@ + slices.1@).skip(n));
        }
        slices
    }

    /// Marks the oldest `n` samples as consumed. When fewer than `n` are
    /// held, all of them go. Returns how many were dropped.
    pub fn advance_read(&mut self, n: usize) -> (dropped: usize)
        requires
            old(self).wf(),
        ensures
            final(self).wf(),
            final(self).cap() == old(self).cap(),
            dropped == vstd::math::min(n as int, old(self)@.len() as int),
            final(self)@ == old(self)@.skip(dropped as int),
            final(self).head() == slot_after(old(self).head(), dropped as nat, old(self).cap()),
    {
        proof {
            vstd::arithmetic::div_mod::lemma_mod_pos_bound(
                ring_head(self.raw) + vstd::math::min(n as int, ring_contents(self.raw).len() as int),
                self.capacity as int,
            );
        }
        raw_skip(&mut self.raw, n)
    }

    /// Drops everything that is held and returns how many samples that was.
    pub fn clear(&mut self) -> (dropped: usize)
        requires
            old(self).wf(),
        ensures
            final(self).wf(),
            final(self).cap() == old(self).cap(),
            dropped == old(self)@.len(),
            final(self)@ == Seq::<i32>::empty(),
            final(self).head() == slot_after(old(self).head(), dropped as nat, old(self).cap()),
    {
        proof {
            vstd::arithmetic::div_mod::lemma_mod_pos_bound(
                (ring_head(self.raw) + ring_contents(self.raw).len()) as int,
                self.capacity as int,
            );
        }
        raw_clear(&mut self.raw)
    }
}

/// The ring never holds more samples than its capacity.
pub proof fn lemma_len_within_capacity(ring: RingBuffer)
    requires
        ring.wf(),
    ensures
        ring@.len() <= ring.cap(),
        0 < ring.cap() <= MAX_CAPACITY,
        ring.head() < ring.cap(),
        ring.front_len() <= ring@.len(),
{
}

/// A write never takes more samples than there was room for, and leaves
/// the ring within its capacity.
pub proof fn lemma_write_within_vacancy(before: RingBuffer, samples: Seq<i32>, count: int)
    requires
        before.wf(),
        count == vstd::math::min(samples.len() as int, before.room() as int),
    ensures
        0 <= count <= before.room(),
        count <= samples.len(),
        (before@ + samples.take(count)).len() <= before.cap(),
{
}

} // verus!
