//! The jitter buffer: a fixed-capacity queue of 16-bit samples written by
//! the network-receive path and drained by the playback path, with a
//! warm-up/underrun state machine in front of it.
//!
//! The queue itself is ringbuf's heap-allocated single-producer
//! single-consumer ring buffer, held behind trusted wrappers; the state
//! machine and the overrun/underrun policy around it are verified.

use vstd::prelude::*;
use vstd::pervasive::unreached;

verus! {

/// A ring of 16-bit samples backed by `ringbuf::HeapRb<i16>`. Its
/// capacity is fixed at construction; it is never resized.
#[verifier::external_body]
pub struct SampleRing {
    rb: ringbuf::HeapRb<i16>,
}

/// The samples the ring holds, oldest first.
pub uninterp spec fn ring_contents(r: SampleRing) -> Seq<i16>;

/// The fixed capacity the ring was created with.
pub uninterp spec fn ring_capacity(r: SampleRing) -> int;

/// Relies on ringbuf's `HeapRb::new`: a fresh, empty ring buffer with
/// exactly the given capacity (`new` panics on capacity zero, which the
/// precondition rules out).
#[verifier::external_body]
fn ring_new(capacity: usize) -> (r: SampleRing)
    requires
        capacity >= 1,
    ensures
        ring_contents(r) == Seq::<i16>::empty(),
        ring_capacity(r) == capacity as int,
{
    SampleRing { rb: ringbuf::HeapRb::new(capacity) }
}

/// Relies on ringbuf's `Observer::occupied_len`: the number of items
/// stored, exact here because this side holds the whole ring exclusively.
#[verifier::external_body]
fn ring_len(r: &SampleRing) -> (n: usize)
    ensures
        n as int == ring_contents(*r).len(),
{
    ringbuf::traits::Observer::occupied_len(&r.rb)
}

/// Relies on ringbuf's `Observer::capacity`, constant for the ring's whole
/// lifetime.
#[verifier::external_body]
fn ring_cap(r: &SampleRing) -> (n: usize)
    ensures
        n as int == ring_capacity(*r),
{
    ringbuf::traits::Observer::capacity(&r.rb).get()
}

/// Relies on ringbuf's `Producer::try_push`: appends the item when the ring
/// is not full and returns it back (here: reports failure) when it is.
#[verifier::external_body]
fn ring_try_push(r: &mut SampleRing, x: i16) -> (ok: bool)
    ensures
        ok == (ring_contents(*old(r)).len() < ring_capacity(*old(r))),
        ring_contents(*final(r)) == (if ok {
            ring_contents(*old(r)).push(x)
        } else {
            ring_contents(*old(r))
        }),
        ring_capacity(*final(r)) == ring_capacity(*old(r)),
{
    ringbuf::traits::Producer::try_push(&mut r.rb, x).is_ok()
}

/// Relies on ringbuf's `Consumer::try_pop`: removes and returns the eldest
/// item, or `None` when the ring is empty.
#[verifier::external_body]
fn ring_try_pop(r: &mut SampleRing) -> (x: Option<i16>)
    ensures
        x == (if ring_contents(*old(r)).len() == 0 {
            Option::<i16>::None
        } else {
            Option::<i16>::Some(ring_contents(*old(r))[0])
        }),
        ring_contents(*final(r)) == (if ring_contents(*old(r)).len() == 0 {
            ring_contents(*old(r))
        } else {
            ring_contents(*old(r)).drop_first()
        }),
        ring_capacity(*final(r)) == ring_capacity(*old(r)),
{
    ringbuf::traits::Consumer::try_pop(&mut r.rb)
}

/// A block of silence: `n` zero samples.
pub open spec fn spec_silence(n: int) -> Seq<i16> {
    Seq::new(n as nat, |i: int| 0i16)
}

/// The jitter buffer: the sample ring plus the warm-up flag.
///
/// Warming: pulls return silence while the buffer accumulates; the moment
/// the occupied length covers a pull, that pull drains real data and the
/// state becomes Playing. Playing: pulls drain the buffer; a pull that the
/// occupied length cannot cover is an underrun, returns pure silence, and
/// falls back to Warming. The initial state is Warming; there is no other
/// reset.
pub struct JitterBuffer {
    ring: SampleRing,
    warming: bool,
}

impl JitterBuffer {
    /// The samples currently buffered, oldest first.
    pub closed spec fn buffered(&self) -> Seq<i16> {
        ring_contents(self.ring)
    }

    /// Whether the buffer is in its warm-up state.
    pub closed spec fn warming(&self) -> bool {
        self.warming
    }

    /// The fixed capacity, in samples.
    pub closed spec fn cap(&self) -> int {
        ring_capacity(self.ring)
    }

    /// The buffer never holds more than its capacity.
    pub open spec fn wf(&self) -> bool {
        &&& self.cap() >= 1
        &&& self.buffered().len() <= self.cap()
    }

    /// A fresh buffer: empty and Warming.
    pub fn new(capacity: usize) -> (jb: JitterBuffer)
        requires
            capacity >= 1,
        ensures
            jb.wf(),
            jb.buffered() == Seq::<i16>::empty(),
            jb.warming() == true,
            jb.cap() == capacity as int,
    {
        JitterBuffer { ring: ring_new(capacity), warming: true }
    }

    pub fn is_warming(&self) -> (w: bool)
        ensures
            w == self.warming(),
    {
        self.warming
    }

    /// How many samples are currently buffered.
    pub fn occupied(&self) -> (n: usize)
        ensures
            n as int == self.buffered().len(),
    {
        ring_len(&self.ring)
    }

    pub fn capacity(&self) -> (n: usize)
        ensures
            n as int == self.cap(),
    {
        ring_cap(&self.ring)
    }

    /// The producer side: appends arriving samples in order. As many as fit
    /// in the remaining capacity are accepted; the excess is dropped (an
    /// overrun, which the caller sees as `accepted < samples.len()`).
    pub fn push(&mut self, samples: &[i16]) -> (accepted: usize)
        requires
            old(self).wf(),
        ensures
            final(self).wf(),
            final(self).warming() == old(self).warming(),
            final(self).cap() == old(self).cap(),
            accepted as int == vstd::math::min(
                samples@.len() as int,
                old(self).cap() - old(self).buffered().len(),
            ),
            final(self).buffered() == old(self).buffered() + samples@.take(accepted as int),
    {
        let mut i: usize = 0;
        while i < samples.len()
            invariant
                old(self).wf(),
                0 <= i <= samples@.len(),
                i <= old(self).cap() - old(self).buffered().len(),
                self.warming == old(self).warming,
                self.cap() == old(self).cap(),
                self.buffered() =~= old(self).buffered() + samples@.take(i as int),
            decreases samples@.len() - i,
        {
            let ok = ring_try_push(&mut self.ring, samples[i]);
            if !ok {
                proof {
                    assert(self.buffered() =~= old(self).buffered() + samples@.take(i as int));
                }
                return i;
            }
            proof {
                assert(self.buffered() =~= old(self).buffered() + samples@.take(i + 1));
            }
            i += 1;
        }
        i
    }

    /// The consumer side: one playback pull of exactly `requested` samples.
    /// A pull the occupied length covers drains the eldest samples and the
    /// state is (or becomes) Playing; any other pull returns pure silence,
    /// leaves the buffer untouched, and the state is (or falls back to)
    /// Warming — an underrun never makes a partial read.
    pub fn pop(&mut self, requested: usize) -> (out: Vec<i16>)
        requires
            old(self).wf(),
        ensures
            final(self).wf(),
            final(self).cap() == old(self).cap(),
            out@.len() == requested as int,
            final(self).warming() == (old(self).buffered().len() < requested as int),
            out@ == (if old(self).buffered().len() >= requested as int {
                old(self).buffered().take(requested as int)
            } else {
                spec_silence(requested as int)
            }),
            final(self).buffered() == (if old(self).buffered().len() >= requested as int {
                old(self).buffered().skip(requested as int)
            } else {
                old(self).buffered()
            }),
    {
        let occ = ring_len(&self.ring);
        let mut out: Vec<i16> = Vec::new();
        if occ < requested {
            self.warming = true;
            while out.len() < requested
                invariant
                    out@ =~= spec_silence(out@.len() as int),
                    out@.len() <= requested,
                decreases requested - out@.len(),
            {
                out.push(0);
                proof {
                    assert(out@ =~= spec_silence(out@.len() as int));
                }
            }
            proof {
                assert(out@ =~= spec_silence(requested as int));
            }
            out
        } else {
            self.warming = false;
            let mut i: usize = 0;
            while i < requested
                invariant
                    old(self).wf(),
                    0 <= i <= requested,
                    requested <= old(self).buffered().len(),
                    self.warming == false,
                    self.cap() == old(self).cap(),
                    out@ =~= old(self).buffered().take(i as int),
                    out@.len() == i,
                    self.buffered() =~= old(self).buffered().skip(i as int),
                decreases requested - i,
            {
                let s = match ring_try_pop(&mut self.ring) {
                    Some(s) => s,
                    None => unreached(),
                };
                out.push(s);
                proof {
                    assert(out@ =~= old(self).buffered().take(i + 1));
                    assert(self.buffered() =~= old(self).buffered().skip(i + 1));
                }
                i += 1;
            }
            proof {
                assert(out@ =~= old(self).buffered().take(requested as int));
            }
            out
        }
    }
}

} // verus!
