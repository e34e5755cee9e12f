//! The receive direction's state and its per-datagram step: validate,
//! observe the frame sequence, decode the payload, and feed the jitter
//! buffer. Every rejection drops the datagram and changes nothing.

use vstd::prelude::*;
use crate::depacketizer::{PacketReject, validate_datagram, spec_validate};
use crate::frame::spec_wrap_add;
use crate::jitter::JitterBuffer;
use crate::samples::{decode_samples, spec_samples_of_bytes};
use crate::stream_name::StreamName;
use crate::tracker::DiscontinuityTracker;

verus! {

/// What one accepted datagram did to the session.
#[derive(Clone, Copy, Debug, PartialEq, Eq, Structural)]
pub struct IngestReport {
    /// The frame index was not the expected one (never set by the first
    /// packet, which only seeds the tracker).
    pub discontinuity: bool,
    /// The payload length was not a whole multiple of the 2-byte sample
    /// size; the trailing partial bytes were discarded.
    pub partial_trailing: bool,
    /// The payload length did not match the declared sample count times
    /// two channels times two bytes; whatever samples were present were
    /// still forwarded.
    pub length_mismatch: bool,
    /// How many decoded samples the jitter buffer accepted.
    pub pushed: usize,
    /// Some decoded samples were dropped because the buffer was full.
    pub overrun: bool,
}

/// The outcome of one inbound datagram.
#[derive(Clone, Copy, Debug, PartialEq, Eq, Structural)]
pub enum IngestOutcome {
    /// The datagram was dropped; nothing changed.
    Rejected(PacketReject),
    /// The datagram was accepted and its samples forwarded.
    Accepted(IngestReport),
}

/// The receive direction: the stream identity it accepts, the frame
/// tracker, and the jitter buffer the playback side drains.
pub struct ReceiveSession {
    pub expected_name: StreamName,
    pub tracker: DiscontinuityTracker,
    pub buffer: JitterBuffer,
}

impl ReceiveSession {
    pub open spec fn wf(&self) -> bool {
        &&& self.expected_name.wf()
        &&& self.buffer.wf()
    }

    /// A fresh session: no frame observed yet, the buffer empty and
    /// Warming.
    pub fn new(expected_name: StreamName, capacity: usize) -> (s: ReceiveSession)
        requires
            expected_name.wf(),
            capacity >= 1,
        ensures
            s.wf(),
            s.expected_name@ == expected_name@,
            s.tracker.expected is None,
            s.buffer.buffered() == Seq::<i16>::empty(),
            s.buffer.warming() == true,
            s.buffer.cap() == capacity as int,
    {
        ReceiveSession {
            expected_name,
            tracker: DiscontinuityTracker::new(),
            buffer: JitterBuffer::new(capacity),
        }
    }

    /// One step of the receive loop. A datagram that fails validation is
    /// dropped and the whole session state is left untouched — in
    /// particular, the tracker's expectation. An accepted datagram advances
    /// the tracker, has its payload decoded (a trailing partial byte
    /// discarded), and its samples appended to the buffer as far as
    /// capacity allows; protocol violations are reported, never fatal.
    pub fn ingest_datagram(&mut self, datagram: &[u8]) -> (r: IngestOutcome)
        requires
            old(self).wf(),
        ensures
            final(self).wf(),
            final(self).expected_name@ == old(self).expected_name@,
            final(self).buffer.warming() == old(self).buffer.warming(),
            final(self).buffer.cap() == old(self).buffer.cap(),
            match spec_validate(old(self).expected_name@, datagram@) {
                Err(e) => r == IngestOutcome::Rejected(e) && *final(self) == *old(self),
                Ok(v) => {
                    let samples = spec_samples_of_bytes(v.2);
                    &&& r matches IngestOutcome::Accepted(rep)
                    &&& rep.discontinuity == (old(self).tracker.expected is Some && old(
                        self,
                    ).tracker.expected != Some(v.0))
                    &&& final(self).tracker.expected == Some(spec_wrap_add(v.0, 1))
                    &&& rep.partial_trailing == (v.2.len() % 2 != 0)
                    &&& rep.length_mismatch == (v.2.len() != v.1 * 4)
                    &&& rep.pushed as int == vstd::math::min(
                        samples.len() as int,
                        old(self).buffer.cap() - old(self).buffer.buffered().len(),
                    )
                    &&& rep.overrun == ((rep.pushed as int) < samples.len())
                    &&& final(self).buffer.buffered() == old(self).buffer.buffered()
                        + samples.take(rep.pushed as int)
                },
            },
    {
        let (frame, count, payload) = match validate_datagram(&self.expected_name, datagram) {
            Ok(t) => t,
            Err(e) => {
                return IngestOutcome::Rejected(e);
            },
        };
        let discontinuity = self.tracker.observe(frame);
        let partial_trailing = payload.len() % 2 != 0;
        let length_mismatch = payload.len() != (count as usize) * 4;
        let samples = decode_samples(payload);
        let pushed = self.buffer.push(samples.as_slice());
        let overrun = pushed < samples.len();
        IngestOutcome::Accepted(
            IngestReport { discontinuity, partial_trailing, length_mismatch, pushed, overrun },
        )
    }
}

} // verus!
