//! Discontinuity tracking on the receive path: reports gaps and reorders in
//! the frame sequence without ever altering the data flow.

use vstd::prelude::*;
use crate::frame::{next_frame, spec_wrap_add};

verus! {

/// Holds the frame index the next validated packet is expected to carry.
/// It resynchronizes on every packet: after a gap it follows the latest
/// received frame rather than waiting for the gap to close.
pub struct DiscontinuityTracker {
    /// `None` until the first validated packet is observed.
    pub expected: Option<u32>,
}

impl DiscontinuityTracker {
    pub fn new() -> (t: DiscontinuityTracker)
        ensures
            t.expected is None,
    {
        DiscontinuityTracker { expected: None }
    }

    /// Records one validated packet's frame index. Reports a discontinuity
    /// exactly when a prior frame had been observed and the received index
    /// differs from the expected one; the first packet only seeds the
    /// tracker. Either way the expectation becomes the received index plus
    /// one, wrapping.
    pub fn observe(&mut self, frame: u32) -> (discontinuity: bool)
        ensures
            discontinuity == (old(self).expected is Some && old(self).expected != Some(frame)),
            final(self).expected == Some(spec_wrap_add(frame, 1)),
    {
        let discontinuity = match self.expected {
            Some(e) => e != frame,
            None => false,
        };
        self.expected = Some(next_frame(frame));
        discontinuity
    }
}

} // verus!
