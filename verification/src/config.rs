//! Frame configuration: the dimensions the producer currently sends.
//!
//! Both dimensions are carried to the consumer in 32-bit signed header
//! fields, so each is bounded by the maximum positive value of such a field.

use vstd::prelude::*;

verus! {

/// Largest width a configuration may hold (the maximum of a 32-bit signed
/// protocol field).
pub const MAX_WIDTH: u32 = 0x7fff_ffff;

/// Largest height a configuration may hold (the maximum of a 32-bit signed
/// protocol field).
pub const MAX_HEIGHT: u32 = 0x7fff_ffff;

/// An immutable pair of frame dimensions, bounded so that each fits a
/// 32-bit signed header field.
#[derive(Debug, Clone, Copy, PartialEq, Eq, Structural)]
pub struct FrameConfig {
    pub width: u32,
    pub height: u32,
}

impl FrameConfig {
    /// Both dimensions fit the 32-bit signed header fields.
    pub open spec fn wf(self) -> bool {
        self.width <= MAX_WIDTH && self.height <= MAX_HEIGHT
    }

    /// The exact number of payload bytes a frame of these dimensions holds
    /// (one byte per pixel in the 8-bit format).
    pub open spec fn spec_payload_len(self) -> int {
        self.width * self.height
    }

    /// Constructs a configuration from dimensions already known to be in
    /// range.  Out-of-range dimensions are a caller contract violation.
    pub fn new(width: u32, height: u32) -> (c: FrameConfig)
        requires
            width <= MAX_WIDTH,
            height <= MAX_HEIGHT,
        ensures
            c == (FrameConfig { width, height }),
            c.wf(),
    {
        FrameConfig { width, height }
    }

    /// Constructs a configuration, rejecting out-of-range dimensions before
    /// any object is produced.
    pub fn try_new(width: u32, height: u32) -> (r: Option<FrameConfig>)
        ensures
            r is Some <==> (width <= MAX_WIDTH && height <= MAX_HEIGHT),
            r is Some ==> r->Some_0 == (FrameConfig { width, height }) && r->Some_0.wf(),
    {
        if width > MAX_WIDTH {
            None
        } else if height > MAX_HEIGHT {
            None
        } else {
            Some(FrameConfig { width, height })
        }
    }

    /// The exact number of payload bytes a frame of these dimensions holds.
    pub fn payload_len(&self) -> (n: u64)
        requires
            self.wf(),
        ensures
            n == self.spec_payload_len(),
    {
        proof {
            assert((self.width as u64) * (self.height as u64) <= 0x7fff_ffffu64 * 0x7fff_ffffu64)
                by (nonlinear_arith)
                requires
                    self.width <= 0x7fff_ffff,
                    self.height <= 0x7fff_ffff,
            ;
        }
        (self.width as u64) * (self.height as u64)
    }
}

} // verus!
