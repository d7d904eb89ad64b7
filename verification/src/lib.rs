//! Producer-side client for a fixed virtual-camera interop protocol.
//!
//! A frame producer writes pixel data into a memory region shared with an
//! independent consumer process, coordinating through named kernel objects:
//! a mutex guarding the region, a "want frame" event and a "sent frame"
//! event.  This crate holds the verified core of that protocol: the frame
//! configuration, the fixed binary header layout, the error taxonomy with
//! its retry classification, and the sender state machine that acquires the
//! named objects lazily and drives every send.  The operating-system calls
//! themselves are performed by an unverified driver, which executes each
//! [`sender::Action`] the machine requests and feeds the result back as a
//! [`sender::Reply`].

use vstd::prelude::*;

pub mod config;
pub mod errors;
pub mod header;
pub mod sender;
pub mod wait;

pub use crate::config::{MAX_HEIGHT, MAX_WIDTH};

use crate::config::FrameConfig;
use crate::errors::Error;
use crate::sender::{Action, Outcome, Sender};

verus! {

/// Why a send call was rejected before any session started: a usage
/// error, distinct from the protocol's own error taxonomy.
#[derive(Debug, Clone, Copy, PartialEq, Eq, Structural)]
pub enum SendUsageError {
    /// The camera has not been started.
    NotRunning,
    /// The buffer length is not exactly the configured frame's payload
    /// size (width times height bytes in the 8-bit format).
    WrongBufferSize,
}

/// The caller-facing object: a configuration plus, once started, a
/// [`Sender`].
#[derive(Debug, Clone, Copy)]
pub struct Camera {
    pub sender: Option<Sender>,
    pub config: FrameConfig,
}

impl Camera {
    /// The configuration is in range and any attached sender is
    /// well-formed.
    pub open spec fn wf(self) -> bool {
        &&& self.config.wf()
        &&& match self.sender {
            Some(s) => s.wf(),
            None => true,
        }
    }

    /// Constructs a stopped camera with the given dimensions.
    /// Out-of-range dimensions are a caller contract violation.
    pub fn new(width: u32, height: u32) -> (c: Camera)
        requires
            width <= crate::config::MAX_WIDTH,
            height <= crate::config::MAX_HEIGHT,
        ensures
            c == (Camera { sender: None::<Sender>, config: FrameConfig { width, height } }),
            c.wf(),
    {
        Camera { sender: None, config: FrameConfig::new(width, height) }
    }

    /// Replaces the active configuration; open resources are unaffected.
    pub fn resize(&mut self, width: u32, height: u32)
        requires
            width <= crate::config::MAX_WIDTH,
            height <= crate::config::MAX_HEIGHT,
        ensures
            *final(self) == (Camera {
                sender: old(self).sender,
                config: FrameConfig { width, height },
            }),
    {
        self.config = FrameConfig::new(width, height);
    }

    /// Attaches a fresh sender; nothing is acquired until the first send.
    pub fn start(&mut self)
        ensures
            final(self).sender == Some(Sender {
                state: crate::sender::State::Uninit(
                    crate::sender::Uninit {
                        mutex: None,
                        want_frame: None,
                        sent_frame: None,
                    },
                ),
                phase: crate::sender::Phase::Idle,
            }),
            final(self).config == old(self).config,
    {
        self.sender = Some(Sender::new());
    }

    /// Detaches the sender, releasing every owned resource.
    pub fn stop(&mut self)
        ensures
            *final(self) == (Camera { sender: None::<Sender>, config: old(self).config }),
    {
        self.sender = None;
    }

    /// Starts a send session for a frame of `frame_len` bytes: rejected as
    /// a usage error if the camera is stopped or the length is not exactly
    /// the configured payload size; otherwise the attached sender begins a
    /// session and the first driver action is returned.
    pub fn begin_send(&mut self, frame_len: usize) -> (r: Result<Action, SendUsageError>)
        requires
            old(self).wf(),
            old(self).sender matches Some(s) ==> s.phase is Idle,
        ensures
            final(self).wf(),
            final(self).config == old(self).config,
            r == Err::<Action, SendUsageError>(SendUsageError::NotRunning) <==> old(self).sender
                is None,
            r == Err::<Action, SendUsageError>(SendUsageError::WrongBufferSize) <==> (old(
                self,
            ).sender is Some && frame_len != old(self).config.spec_payload_len()),
            r is Err ==> *final(self) == *old(self),
            r matches Ok(a) ==> old(self).sender matches Some(s) && final(self).sender matches Some(
                s2,
            ) && (s2, a) == Sender::spec_begin(s),
    {
        let expected: u64 = self.config.payload_len();
        match &mut self.sender {
            None => Err(SendUsageError::NotRunning),
            Some(s) => {
                if frame_len as u64 != expected {
                    Err(SendUsageError::WrongBufferSize)
                } else {
                    Ok(s.begin_send())
                }
            },
        }
    }

    /// Applies the retry policy to a finished session: a sent frame and
    /// any initialization failure (retryable: the consumer may simply not
    /// be there yet, the next frame will try again) are reported as
    /// success; a send failure is surfaced to the caller verbatim.
    pub fn finish_send(outcome: Outcome) -> (r: Result<(), Error>)
        ensures
            r is Ok <==> (outcome is Sent || (outcome matches Outcome::Failed(e) && e is Init)),
            outcome matches Outcome::Failed(e) ==> (e is Send ==> r == Err::<(), Error>(e)),
    {
        match outcome {
            Outcome::Sent => Ok(()),
            Outcome::Failed(e) => {
                if e.should_retry() {
                    Ok(())
                } else {
                    Err(e)
                }
            },
        }
    }
}

} // verus!
