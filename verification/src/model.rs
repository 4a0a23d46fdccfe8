//! The mathematical model of an encoding session.
//!
//! A session is modelled by what the engine has been told and has accepted:
//! the settings it was created with, the destination it writes to, and the
//! frames it took, in order. Each operation is a pair of spec functions. The
//! first says what is handed to the engine, or why nothing is; the second
//! says, for every status code the engine may answer with, the state that
//! follows and what the caller is told.

use vstd::prelude::*;

use crate::destination::nul_free;
use crate::destination::nul_terminated;
use crate::destination::terminated;
use crate::error::status_outcome;
use crate::error::Parameter;
use crate::error::SessionError;
use crate::error::ENGINE_OK;
use crate::settings::Settings;
use crate::settings::BYTES_PER_PIXEL;
use crate::timestamp::Timestamp;

verus! {

/// Where a session stands in its life.
#[derive(Clone, Copy, Debug, PartialEq, Eq, Structural)]
pub enum Phase {
    /// The engine exists and has no destination yet.
    Created,
    /// The engine has its destination and takes frames.
    OutputSet,
    /// The engine was told to finish. Nothing more may reach it.
    Finalized,
}

/// One frame as the engine receives it.
#[verifier::ext_equal]
pub struct FrameView {
    /// The frame's position in the animation, counted from zero.
    pub index: nat,
    /// The frame's width in pixels.
    pub width: nat,
    /// The frame's height in pixels.
    pub height: nat,
    /// The pixels, row by row, four bytes each: red, green, blue, alpha.
    pub pixels: Seq<u8>,
    /// When the frame is shown.
    pub timestamp: Timestamp,
}

/// The state of a session.
#[verifier::ext_equal]
pub struct SessionView {
    /// The options the engine was created with.
    pub settings: Settings,
    /// The phase the session is in.
    pub phase: Phase,
    /// The destination the engine accepted, as the NUL-terminated bytes it
    /// was given; `None` until then.
    pub output: Option<Seq<u8>>,
    /// The frames the engine accepted, oldest first.
    pub frames: Seq<FrameView>,
}

impl SessionView {
    /// The state of a session that was just created.
    pub open spec fn created(settings: Settings) -> SessionView {
        SessionView { settings, phase: Phase::Created, output: None, frames: Seq::empty() }
    }

    /// The number of frames accepted so far, which is also the index that the
    /// next frame gets.
    pub open spec fn frame_count(self) -> nat {
        self.frames.len()
    }

    /// The timestamp of the frame accepted last, if there is one.
    pub open spec fn last_timestamp(self) -> Option<Timestamp> {
        if self.frames.len() == 0 {
            None
        } else {
            Some(self.frames.last().timestamp)
        }
    }

    /// Whether `frame` may stand at position `i` of this session's frames:
    /// it carries that index and the session's dimensions, its buffer holds
    /// exactly one frame, and its timestamp is zero at most in first place.
    pub open spec fn frame_fits(self, i: int, frame: FrameView) -> bool {
        &&& frame.index == i
        &&& frame.width == self.settings.width
        &&& frame.height == self.settings.height
        &&& frame.pixels.len() == self.settings.frame_len()
        &&& i > 0 ==> !frame.timestamp.zero()
    }

    /// What holds of every state that the operations can reach.
    pub open spec fn valid(self) -> bool {
        &&& self.settings.valid()
        &&& self.phase == Phase::Created <==> self.output is None
        &&& self.output matches Some(path) ==> terminated(path)
        &&& self.phase == Phase::Created ==> self.frames.len() == 0
        &&& forall|i: int| 0 <= i < self.frames.len() ==> self.frame_fits(i, #[trigger] self.frames[i])
    }

    /// What `set_output` hands to the engine: the destination with a NUL
    /// appended. The phase is looked at first, then the destination.
    pub open spec fn output_request(self, destination: Seq<u8>) -> Result<Seq<u8>, SessionError> {
        if self.phase != Phase::Created {
            Err(SessionError::InvalidState)
        } else if !nul_free(destination) {
            Err(SessionError::InvalidArgument(Parameter::Destination))
        } else {
            Ok(nul_terminated(destination))
        }
    }

    /// The state after `set_output`, given the engine's answer. Only an
    /// accepted destination moves the session on.
    pub open spec fn after_set_output(self, destination: Seq<u8>, status: i32) -> SessionView {
        match self.output_request(destination) {
            Ok(path) if status == ENGINE_OK => SessionView {
                phase: Phase::OutputSet,
                output: Some(path),
                ..self
            },
            _ => self,
        }
    }

    /// What `set_output` tells the caller, given the engine's answer.
    pub open spec fn set_output_outcome(self, destination: Seq<u8>, status: i32) -> Result<
        (),
        SessionError,
    > {
        match self.output_request(destination) {
            Ok(_) => status_outcome(status),
            Err(e) => Err(e),
        }
    }

    /// What `add_frame` hands to the engine. The phase is looked at first,
    /// then the buffer's stride, then its length, then the timestamp.
    pub open spec fn frame_request(self, pixels: Seq<u8>, timestamp: Timestamp) -> Result<
        FrameView,
        SessionError,
    > {
        if self.phase != Phase::OutputSet {
            Err(SessionError::InvalidState)
        } else if pixels.len() % (BYTES_PER_PIXEL as nat) != 0 {
            Err(SessionError::InvalidArgument(Parameter::PixelStride))
        } else if pixels.len() != self.settings.frame_len() {
            Err(SessionError::InvalidArgument(Parameter::PixelLength))
        } else if self.frame_count() > 0 && timestamp.zero() {
            Err(SessionError::InvalidArgument(Parameter::Timestamp))
        } else {
            Ok(
                FrameView {
                    index: self.frame_count(),
                    width: self.settings.width as nat,
                    height: self.settings.height as nat,
                    pixels,
                    timestamp,
                },
            )
        }
    }

    /// The state after `add_frame`, given the engine's answer. Only an
    /// accepted frame is counted.
    pub open spec fn after_add_frame(self, pixels: Seq<u8>, timestamp: Timestamp, status: i32) -> SessionView {
        match self.frame_request(pixels, timestamp) {
            Ok(frame) if status == ENGINE_OK => SessionView { frames: self.frames.push(frame), ..self },
            _ => self,
        }
    }

    /// What `add_frame` tells the caller, given the engine's answer.
    pub open spec fn add_frame_outcome(self, pixels: Seq<u8>, timestamp: Timestamp, status: i32) -> Result<
        (),
        SessionError,
    > {
        match self.frame_request(pixels, timestamp) {
            Ok(_) => status_outcome(status),
            Err(e) => Err(e),
        }
    }

    /// Whether `finish` may reach the engine.
    pub open spec fn finish_request(self) -> Result<(), SessionError> {
        if self.phase != Phase::OutputSet {
            Err(SessionError::InvalidState)
        } else {
            Ok(())
        }
    }

    /// The state after `finish`. Once the engine was told to finish the
    /// session is over, whatever the engine answered.
    pub open spec fn after_finish(self) -> SessionView {
        match self.finish_request() {
            Ok(_) => SessionView { phase: Phase::Finalized, ..self },
            Err(_) => self,
        }
    }

    /// What `finish` tells the caller, given the engine's answer.
    pub open spec fn finish_outcome(self, status: i32) -> Result<(), SessionError> {
        match self.finish_request() {
            Ok(_) => status_outcome(status),
            Err(e) => Err(e),
        }
    }
}

} // verus!
