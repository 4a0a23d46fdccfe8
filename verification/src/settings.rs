//! The encoding options that a session is created with.

use vstd::prelude::*;

use crate::error::Parameter;
use crate::error::SessionError;

verus! {

/// The lowest quality the engine accepts.
pub const MIN_QUALITY: u8 = 1;

/// The highest quality the engine accepts.
pub const MAX_QUALITY: u8 = 100;

/// The repeat count that asks for no looping; the lowest the engine accepts.
pub const NO_REPEAT: i16 = -1;

/// The quality used where the caller names none.
pub const DEFAULT_QUALITY: u8 = 90;

/// The encoder used where the caller names none: the slower and better one.
pub const DEFAULT_FAST: bool = false;

/// The number of bytes in one RGBA8 pixel.
pub const BYTES_PER_PIXEL: usize = 4;

/// The options an engine handle is configured with. They are fixed for the
/// life of a session and reach the engine unchanged.
#[derive(Clone, Copy, Debug, PartialEq, Eq, Structural)]
pub struct Settings {
    /// Frame width in pixels.
    pub width: u32,
    /// Frame height in pixels.
    pub height: u32,
    /// From 1, the strongest compression, to 100, the best quality.
    pub quality: u8,
    /// Whether to trade quality for encoding speed.
    pub fast: bool,
    /// -1 plays the animation once, 0 loops forever, n > 0 loops n times.
    pub repeat: i16,
}

impl Settings {
    /// Whether an engine may be created with these settings.
    pub open spec fn valid(self) -> bool {
        &&& self.width > 0
        &&& self.height > 0
        &&& MIN_QUALITY <= self.quality <= MAX_QUALITY
        &&& self.repeat >= NO_REPEAT
    }

    /// The first setting that is out of range, in the order width, height,
    /// quality, repeat; `None` where all are in range.
    pub open spec fn fault(self) -> Option<Parameter> {
        if self.width == 0 {
            Some(Parameter::Width)
        } else if self.height == 0 {
            Some(Parameter::Height)
        } else if self.quality < MIN_QUALITY || self.quality > MAX_QUALITY {
            Some(Parameter::Quality)
        } else if self.repeat < NO_REPEAT {
            Some(Parameter::Repeat)
        } else {
            None
        }
    }

    /// The length in bytes that every frame's pixel buffer must have:
    /// width x height pixels of four bytes each.
    pub open spec fn frame_len(self) -> nat {
        (self.width * self.height * BYTES_PER_PIXEL) as nat
    }

    /// Settings are valid exactly when no setting is at fault.
    pub proof fn valid_iff_no_fault(self)
        ensures
            self.valid() <==> self.fault() is None,
    {
    }

    /// Checks the settings, naming the first one that is out of range.
    pub fn validate(&self) -> (r: Result<(), SessionError>)
        ensures
            r is Ok <==> self.valid(),
            r matches Err(e) ==> self.fault() matches Some(p) && e == SessionError::InvalidArgument(p),
    {
        if self.width == 0 {
            Err(SessionError::InvalidArgument(Parameter::Width))
        } else if self.height == 0 {
            Err(SessionError::InvalidArgument(Parameter::Height))
        } else if self.quality < MIN_QUALITY || self.quality > MAX_QUALITY {
            Err(SessionError::InvalidArgument(Parameter::Quality))
        } else if self.repeat < NO_REPEAT {
            Err(SessionError::InvalidArgument(Parameter::Repeat))
        } else {
            Ok(())
        }
    }

    /// Whether a buffer of `len` bytes holds exactly one frame.
    pub fn holds_frame(&self, len: usize) -> (b: bool)
        ensures
            b == (len == self.frame_len()),
    {
        let width: u128 = self.width as u128;
        let height: u128 = self.height as u128;
        assert(width * height <= 0xffff_ffff * 0xffff_ffff) by (nonlinear_arith)
            requires
                0 <= width <= 0xffff_ffff,
                0 <= height <= 0xffff_ffff,
        ;
        let pixels: u128 = width * height;
        let stride: u128 = BYTES_PER_PIXEL as u128;
        let expected: u128 = pixels * stride;
        len as u128 == expected
    }
}

} // verus!
