//! The errors a session reports, and the reading of engine status codes.

use vstd::prelude::*;

verus! {

/// The argument that an operation refused.
#[derive(Clone, Copy, Debug, PartialEq, Eq, Structural)]
pub enum Parameter {
    /// The frame width, which must be positive.
    Width,
    /// The frame height, which must be positive.
    Height,
    /// The quality, which must lie between 1 and 100.
    Quality,
    /// The repeat count, which must be -1 or more.
    Repeat,
    /// The output destination, which must hold no NUL byte.
    Destination,
    /// The pixel buffer, whose length must be a multiple of four.
    PixelStride,
    /// The pixel buffer, whose length must be width x height x 4.
    PixelLength,
    /// The timestamp, which may be zero for the first frame only.
    Timestamp,
}

/// Why an operation on a session failed.
#[derive(Clone, Copy, Debug, PartialEq, Eq, Structural)]
pub enum SessionError {
    /// An argument was refused before anything reached the engine.
    InvalidArgument(Parameter),
    /// The operation is not allowed in the session's current phase.
    InvalidState,
    /// The engine answered with this nonzero status code.
    EngineFailure(i32),
}

/// The status code with which the engine reports success.
pub const ENGINE_OK: i32 = 0;

/// What an engine status code means: zero is success, and any other code is a
/// failure that carries the code unchanged.
pub open spec fn status_outcome(status: i32) -> Result<(), SessionError> {
    if status == ENGINE_OK {
        Ok(())
    } else {
        Err(SessionError::EngineFailure(status))
    }
}

/// Reads an engine status code.
pub fn check_status(status: i32) -> (r: Result<(), SessionError>)
    ensures
        r == status_outcome(status),
{
    if status == ENGINE_OK {
        Ok(())
    } else {
        Err(SessionError::EngineFailure(status))
    }
}

} // verus!
