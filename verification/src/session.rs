//! The encoding session: the executable state machine.
//!
//! A [`Session`] never touches the engine. Each operation comes as a pair. The
//! `request_*` function checks the phase and the arguments and says what the
//! engine call is to carry. The driver makes the call and passes the engine's
//! status code to the function of the operation's own name, which checks
//! again, so that no status is ever booked for a call that should not have
//! been made, and then moves the session on.

use vstd::prelude::*;
use vstd::string::StringSliceAdditionalSpecFns;

use crate::destination::is_nul_free;
use crate::destination::terminate;
use crate::destination::terminated_round_trip;
use crate::error::check_status;
use crate::error::Parameter;
use crate::error::SessionError;
use crate::error::ENGINE_OK;
use crate::model::FrameView;
use crate::model::Phase;
use crate::model::SessionView;
use crate::settings::Settings;
use crate::settings::BYTES_PER_PIXEL;
use crate::settings::DEFAULT_FAST;
use crate::settings::DEFAULT_QUALITY;
use crate::settings::NO_REPEAT;
use crate::timestamp::Timestamp;

verus! {

/// What one `add_frame_rgba` call hands to the engine, next to the handle.
#[derive(Clone, Copy, Debug)]
pub struct FrameCall<'a> {
    /// The frame's position in the animation, counted from zero.
    pub index: u32,
    /// The frame's width in pixels.
    pub width: u32,
    /// The frame's height in pixels.
    pub height: u32,
    /// The caller's buffer itself: RGBA8 pixels, row by row.
    pub pixels: &'a [u8],
    /// When the frame is shown.
    pub timestamp: Timestamp,
}

impl<'a> View for FrameCall<'a> {
    type V = FrameView;

    open spec fn view(&self) -> FrameView {
        FrameView {
            index: self.index as nat,
            width: self.width as nat,
            height: self.height as nat,
            pixels: self.pixels@,
            timestamp: self.timestamp,
        }
    }
}

/// One encoding session.
///
/// The session keeps in step with an engine handle that its driver owns: it
/// is created once the settings are known to be good, and it is over once the
/// engine was told to finish. Its view is always valid in the sense of
/// [`SessionView::valid`], and every method says so.
pub struct Session {
    settings: Settings,
    phase: Phase,
    frame_count: u32,
    last_timestamp: Option<Timestamp>,
    output: Ghost<Option<Seq<u8>>>,
    frames: Ghost<Seq<FrameView>>,
}

impl View for Session {
    type V = SessionView;

    closed spec fn view(&self) -> SessionView {
        SessionView {
            settings: self.settings,
            phase: self.phase,
            output: self.output@,
            frames: self.frames@,
        }
    }
}

impl Session {
    #[verifier::type_invariant]
    spec fn well_formed(self) -> bool {
        &&& self@.valid()
        &&& self.frame_count == self@.frame_count()
        &&& self.last_timestamp == self@.last_timestamp()
    }

    /// Creates a session for an engine with the given settings.
    ///
    /// Fails with `InvalidArgument` exactly when a setting is out of range,
    /// and names the first such setting. No engine may be created then. A
    /// session that is created starts in phase `Created` with no frames.
    pub fn new(width: u32, height: u32, quality: u8, fast: bool, repeat: i16) -> (r: Result<
        Session,
        SessionError,
    >)
        ensures
            r is Ok <==> (Settings { width, height, quality, fast, repeat }).valid(),
            r matches Ok(s) ==> s@ == SessionView::created(
                (Settings { width, height, quality, fast, repeat }),
            ),
            r matches Ok(s) ==> s@.phase == Phase::Created && s@.frame_count() == 0 && s@.valid(),
            r matches Err(e) ==> (Settings { width, height, quality, fast, repeat }).fault()
                == Some(e->InvalidArgument_0) && e is InvalidArgument,
    {
        let settings = Settings { width, height, quality, fast, repeat };
        match settings.validate() {
            Ok(()) => Ok(
                Session {
                    settings,
                    phase: Phase::Created,
                    frame_count: 0,
                    last_timestamp: None,
                    output: Ghost(None),
                    frames: Ghost(Seq::empty()),
                },
            ),
            Err(e) => Err(e),
        }
    }

    /// Creates a session with quality 90, the slower and better encoder, and
    /// no looping.
    pub fn with_defaults(width: u32, height: u32) -> (r: Result<Session, SessionError>)
        ensures
            r is Ok <==> width > 0 && height > 0,
            r matches Ok(s) ==> s@ == SessionView::created(
                (Settings {
                    width,
                    height,
                    quality: DEFAULT_QUALITY,
                    fast: DEFAULT_FAST,
                    repeat: NO_REPEAT,
                }),
            ) && s@.valid(),
            r matches Err(e) ==> width == 0 && e == SessionError::InvalidArgument(Parameter::Width)
                || width != 0 && e == SessionError::InvalidArgument(Parameter::Height),
    {
        Session::new(width, height, DEFAULT_QUALITY, DEFAULT_FAST, NO_REPEAT)
    }

    /// The settings the engine is to be created with.
    pub fn settings(&self) -> (settings: Settings)
        ensures
            settings == self@.settings,
            self@.valid(),
    {
        proof {
            use_type_invariant(self);
        }
        self.settings
    }

    /// The phase the session is in.
    pub fn phase(&self) -> (phase: Phase)
        ensures
            phase == self@.phase,
            self@.valid(),
    {
        proof {
            use_type_invariant(self);
        }
        self.phase
    }

    /// The number of frames the engine has accepted, which is the index of
    /// the next frame.
    pub fn frame_count(&self) -> (count: u32)
        ensures
            count == self@.frame_count(),
            self@.valid(),
    {
        proof {
            use_type_invariant(self);
        }
        self.frame_count
    }

    /// The timestamp of the frame accepted last; `None` before the first.
    pub fn last_timestamp(&self) -> (last: Option<Timestamp>)
        ensures
            last == self@.last_timestamp(),
            self@.valid(),
    {
        proof {
            use_type_invariant(self);
        }
        self.last_timestamp
    }

    /// Whether the engine still waits to be told to finish. A driver that
    /// lets go of a session for which this holds owes the engine that call,
    /// to release the handle.
    pub fn engine_open(&self) -> (open: bool)
        ensures
            open == (self@.phase != Phase::Finalized),
            self@.valid(),
    {
        proof {
            use_type_invariant(self);
        }
        match self.phase {
            Phase::Finalized => false,
            _ => true,
        }
    }

    /// Says what `set_file_output` is to hand to the engine: the destination
    /// as UTF-8 bytes with a terminating NUL.
    ///
    /// Fails with `InvalidState` unless the session is in phase `Created`,
    /// and else with `InvalidArgument` where the destination holds a NUL.
    pub fn request_output(&self, destination: &str) -> (r: Result<Vec<u8>, SessionError>)
        ensures
            self@.valid(),
            r matches Ok(path) ==> self@.output_request(destination.spec_bytes()) == Ok::<
                Seq<u8>,
                SessionError,
            >(path@),
            r matches Err(e) ==> self@.output_request(destination.spec_bytes()) == Err::<
                Seq<u8>,
                SessionError,
            >(e),
            self@.phase != Phase::Created ==> r == Err::<Vec<u8>, SessionError>(
                SessionError::InvalidState,
            ),
    {
        proof {
            use_type_invariant(self);
        }
        match self.phase {
            Phase::Created => {},
            _ => {
                return Err(SessionError::InvalidState);
            },
        }
        match terminate(destination.as_bytes()) {
            Some(path) => Ok(path),
            None => Err(SessionError::InvalidArgument(Parameter::Destination)),
        }
    }

    /// Books the engine's answer to `set_file_output`.
    ///
    /// The checks of [`Session::request_output`] are made again and fail in
    /// the same way, whatever the status. After them, status zero moves the
    /// session to phase `OutputSet`; any other status leaves the session as it
    /// was and comes back as `EngineFailure`.
    pub fn set_output(&mut self, destination: &str, status: i32) -> (r: Result<(), SessionError>)
        ensures
            final(self)@ == old(self)@.after_set_output(destination.spec_bytes(), status),
            r == old(self)@.set_output_outcome(destination.spec_bytes(), status),
            old(self)@.phase != Phase::Created ==> r == Err::<(), SessionError>(
                SessionError::InvalidState,
            ),
            r is Ok ==> final(self)@.phase == Phase::OutputSet,
            r is Err ==> final(self)@ == old(self)@,
            old(self)@.valid() && final(self)@.valid(),
    {
        proof {
            use_type_invariant(&*self);
        }
        match self.phase {
            Phase::Created => {},
            _ => {
                return Err(SessionError::InvalidState);
            },
        }
        let bytes = destination.as_bytes();
        if !is_nul_free(bytes) {
            return Err(SessionError::InvalidArgument(Parameter::Destination));
        }
        if status != ENGINE_OK {
            return Err(SessionError::EngineFailure(status));
        }
        let ghost path = crate::destination::nul_terminated(bytes@);
        proof {
            terminated_round_trip(bytes@);
        }
        *self = Session {
            settings: self.settings,
            phase: Phase::OutputSet,
            frame_count: self.frame_count,
            last_timestamp: self.last_timestamp,
            output: Ghost(Some(path)),
            frames: self.frames,
        };
        Ok(())
    }

    /// Says what `add_frame_rgba` is to hand to the engine: the next index,
    /// the session's dimensions, the caller's buffer and the timestamp.
    ///
    /// Fails with `InvalidState` unless the session is in phase `OutputSet`.
    /// Else fails with `InvalidArgument`, in this order: where the buffer's
    /// length is no multiple of four; where it is not width x height x 4;
    /// where the timestamp is zero and a frame was accepted before.
    pub fn request_frame<'a>(&self, pixels: &'a [u8], timestamp: Timestamp) -> (r: Result<
        FrameCall<'a>,
        SessionError,
    >)
        ensures
            self@.valid(),
            r matches Ok(call) ==> self@.frame_request(pixels@, timestamp) == Ok::<
                FrameView,
                SessionError,
            >(call@),
            r matches Err(e) ==> self@.frame_request(pixels@, timestamp) == Err::<
                FrameView,
                SessionError,
            >(e),
            self@.phase != Phase::OutputSet ==> r is Err && r->Err_0 == SessionError::InvalidState,
            self@.phase == Phase::OutputSet && pixels@.len() != self@.settings.frame_len() ==> r is Err
                && r->Err_0 is InvalidArgument,
    {
        proof {
            use_type_invariant(self);
        }
        match self.phase {
            Phase::OutputSet => {},
            _ => {
                return Err(SessionError::InvalidState);
            },
        }
        if pixels.len() % BYTES_PER_PIXEL != 0 {
            return Err(SessionError::InvalidArgument(Parameter::PixelStride));
        }
        if !self.settings.holds_frame(pixels.len()) {
            return Err(SessionError::InvalidArgument(Parameter::PixelLength));
        }
        if self.frame_count > 0 && timestamp.is_zero() {
            return Err(SessionError::InvalidArgument(Parameter::Timestamp));
        }
        Ok(
            FrameCall {
                index: self.frame_count,
                width: self.settings.width,
                height: self.settings.height,
                pixels,
                timestamp,
            },
        )
    }

    /// Books the engine's answer to `add_frame_rgba`.
    ///
    /// The checks of [`Session::request_frame`] are made again and fail in the
    /// same way, whatever the status. After them, status zero counts the
    /// frame and records its timestamp; any other status leaves the session
    /// as it was and comes back as `EngineFailure`.
    ///
    /// The frame index is a 32-bit number, so a session counts at most
    /// `u32::MAX` frames.
    pub fn add_frame(&mut self, pixels: &[u8], timestamp: Timestamp, status: i32) -> (r: Result<
        (),
        SessionError,
    >)
        requires
            old(self)@.frame_count() < u32::MAX,
        ensures
            final(self)@ == old(self)@.after_add_frame(pixels@, timestamp, status),
            r == old(self)@.add_frame_outcome(pixels@, timestamp, status),
            old(self)@.phase != Phase::OutputSet ==> r == Err::<(), SessionError>(
                SessionError::InvalidState,
            ),
            old(self)@.phase == Phase::OutputSet && pixels@.len() != old(self)@.settings.frame_len()
                ==> r is Err && r->Err_0 is InvalidArgument,
            r is Ok ==> final(self)@.frame_count() == old(self)@.frame_count() + 1,
            r is Ok ==> final(self)@.frames.last().index == old(self)@.frame_count(),
            r is Ok ==> final(self)@.last_timestamp() == Some(timestamp),
            r is Err ==> final(self)@ == old(self)@,
            old(self)@.valid() && final(self)@.valid(),
    {
        proof {
            use_type_invariant(&*self);
        }
        let call = match self.request_frame(pixels, timestamp) {
            Ok(call) => call,
            Err(e) => {
                return Err(e);
            },
        };
        if status != ENGINE_OK {
            return Err(SessionError::EngineFailure(status));
        }
        let ghost frames = self.frames@.push(call@);
        *self = Session {
            settings: self.settings,
            phase: self.phase,
            frame_count: self.frame_count + 1,
            last_timestamp: Some(timestamp),
            output: self.output,
            frames: Ghost(frames),
        };
        Ok(())
    }

    /// Says whether `finish` may reach the engine: only in phase `OutputSet`.
    pub fn request_finish(&self) -> (r: Result<(), SessionError>)
        ensures
            self@.valid(),
            r == self@.finish_request(),
            r is Ok <==> self@.phase == Phase::OutputSet,
            r is Err ==> r == Err::<(), SessionError>(SessionError::InvalidState),
    {
        proof {
            use_type_invariant(self);
        }
        match self.phase {
            Phase::OutputSet => Ok(()),
            _ => Err(SessionError::InvalidState),
        }
    }

    /// Books the engine's answer to `finish`.
    ///
    /// Fails with `InvalidState` unless the session is in phase `OutputSet`,
    /// and the session stays as it was. Else the session is `Finalized`,
    /// whatever the engine answered: status zero is success, and any other
    /// status comes back as `EngineFailure`. After a failure nobody knows
    /// how much the engine has written, so no second `finish` is allowed.
    pub fn finish(&mut self, status: i32) -> (r: Result<(), SessionError>)
        ensures
            final(self)@ == old(self)@.after_finish(),
            r == old(self)@.finish_outcome(status),
            old(self)@.phase != Phase::OutputSet ==> r == Err::<(), SessionError>(
                SessionError::InvalidState,
            ) && final(self)@ == old(self)@,
            old(self)@.phase == Phase::OutputSet ==> final(self)@.phase == Phase::Finalized,
            old(self)@.valid() && final(self)@.valid(),
    {
        proof {
            use_type_invariant(&*self);
        }
        match self.phase {
            Phase::OutputSet => {},
            _ => {
                return Err(SessionError::InvalidState);
            },
        }
        *self = Session {
            settings: self.settings,
            phase: Phase::Finalized,
            frame_count: self.frame_count,
            last_timestamp: self.last_timestamp,
            output: self.output,
            frames: self.frames,
        };
        check_status(status)
    }
}

} // verus!
