//! What holds of a session whatever its driver does.
//!
//! The laws are stated over [`SessionView`], in the words of the spec
//! functions that the contracts of [`crate::session::Session`] use, so each
//! of them holds of every executable session.

use vstd::prelude::*;

use crate::destination::terminated_round_trip;
use crate::error::Parameter;
use crate::error::SessionError;
use crate::error::ENGINE_OK;
use crate::model::FrameView;
use crate::model::Phase;
use crate::model::SessionView;
use crate::settings::Settings;
use crate::timestamp::Timestamp;

verus! {

/// A session created with valid settings is valid, in phase `Created`, and
/// has accepted no frame.
pub proof fn created_session_is_fresh(settings: Settings)
    requires
        settings.valid(),
    ensures
        SessionView::created(settings).valid(),
        SessionView::created(settings).phase == Phase::Created,
        SessionView::created(settings).frame_count() == 0,
        SessionView::created(settings).last_timestamp() is None,
{
}

/// `set_output` keeps a valid session valid, whatever the destination and the
/// engine's answer.
pub proof fn set_output_keeps_valid(s: SessionView, destination: Seq<u8>, status: i32)
    requires
        s.valid(),
    ensures
        s.after_set_output(destination, status).valid(),
{
    if s.output_request(destination) is Ok {
        terminated_round_trip(destination);
    }
}

/// `add_frame` keeps a valid session valid, whatever the buffer, the
/// timestamp and the engine's answer.
pub proof fn add_frame_keeps_valid(s: SessionView, pixels: Seq<u8>, timestamp: Timestamp, status: i32)
    requires
        s.valid(),
    ensures
        s.after_add_frame(pixels, timestamp, status).valid(),
{
}

/// `finish` keeps a valid session valid.
pub proof fn finish_keeps_valid(s: SessionView)
    requires
        s.valid(),
    ensures
        s.after_finish().valid(),
{
}

/// The settings never change.
pub proof fn settings_are_fixed(
    s: SessionView,
    destination: Seq<u8>,
    pixels: Seq<u8>,
    timestamp: Timestamp,
    status: i32,
)
    ensures
        s.after_set_output(destination, status).settings == s.settings,
        s.after_add_frame(pixels, timestamp, status).settings == s.settings,
        s.after_finish().settings == s.settings,
{
}

/// The frame count goes up by one when `add_frame` succeeds and changes on
/// no other occasion: not when `add_frame` fails, and not in `set_output` or
/// `finish`.
pub proof fn frame_count_follows_accepted_frames(
    s: SessionView,
    destination: Seq<u8>,
    pixels: Seq<u8>,
    timestamp: Timestamp,
    status: i32,
)
    ensures
        s.add_frame_outcome(pixels, timestamp, status) is Ok ==> s.after_add_frame(
            pixels,
            timestamp,
            status,
        ).frame_count() == s.frame_count() + 1,
        s.add_frame_outcome(pixels, timestamp, status) is Err ==> s.after_add_frame(
            pixels,
            timestamp,
            status,
        ) == s,
        s.after_set_output(destination, status).frames == s.frames,
        s.after_finish().frames == s.frames,
{
}

/// A failed operation leaves the session as it was, with one exception: a
/// `finish` that reached the engine ends the session although the engine
/// reported a failure.
pub proof fn failure_changes_nothing(
    s: SessionView,
    destination: Seq<u8>,
    pixels: Seq<u8>,
    timestamp: Timestamp,
    status: i32,
)
    ensures
        s.set_output_outcome(destination, status) is Err ==> s.after_set_output(destination, status)
            == s,
        s.add_frame_outcome(pixels, timestamp, status) is Err ==> s.after_add_frame(
            pixels,
            timestamp,
            status,
        ) == s,
        s.finish_request() is Err ==> s.after_finish() == s,
        s.finish_request() is Ok ==> s.after_finish().phase == Phase::Finalized,
{
}

/// Nothing reaches the engine without the session's leave: where the request
/// is refused, the operation fails with the request's error whatever status
/// is reported, and the session stays as it was.
pub proof fn refused_request_books_nothing(
    s: SessionView,
    destination: Seq<u8>,
    pixels: Seq<u8>,
    timestamp: Timestamp,
    status: i32,
)
    ensures
        s.output_request(destination) matches Err(e) ==> s.set_output_outcome(destination, status)
            == Err::<(), SessionError>(e) && s.after_set_output(destination, status) == s,
        s.frame_request(pixels, timestamp) matches Err(e) ==> s.add_frame_outcome(
            pixels,
            timestamp,
            status,
        ) == Err::<(), SessionError>(e) && s.after_add_frame(pixels, timestamp, status) == s,
        s.finish_request() matches Err(e) ==> s.finish_outcome(status) == Err::<(), SessionError>(e)
            && s.after_finish() == s,
{
}

/// An engine failure comes back with the engine's status code, unchanged.
pub proof fn engine_code_is_preserved(
    s: SessionView,
    destination: Seq<u8>,
    pixels: Seq<u8>,
    timestamp: Timestamp,
    status: i32,
)
    requires
        status != ENGINE_OK,
    ensures
        s.output_request(destination) is Ok ==> s.set_output_outcome(destination, status) == Err::<
            (),
            SessionError,
        >(SessionError::EngineFailure(status)),
        s.frame_request(pixels, timestamp) is Ok ==> s.add_frame_outcome(pixels, timestamp, status)
            == Err::<(), SessionError>(SessionError::EngineFailure(status)),
        s.finish_request() is Ok ==> s.finish_outcome(status) == Err::<(), SessionError>(
            SessionError::EngineFailure(status),
        ),
{
}

/// Before an output is set, frames are refused and so is finishing.
pub proof fn created_session_takes_only_an_output(
    s: SessionView,
    pixels: Seq<u8>,
    timestamp: Timestamp,
    status: i32,
)
    requires
        s.phase == Phase::Created,
    ensures
        s.add_frame_outcome(pixels, timestamp, status) == Err::<(), SessionError>(
            SessionError::InvalidState,
        ),
        s.after_add_frame(pixels, timestamp, status) == s,
        s.finish_outcome(status) == Err::<(), SessionError>(SessionError::InvalidState),
        s.after_finish() == s,
{
}

/// The output is set once: after a `set_output` that succeeded, every further
/// `set_output` fails with `InvalidState` and changes nothing.
pub proof fn output_is_set_once(
    s: SessionView,
    first: Seq<u8>,
    first_status: i32,
    second: Seq<u8>,
    second_status: i32,
)
    requires
        s.set_output_outcome(first, first_status) is Ok,
    ensures
        s.after_set_output(first, first_status).set_output_outcome(second, second_status) == Err::<
            (),
            SessionError,
        >(SessionError::InvalidState),
        s.after_set_output(first, first_status).after_set_output(second, second_status)
            == s.after_set_output(first, first_status),
{
}

/// A buffer of the wrong length is never accepted: `add_frame` fails and the
/// frame count stays. The failure is `InvalidArgument` in phase `OutputSet`,
/// the only phase that takes frames, and `InvalidState` in the others.
pub proof fn wrong_length_is_refused(s: SessionView, pixels: Seq<u8>, timestamp: Timestamp, status: i32)
    requires
        pixels.len() != s.settings.frame_len(),
    ensures
        s.add_frame_outcome(pixels, timestamp, status) is Err,
        s.phase == Phase::OutputSet ==> (s.add_frame_outcome(pixels, timestamp, status) matches Err(
            SessionError::InvalidArgument(p),
        ) && (p == Parameter::PixelStride || p == Parameter::PixelLength)),
        s.phase != Phase::OutputSet ==> s.add_frame_outcome(pixels, timestamp, status) == Err::<
            (),
            SessionError,
        >(SessionError::InvalidState),
        s.after_add_frame(pixels, timestamp, status).frame_count() == s.frame_count(),
{
}

/// Only the first frame may be shown at time zero. With no frame accepted
/// yet, a frame of the right length is accepted whatever its timestamp,
/// zero included; after that, a frame with timestamp zero is refused with
/// `InvalidArgument`.
pub proof fn only_first_frame_may_start_at_zero(
    s: SessionView,
    first: Seq<u8>,
    first_timestamp: Timestamp,
    second: Seq<u8>,
    second_timestamp: Timestamp,
    second_status: i32,
)
    requires
        s.phase == Phase::OutputSet,
        s.frame_count() == 0,
        first.len() == s.settings.frame_len(),
        second.len() == s.settings.frame_len(),
        second_timestamp.zero(),
    ensures
        s.add_frame_outcome(first, first_timestamp, ENGINE_OK) is Ok,
        s.after_add_frame(first, first_timestamp, ENGINE_OK).add_frame_outcome(
            second,
            second_timestamp,
            second_status,
        ) == Err::<(), SessionError>(SessionError::InvalidArgument(Parameter::Timestamp)),
{
    assert(s.settings.frame_len() % 4 == 0);
}

/// Once a session is `Finalized`, every operation fails with `InvalidState`
/// and changes nothing.
pub proof fn finalized_is_final(
    s: SessionView,
    destination: Seq<u8>,
    pixels: Seq<u8>,
    timestamp: Timestamp,
    status: i32,
)
    requires
        s.phase == Phase::Finalized,
    ensures
        s.set_output_outcome(destination, status) == Err::<(), SessionError>(
            SessionError::InvalidState,
        ),
        s.add_frame_outcome(pixels, timestamp, status) == Err::<(), SessionError>(
            SessionError::InvalidState,
        ),
        s.finish_outcome(status) == Err::<(), SessionError>(SessionError::InvalidState),
        s.after_set_output(destination, status) == s,
        s.after_add_frame(pixels, timestamp, status) == s,
        s.after_finish() == s,
{
}

/// Nothing follows `finish`. After a `finish` that reached the engine,
/// whether the engine reported success or a failure, every operation fails
/// with `InvalidState`.
pub proof fn nothing_follows_finish(
    s: SessionView,
    finish_status: i32,
    destination: Seq<u8>,
    pixels: Seq<u8>,
    timestamp: Timestamp,
    status: i32,
)
    requires
        s.finish_outcome(finish_status) is Ok || s.finish_outcome(finish_status) matches Err(
            SessionError::EngineFailure(_),
        ),
    ensures
        s.after_finish().phase == Phase::Finalized,
        s.after_finish().set_output_outcome(destination, status) == Err::<(), SessionError>(
            SessionError::InvalidState,
        ),
        s.after_finish().add_frame_outcome(pixels, timestamp, status) == Err::<(), SessionError>(
            SessionError::InvalidState,
        ),
        s.after_finish().finish_outcome(status) == Err::<(), SessionError>(
            SessionError::InvalidState,
        ),
{
}

/// One frame offered to a session: the pixel buffer and the timestamp.
pub struct FrameInput {
    /// The RGBA8 pixel buffer.
    pub pixels: Seq<u8>,
    /// When the frame is shown.
    pub timestamp: Timestamp,
}

/// The state after `add_frame` was called for each of `inputs` in turn, with
/// the engine answering success every time.
pub open spec fn after_frames(s: SessionView, inputs: Seq<FrameInput>) -> SessionView
    decreases inputs.len(),
{
    if inputs.len() == 0 {
        s
    } else {
        after_frames(s, inputs.drop_last()).after_add_frame(
            inputs.last().pixels,
            inputs.last().timestamp,
            ENGINE_OK,
        )
    }
}

/// What the `k`-th `add_frame` of such a run hands to the engine.
pub open spec fn request_in_run(s: SessionView, inputs: Seq<FrameInput>, k: int) -> Result<
    FrameView,
    SessionError,
>
    recommends
        0 <= k < inputs.len(),
{
    after_frames(s, inputs.take(k)).frame_request(inputs[k].pixels, inputs[k].timestamp)
}

/// Whether `request` hands the engine the frame `input` under index `index`.
pub open spec fn numbered(request: Result<FrameView, SessionError>, input: FrameInput, index: int) -> bool {
    &&& request matches Ok(call)
    &&& call.index == index
    &&& call.pixels == input.pixels
    &&& call.timestamp == input.timestamp
}

/// Whether every `add_frame` of such a run succeeds.
pub open spec fn all_accepted(s: SessionView, inputs: Seq<FrameInput>) -> bool {
    forall|k: int| 0 <= k < inputs.len() ==> (#[trigger] request_in_run(s, inputs, k)) is Ok
}

/// Frames are numbered in the order in which they are accepted. After `n`
/// calls of `add_frame` that all succeed, the frame count has gone up by
/// `n`, the `k`-th of the calls handed index `count + k` to the engine, with
/// `count` the frame count at the start, and the session holds the frames as
/// they were given. From a session without frames the indices are
/// `0, 1, ..., n - 1`.
pub proof fn frames_are_numbered_in_order(s: SessionView, inputs: Seq<FrameInput>)
    requires
        all_accepted(s, inputs),
    ensures
        after_frames(s, inputs).frame_count() == s.frame_count() + inputs.len(),
        after_frames(s, inputs).phase == s.phase,
        after_frames(s, inputs).settings == s.settings,
        after_frames(s, inputs).frames.take(s.frames.len() as int) == s.frames,
        forall|k: int|
            0 <= k < inputs.len() ==> numbered(
                #[trigger] request_in_run(s, inputs, k),
                inputs[k],
                s.frame_count() + k,
            ),
        forall|k: int|
            0 <= k < inputs.len() ==> Ok::<FrameView, SessionError>(
                after_frames(s, inputs).frames[s.frame_count() + k],
            ) == #[trigger] request_in_run(s, inputs, k),
    decreases inputs.len(),
{
    if inputs.len() > 0 {
        let n = inputs.len() as int;
        let head = inputs.drop_last();
        assert forall|k: int| 0 <= k < head.len() implies (#[trigger] request_in_run(
            s,
            head,
            k,
        )) == request_in_run(s, inputs, k) by {
            assert(head.take(k) == inputs.take(k));
        }
        frames_are_numbered_in_order(s, head);
        assert(inputs.take(n - 1) == head);
        assert(request_in_run(s, inputs, n - 1) is Ok);
        assert forall|k: int| 0 <= k < n implies numbered(
            #[trigger] request_in_run(s, inputs, k),
            inputs[k],
            s.frame_count() + k,
        ) && Ok::<FrameView, SessionError>(
            after_frames(s, inputs).frames[s.frame_count() + k],
        ) == request_in_run(s, inputs, k) by {
            if k < n - 1 {
                assert(request_in_run(s, head, k) == request_in_run(s, inputs, k));
            }
        }
    }
}

} // verus!
