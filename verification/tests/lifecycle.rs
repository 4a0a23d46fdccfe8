use gifski_session::error::Parameter;
use gifski_session::error::SessionError;
use gifski_session::model::Phase;
use gifski_session::session::Session;
use gifski_session::timestamp::Timestamp;

fn seconds(t: f64) -> Timestamp {
    Timestamp::from_bits(t.to_bits())
}

fn created(width: u32, height: u32) -> Session {
    match Session::new(width, height, 90, false, -1) {
        Ok(session) => session,
        Err(e) => panic!("settings refused: {:?}", e),
    }
}

fn with_output(width: u32, height: u32) -> Session {
    let mut session = created(width, height);
    assert_eq!(session.set_output("/tmp/out.gif", 0), Ok(()));
    session
}

#[test]
fn new_session_starts_created_without_frames() {
    let session = created(10, 10);
    assert_eq!(session.phase(), Phase::Created);
    assert_eq!(session.frame_count(), 0);
    assert_eq!(session.last_timestamp(), None);
    assert!(session.engine_open());
    let settings = session.settings();
    assert_eq!(settings.width, 10);
    assert_eq!(settings.height, 10);
    assert_eq!(settings.quality, 90);
    assert!(!settings.fast);
    assert_eq!(settings.repeat, -1);
}

#[test]
fn settings_reach_the_session_unchanged() {
    let session = match Session::new(640, 480, 1, true, 7) {
        Ok(session) => session,
        Err(e) => panic!("settings refused: {:?}", e),
    };
    let settings = session.settings();
    assert_eq!(settings.width, 640);
    assert_eq!(settings.height, 480);
    assert_eq!(settings.quality, 1);
    assert!(settings.fast);
    assert_eq!(settings.repeat, 7);
}

#[test]
fn defaults_are_quality_90_slow_and_no_loop() {
    let session = match Session::with_defaults(3, 2) {
        Ok(session) => session,
        Err(e) => panic!("settings refused: {:?}", e),
    };
    let settings = session.settings();
    assert_eq!(settings.width, 3);
    assert_eq!(settings.height, 2);
    assert_eq!(settings.quality, 90);
    assert!(!settings.fast);
    assert_eq!(settings.repeat, -1);
    assert_eq!(session.phase(), Phase::Created);
}

#[test]
fn defaults_still_refuse_empty_dimensions() {
    assert_eq!(
        Session::with_defaults(0, 2).err(),
        Some(SessionError::InvalidArgument(Parameter::Width))
    );
    assert_eq!(
        Session::with_defaults(2, 0).err(),
        Some(SessionError::InvalidArgument(Parameter::Height))
    );
    assert_eq!(
        Session::with_defaults(0, 0).err(),
        Some(SessionError::InvalidArgument(Parameter::Width))
    );
}

#[test]
fn full_run_of_two_frames() {
    let mut session = created(10, 10);
    let buffer = vec![0u8; 400];

    assert_eq!(session.request_output("/tmp/out.gif"), Ok(b"/tmp/out.gif\0".to_vec()));
    assert_eq!(session.set_output("/tmp/out.gif", 0), Ok(()));
    assert_eq!(session.phase(), Phase::OutputSet);

    let first = match session.request_frame(&buffer, seconds(0.0)) {
        Ok(call) => call,
        Err(e) => panic!("first frame refused: {:?}", e),
    };
    assert_eq!(first.index, 0);
    assert_eq!(session.add_frame(&buffer, seconds(0.0), 0), Ok(()));
    assert_eq!(session.frame_count(), 1);

    let second = match session.request_frame(&buffer, seconds(0.04)) {
        Ok(call) => call,
        Err(e) => panic!("second frame refused: {:?}", e),
    };
    assert_eq!(second.index, 1);
    assert_eq!(session.add_frame(&buffer, seconds(0.04), 0), Ok(()));
    assert_eq!(session.frame_count(), 2);
    assert_eq!(session.last_timestamp(), Some(seconds(0.04)));

    assert_eq!(session.request_finish(), Ok(()));
    assert_eq!(session.finish(0), Ok(()));
    assert_eq!(session.phase(), Phase::Finalized);
    assert!(!session.engine_open());

    assert_eq!(session.request_output("/tmp/other.gif"), Err(SessionError::InvalidState));
    assert_eq!(session.set_output("/tmp/other.gif", 0), Err(SessionError::InvalidState));
    assert_eq!(
        session.request_frame(&buffer, seconds(0.08)).err(),
        Some(SessionError::InvalidState)
    );
    assert_eq!(session.add_frame(&buffer, seconds(0.08), 0), Err(SessionError::InvalidState));
    assert_eq!(session.request_finish(), Err(SessionError::InvalidState));
    assert_eq!(session.finish(0), Err(SessionError::InvalidState));
    assert_eq!(session.frame_count(), 2);
    assert_eq!(session.phase(), Phase::Finalized);
}

#[test]
fn frame_before_output_is_invalid_state() {
    let mut session = created(5, 5);
    let buffer = vec![7u8; 100];
    assert_eq!(
        session.request_frame(&buffer, seconds(0.04)).err(),
        Some(SessionError::InvalidState)
    );
    assert_eq!(session.add_frame(&buffer, seconds(0.04), 0), Err(SessionError::InvalidState));
    assert_eq!(session.frame_count(), 0);
    assert_eq!(session.phase(), Phase::Created);
    assert_eq!(session.last_timestamp(), None);
}

#[test]
fn quality_out_of_range_gives_no_session() {
    let outcome = Session::new(5, 5, 200, false, -1);
    assert_eq!(outcome.err(), Some(SessionError::InvalidArgument(Parameter::Quality)));
}

#[test]
fn state_is_checked_before_arguments() {
    let mut session = created(5, 5);
    let short = vec![0u8; 3];
    assert_eq!(session.add_frame(&short, seconds(1.0), 0), Err(SessionError::InvalidState));
    assert_eq!(session.set_output("out.gif", 0), Ok(()));
    assert_eq!(session.finish(0), Ok(()));
    assert_eq!(session.add_frame(&short, seconds(1.0), 0), Err(SessionError::InvalidState));
    assert_eq!(session.set_output("nul\0inside", 0), Err(SessionError::InvalidState));
}

#[test]
fn finish_before_output_is_invalid_state() {
    let mut session = created(4, 4);
    assert_eq!(session.request_finish(), Err(SessionError::InvalidState));
    assert_eq!(session.finish(0), Err(SessionError::InvalidState));
    assert_eq!(session.phase(), Phase::Created);
    assert!(session.engine_open());
}

#[test]
fn finish_without_frames_is_allowed() {
    let mut session = with_output(4, 4);
    assert_eq!(session.request_finish(), Ok(()));
    assert_eq!(session.finish(0), Ok(()));
    assert_eq!(session.phase(), Phase::Finalized);
    assert_eq!(session.frame_count(), 0);
}

#[test]
fn finish_twice_is_invalid_state() {
    let mut session = with_output(4, 4);
    assert_eq!(session.finish(0), Ok(()));
    assert_eq!(session.finish(0), Err(SessionError::InvalidState));
    assert_eq!(session.finish(5), Err(SessionError::InvalidState));
}

#[test]
fn failed_finish_still_ends_the_session() {
    let mut session = with_output(2, 2);
    let buffer = vec![0u8; 16];
    assert_eq!(session.add_frame(&buffer, seconds(0.0), 0), Ok(()));
    assert_eq!(session.finish(11), Err(SessionError::EngineFailure(11)));
    assert_eq!(session.phase(), Phase::Finalized);
    assert!(!session.engine_open());
    assert_eq!(session.frame_count(), 1);
    assert_eq!(session.finish(0), Err(SessionError::InvalidState));
    assert_eq!(session.add_frame(&buffer, seconds(1.0), 0), Err(SessionError::InvalidState));
}

#[test]
fn refused_finish_ignores_the_status() {
    let mut session = created(2, 2);
    assert_eq!(session.finish(13), Err(SessionError::InvalidState));
    assert_eq!(session.phase(), Phase::Created);
}

#[test]
fn engine_stays_open_until_finish() {
    let mut session = created(2, 2);
    assert!(session.engine_open());
    assert_eq!(session.set_output("a.gif", 0), Ok(()));
    assert!(session.engine_open());
    assert_eq!(session.add_frame(&[0u8; 16], seconds(0.0), 0), Ok(()));
    assert!(session.engine_open());
    assert_eq!(session.finish(0), Ok(()));
    assert!(!session.engine_open());
}
