use jxr2mp4::{
    EncodeAction, EncodeEvent, EncodeSession, ExitState, Phase, PixelPlanes, Transcode,
    TranscodeError,
};

fn planes(width: i32, height: i32, cbytes: usize) -> PixelPlanes {
    let len = cbytes * (width as usize) * (height as usize) * 4;
    PixelPlanes::from_decoded(0, width, height, cbytes, vec![0u8; len]).unwrap()
}

fn encode_failure() -> TranscodeError {
    TranscodeError::EncodeProcessError { status: ExitState::Exited(1) }
}

/// Runs a transcode to its end with scripted decode and encode results;
/// returns the outcome and how many decodes and encodes were asked for.
fn drive(
    retry: usize,
    mut decodes: Vec<Result<PixelPlanes, TranscodeError>>,
    mut encodes: Vec<Result<(), TranscodeError>>,
) -> (Result<(), TranscodeError>, usize, usize) {
    decodes.reverse();
    encodes.reverse();
    let mut t = Transcode::new(retry);
    let (mut n_dec, mut n_enc) = (0, 0);
    loop {
        match t.phase() {
            Phase::Decoding => {
                n_dec += 1;
                t.on_decoded(decodes.pop().unwrap());
            }
            Phase::Encoding => {
                assert!(t.planes().is_some());
                n_enc += 1;
                t.on_encoded(encodes.pop().unwrap());
            }
            Phase::Succeeded | Phase::Failed(_) => break,
        }
    }
    assert!(t.planes().is_none());
    (t.into_outcome().unwrap(), n_dec, n_enc)
}

#[test]
fn two_failures_then_success() {
    let (r, n_dec, n_enc) = drive(
        2,
        vec![Ok(planes(100, 50, 4))],
        vec![Err(encode_failure()), Err(encode_failure()), Ok(())],
    );
    assert_eq!(r, Ok(()));
    assert_eq!(n_enc, 3);
    assert_eq!(n_dec, 1);
}

#[test]
fn unsupported_width_fails_at_once() {
    for retry in [0usize, 1, 5] {
        let (r, n_dec, n_enc) = drive(retry, vec![Ok(planes(4, 4, 3))], vec![]);
        assert_eq!(r, Err(TranscodeError::UnsupportedFormatError { cbytes: 3 }));
        assert_eq!(n_dec, 1);
        assert_eq!(n_enc, 0);
    }
}

#[test]
fn no_retry_means_one_attempt() {
    let (r, n_dec, n_enc) = drive(0, vec![Ok(planes(1, 1, 2))], vec![Err(encode_failure())]);
    assert_eq!(r, Err(encode_failure()));
    assert_eq!((n_dec, n_enc), (1, 1));
    let code = TranscodeError::DecodeError { code: 9 };
    let (r, n_dec, n_enc) = drive(0, vec![Err(code.clone())], vec![]);
    assert_eq!(r, Err(code));
    assert_eq!((n_dec, n_enc), (1, 0));
}

#[test]
fn retry_bound_gives_retry_plus_one_attempts() {
    let last = TranscodeError::WaitError { detail: "last".to_string() };
    let mut encodes: Vec<Result<(), TranscodeError>> = vec![Err(encode_failure()); 3];
    encodes.push(Err(last.clone()));
    let mut t = Transcode::new(3);
    t.on_decoded(Ok(planes(2, 3, 4)));
    for (i, e) in encodes.into_iter().enumerate() {
        assert!(matches!(t.phase(), Phase::Encoding));
        assert_eq!(t.attempts(), i);
        t.on_encoded(e);
    }
    assert_eq!(t.attempts(), 3);
    assert_eq!(t.retry(), 3);
    assert_eq!(t.into_outcome(), Some(Err(last)));
}

#[test]
fn decode_failures_are_retried_then_buffer_is_kept() {
    let (r, n_dec, n_enc) = drive(
        4,
        vec![
            Err(TranscodeError::DecodeError { code: 1 }),
            Err(TranscodeError::DecodeError { code: 2 }),
            Ok(planes(8, 8, 2)),
        ],
        vec![Err(encode_failure()), Ok(())],
    );
    assert_eq!(r, Ok(()));
    assert_eq!((n_dec, n_enc), (3, 2));
}

#[test]
fn decode_happens_once_across_encode_failures() {
    let (r, n_dec, n_enc) = drive(
        6,
        vec![Ok(planes(8, 8, 2))],
        vec![Err(encode_failure()); 7],
    );
    assert_eq!(r, Err(encode_failure()));
    assert_eq!((n_dec, n_enc), (1, 7));
}

#[test]
fn events_out_of_phase_change_nothing() {
    let mut t = Transcode::new(1);
    t.on_encoded(Ok(()));
    assert!(matches!(t.phase(), Phase::Decoding));
    t.on_decoded(Ok(planes(1, 1, 4)));
    t.on_decoded(Err(TranscodeError::DecodeError { code: 1 }));
    assert!(matches!(t.phase(), Phase::Encoding));
    assert_eq!(t.attempts(), 0);
    assert!(t.into_outcome().is_none());
}

#[test]
fn session_writes_every_frame_then_waits() {
    let mut s = EncodeSession::new();
    assert_eq!(s.action(), EncodeAction::Spawn);
    assert_eq!(s.step(EncodeEvent::Spawned), EncodeAction::WriteFrame);
    assert_eq!(s.step(EncodeEvent::FrameWritten), EncodeAction::WriteFrame);
    assert_eq!(s.step(EncodeEvent::FrameWritten), EncodeAction::CloseAndWait);
    let a = s.step(EncodeEvent::Exited { status: ExitState::Exited(0) });
    assert_eq!(a, EncodeAction::Finish);
    assert_eq!(s.into_outcome(), Some(Ok(())));
}

#[test]
fn session_reports_failed_exit() {
    let mut s = EncodeSession::new();
    s.step(EncodeEvent::Spawned);
    s.step(EncodeEvent::FrameWritten);
    s.step(EncodeEvent::FrameWritten);
    s.step(EncodeEvent::Exited { status: ExitState::Signaled(9) });
    let r = s.into_outcome();
    assert_eq!(
        r,
        Some(Err(TranscodeError::EncodeProcessError { status: ExitState::Signaled(9) }))
    );
}

#[test]
fn session_reports_spawn_write_and_wait_failures() {
    let mut s = EncodeSession::new();
    let a = s.step(EncodeEvent::SpawnFailed { detail: "no such file".to_string() });
    assert_eq!(a, EncodeAction::Finish);
    let spawn = TranscodeError::SpawnError { detail: "no such file".to_string() };
    assert_eq!(s.into_outcome(), Some(Err(spawn)));

    let mut s = EncodeSession::new();
    s.step(EncodeEvent::Spawned);
    let a = s.step(EncodeEvent::WriteFailed { detail: "broken pipe".to_string() });
    assert_eq!(a, EncodeAction::Finish);
    let write = TranscodeError::StreamWriteError { detail: "broken pipe".to_string() };
    assert_eq!(s.into_outcome(), Some(Err(write)));

    let mut s = EncodeSession::new();
    s.step(EncodeEvent::Spawned);
    s.step(EncodeEvent::FrameWritten);
    s.step(EncodeEvent::FrameWritten);
    s.step(EncodeEvent::WaitFailed { detail: "interrupted".to_string() });
    let wait = TranscodeError::WaitError { detail: "interrupted".to_string() };
    assert_eq!(s.into_outcome(), Some(Err(wait)));
}

#[test]
fn session_ignores_events_out_of_order() {
    let mut s = EncodeSession::new();
    assert_eq!(s.step(EncodeEvent::FrameWritten), EncodeAction::Spawn);
    s.step(EncodeEvent::Spawned);
    let a = s.step(EncodeEvent::Exited { status: ExitState::Exited(0) });
    assert_eq!(a, EncodeAction::WriteFrame);
    assert!(s.into_outcome().is_none());
}

#[test]
fn exit_success_is_code_zero_only() {
    assert!(ExitState::Exited(0).success());
    assert!(!ExitState::Exited(1).success());
    assert!(!ExitState::Signaled(0).success());
    assert!(!ExitState::Other(0).success());
    assert!(!ExitState::Undetermined.success());
}

#[test]
fn only_unsupported_format_is_fatal() {
    assert!(!TranscodeError::UnsupportedFormatError { cbytes: 3 }.is_retryable());
    assert!(TranscodeError::DecodeError { code: 1 }.is_retryable());
    assert!(TranscodeError::SpawnError { detail: String::new() }.is_retryable());
    assert!(encode_failure().is_retryable());
}
