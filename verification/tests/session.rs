use cap_recording::error::RecordingError;
use cap_recording::meta::{Dimensions, RecordingMeta};
use cap_recording::options::{
    camera_window_action, occluder_action, CameraWindowAction, CaptureTarget, OccluderAction,
    RecordingOptions,
};
use cap_recording::pipeline::{
    start_wait_step, stop_wait_step, CapturePipeline, PipelineStatus, WaitStep, START_TIMEOUT_MS,
    STOP_TIMEOUT_MS,
};
use cap_recording::session::{
    RecordingSession, SessionProgress, SessionState, StartFailure, StopReport,
};

const HD: Dimensions = Dimensions { width: 1920, height: 1080 };
const VGA: Dimensions = Dimensions { width: 640, height: 480 };

fn screen_only() -> RecordingOptions {
    RecordingOptions::new(CaptureTarget::Screen, None)
}

fn window_with_camera() -> RecordingOptions {
    RecordingOptions::new(CaptureTarget::Window(7), Some("FaceTime HD".to_string()))
}

#[test]
fn options_keep_what_they_were_made_with() {
    let options = window_with_camera();
    assert_eq!(options.capture_target(), CaptureTarget::Window(7));
    assert_eq!(options.camera_label(), Some(&"FaceTime HD".to_string()));
    assert!(options.wants_camera());
    assert_eq!(options.clone(), options);
    let plain = screen_only();
    assert_eq!(plain.capture_target(), CaptureTarget::Screen);
    assert_eq!(plain.camera_label(), None);
    assert!(!plain.wants_camera());
}

#[test]
fn camera_window_follows_the_camera_choice() {
    assert_eq!(camera_window_action(true, &screen_only()), CameraWindowAction::Close);
    assert_eq!(camera_window_action(false, &screen_only()), CameraWindowAction::Keep);
    assert_eq!(camera_window_action(false, &window_with_camera()), CameraWindowAction::Create);
    assert_eq!(camera_window_action(true, &window_with_camera()), CameraWindowAction::Keep);
}

#[test]
fn occluder_exists_only_for_a_captured_window() {
    assert_eq!(occluder_action(CaptureTarget::Window(1), false), OccluderAction::Create);
    assert_eq!(occluder_action(CaptureTarget::Window(1), true), OccluderAction::Show);
    assert_eq!(occluder_action(CaptureTarget::Screen, true), OccluderAction::Close);
    assert_eq!(occluder_action(CaptureTarget::Screen, false), OccluderAction::Close);
}

#[test]
fn pipeline_moves_through_its_states() {
    let launched = CapturePipeline::launched();
    assert_eq!(launched, CapturePipeline { status: PipelineStatus::Starting, dimensions: None });
    assert!(launched.is_live());
    let running = launched.acknowledge(Ok(HD));
    assert_eq!(running, CapturePipeline { status: PipelineStatus::Running, dimensions: Some(HD) });
    let flushing = running.signal_stop();
    assert_eq!(flushing.status, PipelineStatus::Flushing);
    assert!(flushing.is_live());
    let closed = flushing.settle(true);
    assert_eq!(closed, CapturePipeline { status: PipelineStatus::Closed, dimensions: Some(HD) });
    assert!(!closed.is_live());
    let died = flushing.settle(false);
    assert_eq!(died, CapturePipeline { status: PipelineStatus::Failed, dimensions: Some(HD) });
}

#[test]
fn pipeline_ignores_what_does_not_fit_its_state() {
    let launched = CapturePipeline::launched();
    let failed = launched.acknowledge(Err(RecordingError::DeviceUnavailable));
    assert_eq!(failed, CapturePipeline { status: PipelineStatus::Failed, dimensions: None });
    assert_eq!(failed.acknowledge(Ok(HD)), failed);
    assert_eq!(failed.signal_stop(), failed);
    assert_eq!(failed.settle(true), failed);
    let running = launched.acknowledge(Ok(HD));
    assert_eq!(running.acknowledge(Ok(VGA)), running);
    assert_eq!(running.settle(true), running);
    assert_eq!(launched.signal_stop().status, PipelineStatus::Flushing);
}

#[test]
fn start_wait_is_bounded() {
    assert_eq!(START_TIMEOUT_MS, 10000);
    assert_eq!(start_wait_step(0, false, None), WaitStep::KeepWaiting);
    assert_eq!(start_wait_step(9999, false, None), WaitStep::KeepWaiting);
    assert_eq!(
        start_wait_step(10000, false, None),
        WaitStep::ForceKill(RecordingError::EncoderLaunchFailure)
    );
    assert_eq!(start_wait_step(10000, true, None), WaitStep::Finished(Ok(())));
    assert_eq!(start_wait_step(3, true, None), WaitStep::Finished(Ok(())));
    assert_eq!(
        start_wait_step(3, true, Some(0)),
        WaitStep::Finished(Err(RecordingError::EncoderLaunchFailure))
    );
    assert_eq!(
        start_wait_step(3, false, Some(1)),
        WaitStep::Finished(Err(RecordingError::EncoderLaunchFailure))
    );
}

#[test]
fn stop_wait_is_bounded() {
    assert_eq!(STOP_TIMEOUT_MS, 5000);
    assert_eq!(stop_wait_step(0, None), WaitStep::KeepWaiting);
    assert_eq!(stop_wait_step(4999, None), WaitStep::KeepWaiting);
    assert_eq!(
        stop_wait_step(5000, None),
        WaitStep::ForceKill(RecordingError::EncoderRuntimeFailure)
    );
    assert_eq!(
        stop_wait_step(u64::MAX, None),
        WaitStep::ForceKill(RecordingError::EncoderRuntimeFailure)
    );
    assert_eq!(stop_wait_step(12, Some(0)), WaitStep::Finished(Ok(())));
    assert_eq!(stop_wait_step(9000, Some(0)), WaitStep::Finished(Ok(())));
    assert_eq!(
        stop_wait_step(12, Some(-9)),
        WaitStep::Finished(Err(RecordingError::EncoderRuntimeFailure))
    );
}

#[test]
fn session_states_are_active_or_terminal() {
    for state in [SessionState::Starting, SessionState::Recording, SessionState::Stopping] {
        assert!(state.is_active());
        assert!(!state.is_terminal());
    }
    for state in [SessionState::Stopped, SessionState::Failed] {
        assert!(!state.is_active());
        assert!(state.is_terminal());
    }
    assert!(!SessionState::Idle.is_active());
    assert!(!SessionState::Idle.is_terminal());
}

#[test]
fn start_launches_the_camera_only_if_chosen() {
    let plain = SessionProgress::start(false);
    assert_eq!(plain.state, SessionState::Starting);
    assert_eq!(plain.display, CapturePipeline::launched());
    assert_eq!(plain.camera, None);
    let both = SessionProgress::start(true);
    assert_eq!(both.camera, Some(CapturePipeline::launched()));
}

#[test]
fn start_then_stop_leaves_a_record() {
    let starting = SessionProgress::start(true);
    let (recording, started) = starting.started(Ok(HD), Some(Ok(VGA)));
    assert_eq!(started, Ok(()));
    assert_eq!(recording.state, SessionState::Recording);
    assert_eq!(recording.display.status, PipelineStatus::Running);
    let (stopping, stop) = recording.stop();
    assert_eq!(stop, Ok(()));
    assert_eq!(stopping.state, SessionState::Stopping);
    assert_eq!(stopping.camera.unwrap().status, PipelineStatus::Flushing);
    let (stopped, report) = stopping.stopped(Ok(()), Some(Ok(())));
    assert_eq!(stopped.state, SessionState::Stopped);
    assert_eq!(stopped.display.status, PipelineStatus::Closed);
    assert_eq!(stopped.camera.unwrap().status, PipelineStatus::Closed);
    assert_eq!(
        report,
        Ok(StopReport {
            display_ok: true,
            camera_ok: Some(true),
            meta: RecordingMeta { display: HD, camera: Some(VGA) },
        })
    );
}

#[test]
fn screen_only_session_records_no_camera() {
    let (recording, started) = SessionProgress::start(false).started(Ok(HD), None);
    assert_eq!(started, Ok(()));
    let (stopping, _) = recording.stop();
    let (_, report) = stopping.stopped(Ok(()), None);
    assert_eq!(
        report,
        Ok(StopReport {
            display_ok: true,
            camera_ok: None,
            meta: RecordingMeta { display: HD, camera: None },
        })
    );
}

#[test]
fn stray_camera_report_is_not_looked_at() {
    let (recording, started) =
        SessionProgress::start(false).started(Ok(HD), Some(Err(RecordingError::DeviceUnavailable)));
    assert_eq!(started, Ok(()));
    assert_eq!(recording.camera, None);
    let (stopping, _) = recording.stop();
    let (_, report) = stopping.stopped(Ok(()), Some(Ok(())));
    assert_eq!(report.unwrap().meta, RecordingMeta { display: HD, camera: None });
}

#[test]
fn camera_failure_while_recording_leaves_the_display() {
    let (recording, _) = SessionProgress::start(true).started(Ok(HD), Some(Ok(VGA)));
    let (stopping, _) = recording.stop();
    let (stopped, report) =
        stopping.stopped(Ok(()), Some(Err(RecordingError::EncoderRuntimeFailure)));
    assert_eq!(stopped.state, SessionState::Stopped);
    assert_eq!(stopped.camera.unwrap().status, PipelineStatus::Failed);
    assert_eq!(
        report,
        Ok(StopReport {
            display_ok: true,
            camera_ok: Some(false),
            meta: RecordingMeta { display: HD, camera: None },
        })
    );
    let (_, missing) = stopping.stopped(Ok(()), None);
    assert_eq!(missing.unwrap().camera_ok, Some(false));
}

#[test]
fn display_failure_while_recording_is_reported_with_the_record() {
    let (recording, _) = SessionProgress::start(true).started(Ok(HD), Some(Ok(VGA)));
    let (stopping, _) = recording.stop();
    let (stopped, report) =
        stopping.stopped(Err(RecordingError::EncoderRuntimeFailure), Some(Ok(())));
    assert_eq!(stopped.state, SessionState::Stopped);
    assert_eq!(stopped.display.status, PipelineStatus::Failed);
    assert_eq!(
        report,
        Ok(StopReport {
            display_ok: false,
            camera_ok: Some(true),
            meta: RecordingMeta { display: HD, camera: Some(VGA) },
        })
    );
}

#[test]
fn failed_display_start_stops_the_camera() {
    let (failed, result) = SessionProgress::start(true)
        .started(Err(RecordingError::EncoderLaunchFailure), Some(Ok(VGA)));
    assert_eq!(failed.state, SessionState::Failed);
    assert_eq!(failed.display.status, PipelineStatus::Failed);
    assert_eq!(failed.camera.unwrap().status, PipelineStatus::Flushing);
    assert_eq!(
        result,
        Err(StartFailure {
            error: RecordingError::EncoderLaunchFailure,
            stop_display: false,
            stop_camera: true,
        })
    );
}

#[test]
fn failed_camera_start_stops_the_display() {
    let (failed, result) =
        SessionProgress::start(true).started(Ok(HD), Some(Err(RecordingError::DeviceUnavailable)));
    assert_eq!(failed.state, SessionState::Failed);
    assert_eq!(failed.display.status, PipelineStatus::Flushing);
    assert_eq!(
        result,
        Err(StartFailure {
            error: RecordingError::DeviceUnavailable,
            stop_display: true,
            stop_camera: false,
        })
    );
}

#[test]
fn display_error_comes_first_when_both_fail() {
    let (_, result) = SessionProgress::start(true).started(
        Err(RecordingError::DeviceUnavailable),
        Some(Err(RecordingError::EncoderLaunchFailure)),
    );
    assert_eq!(
        result,
        Err(StartFailure {
            error: RecordingError::DeviceUnavailable,
            stop_display: false,
            stop_camera: false,
        })
    );
}

#[test]
fn missing_camera_report_counts_as_unavailable() {
    let (failed, result) = SessionProgress::start(true).started(Ok(HD), None);
    assert_eq!(failed.state, SessionState::Failed);
    assert_eq!(
        result,
        Err(StartFailure {
            error: RecordingError::DeviceUnavailable,
            stop_display: true,
            stop_camera: false,
        })
    );
}

#[test]
fn stop_outside_recording_is_not_in_progress() {
    let starting = SessionProgress::start(false);
    assert_eq!(starting.stop(), (starting, Err(RecordingError::NotInProgress)));
    let (recording, _) = starting.started(Ok(HD), None);
    let (stopping, _) = recording.stop();
    assert_eq!(stopping.stop(), (stopping, Err(RecordingError::NotInProgress)));
    let (stopped, _) = stopping.stopped(Ok(()), None);
    assert_eq!(stopped.stop(), (stopped, Err(RecordingError::NotInProgress)));
}

#[test]
fn reports_outside_their_state_change_nothing() {
    let starting = SessionProgress::start(false);
    assert_eq!(starting.stopped(Ok(()), None), (starting, Err(RecordingError::NotInProgress)));
    let (recording, _) = starting.started(Ok(HD), None);
    let not_starting = StartFailure {
        error: RecordingError::NotInProgress,
        stop_display: false,
        stop_camera: false,
    };
    assert_eq!(recording.started(Ok(VGA), None), (recording, Err(not_starting)));
    assert_eq!(recording.stopped(Ok(()), None), (recording, Err(RecordingError::NotInProgress)));
    let (failed, _) = starting.started(Err(RecordingError::DeviceUnavailable), None);
    assert_eq!(failed.started(Ok(HD), None), (failed, Err(not_starting)));
}

#[test]
fn session_carries_its_identity_through() {
    let mut session = RecordingSession::start(
        "abc".to_string(),
        "/r/abc.cap".to_string(),
        window_with_camera(),
        1234,
    );
    assert_eq!(session.id(), "abc");
    assert_eq!(session.directory(), "/r/abc.cap");
    assert_eq!(session.options(), &window_with_camera());
    assert_eq!(session.start_time_ms(), 1234);
    assert_eq!(session.state(), SessionState::Starting);
    assert!(session.is_active());
    assert_eq!(session.display_path(), "/r/abc.cap/content/display.mp4");
    assert_eq!(session.camera_path(), Some("/r/abc.cap/content/camera.mp4".to_string()));
    assert_eq!(session.started(Ok(HD), Some(Ok(VGA))), Ok(()));
    assert_eq!(session.state(), SessionState::Recording);
    assert_eq!(session.stop(), Ok(()));
    assert_eq!(session.progress().display.status, PipelineStatus::Flushing);
    let report = session.stopped(Ok(()), Some(Ok(()))).unwrap();
    assert_eq!(report.meta, RecordingMeta { display: HD, camera: Some(VGA) });
    assert_eq!(session.state(), SessionState::Stopped);
    assert!(!session.is_active());
    assert_eq!(session.id(), "abc");
    assert_eq!(session.directory(), "/r/abc.cap");
}

#[test]
fn session_without_camera_has_no_camera_file() {
    let mut session =
        RecordingSession::start("abc".to_string(), "/r/abc.cap".to_string(), screen_only(), 0);
    assert_eq!(session.camera_path(), None);
    assert_eq!(session.stop(), Err(RecordingError::NotInProgress));
    assert_eq!(session.state(), SessionState::Starting);
}
