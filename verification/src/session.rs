//! One recording attempt and the states it moves through.
//!
//! A session starts its pipelines, records, stops them and leaves a metadata
//! record. The session itself touches no process: the caller launches and
//! stops the encoders and reports what happened; the session says which state
//! follows and what the caller owes next.

use vstd::prelude::*;
use crate::error::RecordingError;
use crate::layout::{camera_path, display_path, spec_camera_path, spec_display_path};
use crate::meta::{Dimensions, RecordingMeta};
use crate::options::{RecordingOptions, RecordingOptionsView};
use crate::pipeline::{CapturePipeline, PipelineStatus};

verus! {

/// Where a recorder or a session stands.
#[derive(Clone, Copy, Debug, PartialEq, Eq, Structural)]
pub enum SessionState {
    /// No session exists.
    Idle,
    /// The pipelines were launched and have not all reported.
    Starting,
    /// Every pipeline is capturing.
    Recording,
    /// The end of the streams was signalled.
    Stopping,
    /// The pipelines are gone and the metadata record is known.
    Stopped,
    /// A pipeline did not start. Reached from `Starting` only.
    Failed,
}

impl SessionState {
    /// The states in which a session holds the recorder.
    pub open spec fn spec_is_active(self) -> bool {
        self == SessionState::Starting || self == SessionState::Recording || self
            == SessionState::Stopping
    }

    /// The states that a session never leaves.
    pub open spec fn spec_is_terminal(self) -> bool {
        self == SessionState::Stopped || self == SessionState::Failed
    }

    pub fn is_active(&self) -> (active: bool)
        ensures
            active == self.spec_is_active(),
    {
        matches!(self, SessionState::Starting | SessionState::Recording | SessionState::Stopping)
    }

    pub fn is_terminal(&self) -> (terminal: bool)
        ensures
            terminal == self.spec_is_terminal(),
    {
        matches!(self, SessionState::Stopped | SessionState::Failed)
    }
}

/// Why a session did not reach `Recording`, and which encoders are still
/// running and have to be stopped by the caller.
#[derive(Clone, Copy, Debug, PartialEq, Eq)]
pub struct StartFailure {
    /// The error of the first pipeline that failed, the display before the camera.
    pub error: RecordingError,
    pub stop_display: bool,
    pub stop_camera: bool,
}

/// What a stopped session recorded.
#[derive(Clone, Copy, Debug, PartialEq, Eq)]
pub struct StopReport {
    /// The display encoder left cleanly.
    pub display_ok: bool,
    /// The camera encoder left cleanly; `None` without a camera pipeline.
    pub camera_ok: Option<bool>,
    /// The record to write beside the capture files.
    pub meta: RecordingMeta,
}

/// The changing part of a session: its state and its pipelines.
#[derive(Clone, Copy, Debug, PartialEq, Eq)]
pub struct SessionProgress {
    pub state: SessionState,
    pub display: CapturePipeline,
    pub camera: Option<CapturePipeline>,
}

/// The report of a camera pipeline's start. A camera pipeline without a
/// report counts as one whose device could not be opened.
pub open spec fn spec_camera_start(report: Option<Result<Dimensions, RecordingError>>) -> Result<
    Dimensions,
    RecordingError,
> {
    match report {
        Some(result) => result,
        None => Err(RecordingError::DeviceUnavailable),
    }
}

/// A pipeline in one of the given two states.
pub open spec fn spec_status_in(pipeline: CapturePipeline, a: PipelineStatus, b: PipelineStatus) -> bool {
    pipeline.status == a || pipeline.status == b
}

impl SessionProgress {
    /// Each state goes with its pipeline states, and a pipeline that has
    /// captured knows its frame size.
    pub open spec fn spec_wf(self) -> bool {
        let camera = self.camera;
        match self.state {
            SessionState::Idle => false,
            SessionState::Starting => {
                &&& self.display == CapturePipeline::spec_launched()
                &&& camera matches Some(c) ==> c == CapturePipeline::spec_launched()
            },
            SessionState::Recording => {
                &&& self.display.status == PipelineStatus::Running
                &&& self.display.dimensions is Some
                &&& camera matches Some(c) ==> c.status == PipelineStatus::Running
                    && c.dimensions is Some
            },
            SessionState::Stopping => {
                &&& self.display.status == PipelineStatus::Flushing
                &&& self.display.dimensions is Some
                &&& camera matches Some(c) ==> c.status == PipelineStatus::Flushing
                    && c.dimensions is Some
            },
            SessionState::Stopped => {
                &&& spec_status_in(self.display, PipelineStatus::Closed, PipelineStatus::Failed)
                &&& self.display.dimensions is Some
                &&& camera matches Some(c) ==> spec_status_in(
                    c,
                    PipelineStatus::Closed,
                    PipelineStatus::Failed,
                ) && c.dimensions is Some
            },
            SessionState::Failed => {
                &&& spec_status_in(self.display, PipelineStatus::Flushing, PipelineStatus::Failed)
                &&& camera matches Some(c) ==> spec_status_in(
                    c,
                    PipelineStatus::Flushing,
                    PipelineStatus::Failed,
                )
                &&& self.display.status == PipelineStatus::Failed || (camera matches Some(c)
                    && c.status == PipelineStatus::Failed)
            },
        }
    }

    /// A session that has just launched its pipelines: the display always,
    /// the camera if one was chosen.
    pub open spec fn spec_start(with_camera: bool) -> SessionProgress {
        SessionProgress {
            state: SessionState::Starting,
            display: CapturePipeline::spec_launched(),
            camera: if with_camera {
                Some(CapturePipeline::spec_launched())
            } else {
                None
            },
        }
    }

    /// The reports of the pipelines' starts have come in.
    ///
    /// If every pipeline of the session is ready the session records. If one
    /// failed the session has failed for good: the error is that of the
    /// display if the display failed, else that of the camera, and every
    /// pipeline that did start is told to stop. A camera report for a session
    /// without a camera pipeline is not looked at. Outside `Starting` nothing
    /// changes.
    pub open spec fn spec_started(
        self,
        display: Result<Dimensions, RecordingError>,
        camera: Option<Result<Dimensions, RecordingError>>,
    ) -> (SessionProgress, Result<(), StartFailure>) {
        let camera_report = spec_camera_start(camera);
        if self.state != SessionState::Starting {
            (
                self,
                Err(
                    StartFailure {
                        error: RecordingError::NotInProgress,
                        stop_display: false,
                        stop_camera: false,
                    },
                ),
            )
        } else if display is Ok && (self.camera is None || camera_report is Ok) {
            (
                SessionProgress {
                    state: SessionState::Recording,
                    display: self.display.spec_acknowledge(display),
                    camera: match self.camera {
                        Some(c) => Some(c.spec_acknowledge(camera_report)),
                        None => None,
                    },
                },
                Ok(()),
            )
        } else {
            (
                SessionProgress {
                    state: SessionState::Failed,
                    display: self.display.spec_acknowledge(display).spec_signal_stop(),
                    camera: match self.camera {
                        Some(c) => Some(c.spec_acknowledge(camera_report).spec_signal_stop()),
                        None => None,
                    },
                },
                Err(
                    StartFailure {
                        error: match display {
                            Err(e) => e,
                            Ok(_) => match camera_report {
                                Err(e) => e,
                                Ok(_) => RecordingError::DeviceUnavailable,
                            },
                        },
                        stop_display: display is Ok,
                        stop_camera: self.camera is Some && camera_report is Ok,
                    },
                ),
            )
        }
    }

    /// A stop was asked for. A recording session tells every pipeline to
    /// stop; any other session is not in progress and stays as it is.
    pub open spec fn spec_stop(self) -> (SessionProgress, Result<(), RecordingError>) {
        if self.state != SessionState::Recording {
            (self, Err(RecordingError::NotInProgress))
        } else {
            (
                SessionProgress {
                    state: SessionState::Stopping,
                    display: self.display.spec_signal_stop(),
                    camera: match self.camera {
                        Some(c) => Some(c.spec_signal_stop()),
                        None => None,
                    },
                },
                Ok(()),
            )
        }
    }

    /// Whether the camera stream ended cleanly: `None` without a camera
    /// pipeline; with one, a missing report counts as a failure.
    pub open spec fn spec_camera_ok(self, camera: Option<Result<(), RecordingError>>) -> Option<bool> {
        match self.camera {
            None => None,
            Some(_) => Some(camera matches Some(Ok(_))),
        }
    }

    /// The metadata record: the display's frame size, and the camera's only
    /// if the camera stream ended cleanly. A display pipeline that never
    /// agreed on a size is recorded as 0 by 0.
    pub open spec fn spec_meta(self, camera: Option<Result<(), RecordingError>>) -> RecordingMeta {
        RecordingMeta {
            display: match self.display.dimensions {
                Some(d) => d,
                None => Dimensions { width: 0, height: 0 },
            },
            camera: match self.camera {
                Some(c) => if self.spec_camera_ok(camera) == Some(true) {
                    c.dimensions
                } else {
                    None
                },
                None => None,
            },
        }
    }

    /// The pipelines are gone. A stopping session becomes stopped whatever
    /// the pipelines report, and says what it recorded; any other session is
    /// not in progress and stays as it is.
    pub open spec fn spec_stopped(
        self,
        display: Result<(), RecordingError>,
        camera: Option<Result<(), RecordingError>>,
    ) -> (SessionProgress, Result<StopReport, RecordingError>) {
        if self.state != SessionState::Stopping {
            (self, Err(RecordingError::NotInProgress))
        } else {
            (
                SessionProgress {
                    state: SessionState::Stopped,
                    display: self.display.spec_settle(display is Ok),
                    camera: match self.camera {
                        Some(c) => Some(c.spec_settle(camera matches Some(Ok(_)))),
                        None => None,
                    },
                },
                Ok(
                    StopReport {
                        display_ok: display is Ok,
                        camera_ok: self.spec_camera_ok(camera),
                        meta: self.spec_meta(camera),
                    },
                ),
            )
        }
    }

    pub fn start(with_camera: bool) -> (progress: SessionProgress)
        ensures
            progress == Self::spec_start(with_camera),
            progress.spec_wf(),
    {
        SessionProgress {
            state: SessionState::Starting,
            display: CapturePipeline::launched(),
            camera: if with_camera {
                Some(CapturePipeline::launched())
            } else {
                None
            },
        }
    }

    pub fn started(
        self,
        display: Result<Dimensions, RecordingError>,
        camera: Option<Result<Dimensions, RecordingError>>,
    ) -> (next: (SessionProgress, Result<(), StartFailure>))
        ensures
            next == self.spec_started(display, camera),
            self.spec_wf() ==> next.0.spec_wf(),
    {
        let camera_report = match camera {
            Some(result) => result,
            None => Err(RecordingError::DeviceUnavailable),
        };
        if self.state != SessionState::Starting {
            let failure = StartFailure {
                error: RecordingError::NotInProgress,
                stop_display: false,
                stop_camera: false,
            };
            return (self, Err(failure));
        }
        let display_ready = display.is_ok();
        let camera_ready = camera_report.is_ok();
        if display_ready && (self.camera.is_none() || camera_ready) {
            let next = SessionProgress {
                state: SessionState::Recording,
                display: self.display.acknowledge(display),
                camera: match self.camera {
                    Some(c) => Some(c.acknowledge(camera_report)),
                    None => None,
                },
            };
            (next, Ok(()))
        } else {
            let error = match display {
                Err(e) => e,
                Ok(_) => match camera_report {
                    Err(e) => e,
                    Ok(_) => RecordingError::DeviceUnavailable,
                },
            };
            let failure = StartFailure {
                error,
                stop_display: display_ready,
                stop_camera: self.camera.is_some() && camera_ready,
            };
            let next = SessionProgress {
                state: SessionState::Failed,
                display: self.display.acknowledge(display).signal_stop(),
                camera: match self.camera {
                    Some(c) => Some(c.acknowledge(camera_report).signal_stop()),
                    None => None,
                },
            };
            (next, Err(failure))
        }
    }

    pub fn stop(self) -> (next: (SessionProgress, Result<(), RecordingError>))
        ensures
            next == self.spec_stop(),
            self.spec_wf() ==> next.0.spec_wf(),
    {
        if self.state != SessionState::Recording {
            (self, Err(RecordingError::NotInProgress))
        } else {
            let next = SessionProgress {
                state: SessionState::Stopping,
                display: self.display.signal_stop(),
                camera: match self.camera {
                    Some(c) => Some(c.signal_stop()),
                    None => None,
                },
            };
            (next, Ok(()))
        }
    }

    pub fn stopped(
        self,
        display: Result<(), RecordingError>,
        camera: Option<Result<(), RecordingError>>,
    ) -> (next: (SessionProgress, Result<StopReport, RecordingError>))
        ensures
            next == self.spec_stopped(display, camera),
            self.spec_wf() ==> next.0.spec_wf(),
    {
        if self.state != SessionState::Stopping {
            return (self, Err(RecordingError::NotInProgress));
        }
        let display_ok = display.is_ok();
        let camera_clean = match camera {
            Some(Ok(_)) => true,
            _ => false,
        };
        let camera_ok = match self.camera {
            None => None,
            Some(_) => Some(camera_clean),
        };
        let meta = RecordingMeta {
            display: match self.display.dimensions {
                Some(d) => d,
                None => Dimensions { width: 0, height: 0 },
            },
            camera: match self.camera {
                Some(c) => if camera_clean {
                    c.dimensions
                } else {
                    None
                },
                None => None,
            },
        };
        let next = SessionProgress {
            state: SessionState::Stopped,
            display: self.display.settle(display_ok),
            camera: match self.camera {
                Some(c) => Some(c.settle(camera_clean)),
                None => None,
            },
        };
        (next, Ok(StopReport { display_ok, camera_ok, meta }))
    }
}

/// A session that is started and stopped at once, with pipelines that start
/// and stop cleanly, ends stopped and records what the pipelines agreed on:
/// the display always, the camera exactly if one was chosen.
pub proof fn start_then_stop_records(with_camera: bool, display: Dimensions, camera: Dimensions)
    ensures
        ({
            let starting = SessionProgress::spec_start(with_camera);
            let (recording, started) = starting.spec_started(
                Ok(display),
                if with_camera {
                    Some(Ok(camera))
                } else {
                    None
                },
            );
            let (stopping, stop) = recording.spec_stop();
            let (stopped, report) = stopping.spec_stopped(
                Ok(()),
                if with_camera {
                    Some(Ok(()))
                } else {
                    None
                },
            );
            &&& started is Ok
            &&& recording.state == SessionState::Recording
            &&& stop is Ok
            &&& stopping.state == SessionState::Stopping
            &&& stopped.state == SessionState::Stopped
            &&& stopped.display.status == PipelineStatus::Closed
            &&& report == Ok::<StopReport, RecordingError>(
                StopReport {
                    display_ok: true,
                    camera_ok: if with_camera {
                        Some(true)
                    } else {
                        None
                    },
                    meta: RecordingMeta {
                        display,
                        camera: if with_camera {
                            Some(camera)
                        } else {
                            None
                        },
                    },
                },
            )
        }),
{
}

/// A camera pipeline that does not end cleanly does not keep the session
/// from stopping: the record then describes the display alone.
pub proof fn camera_failure_keeps_the_display(
    progress: SessionProgress,
    display: Result<(), RecordingError>,
    camera: Option<Result<(), RecordingError>>,
)
    requires
        progress.spec_wf(),
        progress.state == SessionState::Stopping,
        !(camera matches Some(Ok(_))),
    ensures
        ({
            let (stopped, report) = progress.spec_stopped(display, camera);
            &&& stopped.state == SessionState::Stopped
            &&& report matches Ok(r)
            &&& r.meta.camera is None
            &&& Some(r.meta.display) == progress.display.dimensions
            &&& r.display_ok == (display is Ok)
        }),
{
}

/// A session that has stopped or failed stays as it is, whatever is asked of
/// it or reported to it.
pub proof fn terminal_states_are_final(
    progress: SessionProgress,
    start_display: Result<Dimensions, RecordingError>,
    start_camera: Option<Result<Dimensions, RecordingError>>,
    stop_display: Result<(), RecordingError>,
    stop_camera: Option<Result<(), RecordingError>>,
)
    requires
        progress.state.spec_is_terminal(),
    ensures
        progress.spec_started(start_display, start_camera).0 == progress,
        progress.spec_stop().0 == progress,
        progress.spec_stopped(stop_display, stop_camera).0 == progress,
        progress.spec_started(start_display, start_camera).1 is Err,
        progress.spec_stop().1 is Err,
        progress.spec_stopped(stop_display, stop_camera).1 is Err,
{
}

/// A session fails only while it starts: no step leads to `Failed` from
/// another state, and a failed start names the encoders that came up.
pub proof fn failure_comes_from_starting(
    progress: SessionProgress,
    display: Result<Dimensions, RecordingError>,
    camera: Option<Result<Dimensions, RecordingError>>,
    stop_display: Result<(), RecordingError>,
    stop_camera: Option<Result<(), RecordingError>>,
)
    requires
        progress.state != SessionState::Failed,
    ensures
        progress.spec_stop().0.state != SessionState::Failed,
        progress.spec_stopped(stop_display, stop_camera).0.state != SessionState::Failed,
        progress.spec_started(display, camera).0.state == SessionState::Failed ==> {
            &&& progress.state == SessionState::Starting
            &&& progress.spec_started(display, camera).1 matches Err(failure)
            &&& failure.stop_display == (display is Ok)
            &&& failure.stop_camera == (progress.camera is Some && camera matches Some(Ok(_)))
            &&& display matches Err(e) ==> failure.error == e
            &&& display is Ok ==> spec_camera_start(camera) == Err::<Dimensions, RecordingError>(
                failure.error,
            )
        },
{
}

/// One recording attempt: what it is, and how far it has come.
#[derive(Debug)]
pub struct RecordingSession {
    id: String,
    directory: String,
    options: RecordingOptions,
    start_time_ms: u64,
    progress: SessionProgress,
}

/// The mathematical content of a [`RecordingSession`].
pub struct SessionView {
    pub id: Seq<char>,
    pub directory: Seq<char>,
    pub options: RecordingOptionsView,
    pub start_time_ms: u64,
    pub progress: SessionProgress,
}

impl View for RecordingSession {
    type V = SessionView;

    closed spec fn view(&self) -> SessionView {
        SessionView {
            id: self.id@,
            directory: self.directory@,
            options: self.options@,
            start_time_ms: self.start_time_ms,
            progress: self.progress,
        }
    }
}

impl SessionView {
    /// The session has a camera pipeline exactly if a camera was chosen, and
    /// its state goes with its pipelines.
    pub open spec fn wf(self) -> bool {
        &&& self.progress.spec_wf()
        &&& self.progress.camera is Some <==> self.options.wants_camera()
    }

    /// The session that starts in `directory` with `options`.
    pub open spec fn spec_start(
        id: Seq<char>,
        directory: Seq<char>,
        options: RecordingOptionsView,
        start_time_ms: u64,
    ) -> SessionView {
        SessionView {
            id,
            directory,
            options,
            start_time_ms,
            progress: SessionProgress::spec_start(options.wants_camera()),
        }
    }

    /// The same session, further along.
    pub open spec fn with_progress(self, progress: SessionProgress) -> SessionView {
        SessionView { progress, ..self }
    }

    /// The session holds the recorder.
    pub open spec fn is_active(self) -> bool {
        self.progress.state.spec_is_active()
    }
}

impl RecordingSession {
    /// Starts a session: the caller launches the display pipeline, and the
    /// camera pipeline if `options` chose a camera, and reports with `started`.
    pub fn start(id: String, directory: String, options: RecordingOptions, start_time_ms: u64) -> (session:
        Self)
        ensures
            session@ == SessionView::spec_start(id@, directory@, options@, start_time_ms),
            session@.wf(),
    {
        let progress = SessionProgress::start(options.wants_camera());
        RecordingSession { id, directory, options, start_time_ms, progress }
    }

    /// Takes the reports of the pipelines' starts.
    pub fn started(
        &mut self,
        display: Result<Dimensions, RecordingError>,
        camera: Option<Result<Dimensions, RecordingError>>,
    ) -> (result: Result<(), StartFailure>)
        ensures
            final(self)@ == old(self)@.with_progress(
                old(self)@.progress.spec_started(display, camera).0,
            ),
            result == old(self)@.progress.spec_started(display, camera).1,
            old(self)@.wf() ==> final(self)@.wf(),
    {
        let (next, result) = self.progress.started(display, camera);
        self.progress = next;
        result
    }

    /// Asks the session to stop: on `Ok` the caller signals the end of the
    /// stream to every pipeline at once and reports with `stopped`.
    pub fn stop(&mut self) -> (result: Result<(), RecordingError>)
        ensures
            final(self)@ == old(self)@.with_progress(old(self)@.progress.spec_stop().0),
            result == old(self)@.progress.spec_stop().1,
            old(self)@.wf() ==> final(self)@.wf(),
    {
        let (next, result) = self.progress.stop();
        self.progress = next;
        result
    }

    /// Takes the results of the pipelines' stops and says what was recorded.
    pub fn stopped(
        &mut self,
        display: Result<(), RecordingError>,
        camera: Option<Result<(), RecordingError>>,
    ) -> (result: Result<StopReport, RecordingError>)
        ensures
            final(self)@ == old(self)@.with_progress(
                old(self)@.progress.spec_stopped(display, camera).0,
            ),
            result == old(self)@.progress.spec_stopped(display, camera).1,
            old(self)@.wf() ==> final(self)@.wf(),
    {
        let (next, result) = self.progress.stopped(display, camera);
        self.progress = next;
        result
    }

    pub fn id(&self) -> (id: &String)
        ensures
            id@ == self@.id,
    {
        &self.id
    }

    pub fn directory(&self) -> (directory: &String)
        ensures
            directory@ == self@.directory,
    {
        &self.directory
    }

    pub fn options(&self) -> (options: &RecordingOptions)
        ensures
            options@ == self@.options,
    {
        &self.options
    }

    pub fn start_time_ms(&self) -> (time: u64)
        ensures
            time == self@.start_time_ms,
    {
        self.start_time_ms
    }

    pub fn progress(&self) -> (progress: SessionProgress)
        ensures
            progress == self@.progress,
    {
        self.progress
    }

    pub fn state(&self) -> (state: SessionState)
        ensures
            state == self@.progress.state,
    {
        self.progress.state
    }

    pub fn is_active(&self) -> (active: bool)
        ensures
            active == self@.is_active(),
    {
        self.progress.state.is_active()
    }

    /// The file of the display pipeline.
    pub fn display_path(&self) -> (path: String)
        ensures
            path@ == spec_display_path(self@.directory),
    {
        display_path(self.directory.as_str())
    }

    /// The file of the camera pipeline, if the session has one.
    pub fn camera_path(&self) -> (path: Option<String>)
        ensures
            path is Some == self@.progress.camera is Some,
            path matches Some(p) ==> p@ == spec_camera_path(self@.directory),
    {
        if self.progress.camera.is_some() {
            Some(camera_path(self.directory.as_str()))
        } else {
            None
        }
    }
}

} // verus!
