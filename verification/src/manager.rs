//! The recorder: one slot for the current session, and the archive of the
//! sessions that were finished.
//!
//! Every request goes through the entry points of [`App`]. The caller holds
//! the recorder under one lock for the whole of a start or a stop, performs
//! what the entry point asks for, and reports back through the next one.

use vstd::prelude::*;
use crate::error::RecordingError;
use crate::ident::{random_session_id, spec_is_session_id};
use crate::layout::{
    contains_path,
    scan_session_dirs,
    session_dir,
    spec_entry_texts,
    spec_finished_dirs,
    spec_session_dir,
    spec_texts,
    spec_unfinished_dirs,
};
use crate::meta::Dimensions;
use crate::options::{
    camera_window_action,
    occluder_action,
    spec_camera_window_action,
    spec_occluder_action,
    CameraWindowAction,
    OccluderAction,
    RecordingOptions,
    RecordingOptionsChanged,
    RecordingOptionsView,
    ShowCapturesPanel,
};
use crate::pipeline::PipelineStatus;
use crate::session::{RecordingSession, SessionState, SessionView, StartFailure, StopReport};

verus! {

/// The recorder's state.
#[derive(Debug)]
pub struct App {
    start_recording_options: RecordingOptions,
    current_recording: Option<RecordingSession>,
    prev_recordings: Vec<String>,
    unfinished_recordings: Vec<String>,
}

/// The mathematical content of an [`App`].
pub struct AppView {
    /// The options that the next session starts with.
    pub start_recording_options: RecordingOptionsView,
    /// The session that holds the recorder, if any.
    pub current_recording: Option<SessionView>,
    /// The archive: the directories of the finished sessions, oldest first.
    pub prev_recordings: Seq<Seq<char>>,
    /// The directories of the sessions that were begun and never archived.
    /// They are not part of the archive, and are never given out again.
    pub unfinished_recordings: Seq<Seq<char>>,
}

impl View for App {
    type V = AppView;

    closed spec fn view(&self) -> AppView {
        AppView {
            start_recording_options: self.start_recording_options@,
            current_recording: match self.current_recording {
                Some(session) => Some(session@),
                None => None,
            },
            prev_recordings: spec_texts(self.prev_recordings@),
            unfinished_recordings: spec_texts(self.unfinished_recordings@),
        }
    }
}

/// The record of a finished session: where it lies and what became of its
/// streams, of its metadata record and of its thumbnail.
#[derive(Debug, PartialEq, Eq)]
pub struct FinishedRecording {
    pub directory: String,
    /// The display encoder left cleanly.
    pub display_ok: bool,
    /// The camera encoder left cleanly; `None` without a camera pipeline.
    pub camera_ok: Option<bool>,
    /// `Err(IoFailure)` if the metadata record could not be written.
    pub meta_written: Result<(), RecordingError>,
    /// `Err(IoFailure)` if no thumbnail was left, or an empty one.
    pub thumbnail_written: Result<(), RecordingError>,
}

/// The mathematical content of a [`FinishedRecording`].
pub struct FinishedRecordingView {
    pub directory: Seq<char>,
    pub display_ok: bool,
    pub camera_ok: Option<bool>,
    pub meta_written: Result<(), RecordingError>,
    pub thumbnail_written: Result<(), RecordingError>,
}

impl View for FinishedRecording {
    type V = FinishedRecordingView;

    open spec fn view(&self) -> FinishedRecordingView {
        FinishedRecordingView {
            directory: self.directory@,
            display_ok: self.display_ok,
            camera_ok: self.camera_ok,
            meta_written: self.meta_written,
            thumbnail_written: self.thumbnail_written,
        }
    }
}

impl FinishedRecordingView {
    /// Everything that the session should leave behind is there: both
    /// streams as far as they were recorded, the metadata record and the
    /// thumbnail.
    pub open spec fn is_complete(self) -> bool {
        &&& self.display_ok
        &&& self.camera_ok != Some(false)
        &&& self.meta_written is Ok
        &&& self.thumbnail_written is Ok
    }
}

impl FinishedRecording {
    pub fn is_complete(&self) -> (complete: bool)
        ensures
            complete == self@.is_complete(),
    {
        let camera_ok = match self.camera_ok {
            Some(ok) => ok,
            None => true,
        };
        self.display_ok && camera_ok && self.meta_written.is_ok() && self.thumbnail_written.is_ok()
    }
}

/// What a write that the caller made has come to.
pub open spec fn spec_written(done: bool) -> Result<(), RecordingError> {
    if done {
        Ok(())
    } else {
        Err(RecordingError::IoFailure)
    }
}

/// The record of the stopped session `session`.
pub open spec fn spec_finished(session: SessionView, meta_written: bool, thumbnail_written: bool) -> FinishedRecordingView {
    FinishedRecordingView {
        directory: session.directory,
        display_ok: session.progress.display.status == PipelineStatus::Closed,
        camera_ok: match session.progress.camera {
            Some(camera) => Some(camera.status == PipelineStatus::Closed),
            None => None,
        },
        meta_written: spec_written(meta_written),
        thumbnail_written: spec_written(thumbnail_written),
    }
}

/// What `recording_started` answers when no session is starting.
pub open spec fn spec_not_starting() -> StartFailure {
    StartFailure { error: RecordingError::NotInProgress, stop_display: false, stop_camera: false }
}

impl AppView {
    /// A directory that was given to a session before: it is archived, or it
    /// was begun and never archived.
    pub open spec fn knows(self, directory: Seq<char>) -> bool {
        self.prev_recordings.contains(directory) || self.unfinished_recordings.contains(directory)
    }

    /// The current session, if there is one, is well formed and lives in a
    /// directory that no session had before, and the archive lists no
    /// directory twice.
    pub open spec fn wf(self) -> bool {
        &&& self.prev_recordings.no_duplicates()
        &&& self.current_recording matches Some(session) ==> session.wf() && !self.knows(
            session.directory,
        )
    }

    /// A recorder that has found `entries` in its recordings root. The
    /// archive holds the session directories with a metadata record; those
    /// without one were never finished and stay out of it.
    pub open spec fn spec_new(options: RecordingOptionsView, entries: Seq<(Seq<char>, bool)>) -> AppView {
        AppView {
            start_recording_options: options,
            current_recording: None,
            prev_recordings: spec_finished_dirs(entries),
            unfinished_recordings: spec_unfinished_dirs(entries),
        }
    }

    /// The state of the current session, `Idle` without one.
    pub open spec fn spec_state(self) -> SessionState {
        match self.current_recording {
            Some(session) => session.progress.state,
            None => SessionState::Idle,
        }
    }

    /// The recorder after its session has left it without being archived:
    /// the directory of the session is remembered as unfinished.
    pub open spec fn spec_abandon(self) -> AppView {
        match self.current_recording {
            Some(session) => AppView {
                current_recording: None,
                unfinished_recordings: self.unfinished_recordings.push(session.directory),
                ..self
            },
            None => self,
        }
    }

    /// A start under the identifier `id`.
    ///
    /// While a session holds the recorder the start is refused and nothing
    /// changes. A directory that a session had before is never given out
    /// again. Otherwise the new session holds the recorder.
    pub open spec fn spec_start_recording(self, recordings_root: Seq<char>, id: Seq<char>, now_ms: u64) -> (
        AppView,
        Result<(), RecordingError>,
    ) {
        let directory = spec_session_dir(recordings_root, id);
        if self.current_recording is Some {
            (self, Err(RecordingError::AlreadyRecording))
        } else if self.knows(directory) {
            (self, Err(RecordingError::IoFailure))
        } else {
            (
                AppView {
                    current_recording: Some(
                        SessionView::spec_start(id, directory, self.start_recording_options, now_ms),
                    ),
                    ..self
                },
                Ok(()),
            )
        }
    }

    /// The pipelines of the starting session have reported.
    ///
    /// If all are ready the session records and the occluder follows the
    /// capture target. If one failed the session is gone from the recorder
    /// and its directory is remembered as unfinished. Without a starting
    /// session nothing changes.
    pub open spec fn spec_recording_started(
        self,
        display: Result<Dimensions, RecordingError>,
        camera: Option<Result<Dimensions, RecordingError>>,
        occluder_open: bool,
    ) -> (AppView, Result<OccluderAction, StartFailure>) {
        match self.current_recording {
            None => (self, Err(spec_not_starting())),
            Some(session) => {
                let (progress, result) = session.progress.spec_started(display, camera);
                if session.progress.state != SessionState::Starting {
                    (self, Err(spec_not_starting()))
                } else {
                    match result {
                        Ok(_) => (
                            AppView {
                                current_recording: Some(session.with_progress(progress)),
                                ..self
                            },
                            Ok(spec_occluder_action(session.options.capture_target, occluder_open)),
                        ),
                        Err(failure) => (self.spec_abandon(), Err(failure)),
                    }
                }
            },
        }
    }

    /// A session that was started elsewhere is handed to the recorder. It is
    /// refused while another holds the recorder, and if its directory was
    /// given to a session before.
    pub open spec fn spec_set_current_recording(self, new_value: SessionView, occluder_open: bool) -> (
        AppView,
        Result<OccluderAction, RecordingError>,
    ) {
        if self.current_recording is Some {
            (self, Err(RecordingError::AlreadyRecording))
        } else if self.knows(new_value.directory) {
            (self, Err(RecordingError::IoFailure))
        } else {
            (
                AppView { current_recording: Some(new_value), ..self },
                Ok(spec_occluder_action(new_value.options.capture_target, occluder_open)),
            )
        }
    }

    /// The current session is taken out of the recorder, whatever its state,
    /// and its directory is remembered as unfinished.
    pub open spec fn spec_clear_current_recording(self) -> (AppView, Option<SessionView>) {
        (self.spec_abandon(), self.current_recording)
    }

    /// A stop was asked for.
    pub open spec fn spec_stop_recording(self) -> (AppView, Result<(), RecordingError>) {
        match self.current_recording {
            None => (self, Err(RecordingError::NotInProgress)),
            Some(session) => {
                let (progress, result) = session.progress.spec_stop();
                (
                    AppView { current_recording: Some(session.with_progress(progress)), ..self },
                    result,
                )
            },
        }
    }

    /// The pipelines of the stopping session are gone.
    pub open spec fn spec_recording_stopped(
        self,
        display: Result<(), RecordingError>,
        camera: Option<Result<(), RecordingError>>,
    ) -> (AppView, Result<StopReport, RecordingError>) {
        match self.current_recording {
            None => (self, Err(RecordingError::NotInProgress)),
            Some(session) => {
                let (progress, result) = session.progress.spec_stopped(display, camera);
                (
                    AppView { current_recording: Some(session.with_progress(progress)), ..self },
                    result,
                )
            },
        }
    }

    /// The stopped session is archived: its directory becomes the newest
    /// entry of the archive and the recorder is free again, whether or not
    /// the metadata record and the thumbnail could be written. What failed
    /// is told in the record of the session. Without a stopped session
    /// nothing changes.
    pub open spec fn spec_archive_recording(self, meta_written: bool, thumbnail_written: bool) -> (
        AppView,
        Result<FinishedRecordingView, RecordingError>,
    ) {
        match self.current_recording {
            Some(session) if session.progress.state == SessionState::Stopped => (
                AppView {
                    current_recording: None,
                    prev_recordings: self.prev_recordings.push(session.directory),
                    ..self
                },
                Ok(spec_finished(session, meta_written, thumbnail_written)),
            ),
            _ => (self, Err(RecordingError::NotInProgress)),
        }
    }

    /// The options of the next session are replaced.
    pub open spec fn spec_set_start_recording_options(self, new_value: RecordingOptionsView) -> AppView {
        AppView { start_recording_options: new_value, ..self }
    }
}

/// A list that gains a path which it did not hold lists no path twice if it
/// did not before.
proof fn lemma_push_new_path(paths: Seq<Seq<char>>, path: Seq<char>)
    requires
        paths.no_duplicates(),
        !paths.contains(path),
    ensures
        paths.push(path).no_duplicates(),
{
    let next = paths.push(path);
    assert forall|i: int, j: int| 0 <= i < next.len() && 0 <= j < next.len() && i != j implies next[i]
        != next[j] by {
        if i < paths.len() && j < paths.len() {
        } else if i < paths.len() {
            assert(paths.contains(next[i]));
        } else {
            assert(paths.contains(next[j]));
        }
    }
}

impl App {
    /// A recorder without a session. `entries` are the paths found in the
    /// recordings root, each with the answer to whether it holds a metadata
    /// record. The session directories that hold one make the archive.
    pub fn new(options: RecordingOptions, entries: &Vec<(String, bool)>) -> (app: Self)
        ensures
            app@ == AppView::spec_new(options@, spec_entry_texts(entries@)),
            app@.wf(),
    {
        App {
            start_recording_options: options,
            current_recording: None,
            prev_recordings: scan_session_dirs(entries, true),
            unfinished_recordings: scan_session_dirs(entries, false),
        }
    }

    pub fn recording_options(&self) -> (options: &RecordingOptions)
        ensures
            options@ == self@.start_recording_options,
    {
        &self.start_recording_options
    }

    pub fn current_recording(&self) -> (session: Option<&RecordingSession>)
        ensures
            session is Some == self@.current_recording is Some,
            session matches Some(s) ==> self@.current_recording == Some(s@),
    {
        self.current_recording.as_ref()
    }

    /// The archive, oldest first.
    pub fn prev_recordings(&self) -> (paths: &Vec<String>)
        ensures
            spec_texts(paths@) == self@.prev_recordings,
    {
        &self.prev_recordings
    }

    /// The directories that were begun and never archived.
    pub fn unfinished_recordings(&self) -> (paths: &Vec<String>)
        ensures
            spec_texts(paths@) == self@.unfinished_recordings,
    {
        &self.unfinished_recordings
    }

    pub fn state(&self) -> (state: SessionState)
        ensures
            state == self@.spec_state(),
    {
        match &self.current_recording {
            Some(session) => session.state(),
            None => SessionState::Idle,
        }
    }

    /// Tells whether `directory` was given to a session before.
    fn knows(&self, directory: &String) -> (known: bool)
        ensures
            known == self@.knows(directory@),
    {
        contains_path(&self.prev_recordings, directory) || contains_path(
            &self.unfinished_recordings,
            directory,
        )
    }

    /// Remembers the directory of a session that leaves the recorder without
    /// being archived.
    fn abandon(&mut self, session: &RecordingSession)
        requires
            old(self)@.current_recording is None,
        ensures
            final(self)@ == (AppView {
                unfinished_recordings: old(self)@.unfinished_recordings.push(session@.directory),
                ..old(self)@
            }),
    {
        let ghost before = spec_texts(self.unfinished_recordings@);
        self.unfinished_recordings.push(session.directory().clone());
        assert(spec_texts(self.unfinished_recordings@) =~= before.push(session@.directory));
    }

    /// Replaces the options of the next session and says what the camera
    /// preview window needs and which event the shell is owed.
    pub fn set_start_recording_options(&mut self, new_value: RecordingOptions, camera_window_open: bool) -> (owed: (
        CameraWindowAction,
        RecordingOptionsChanged,
    ))
        ensures
            final(self)@ == old(self)@.spec_set_start_recording_options(new_value@),
            owed.0 == spec_camera_window_action(camera_window_open, new_value@),
            old(self)@.wf() ==> final(self)@.wf(),
    {
        let action = camera_window_action(camera_window_open, &new_value);
        self.start_recording_options = new_value;
        (action, RecordingOptionsChanged)
    }

    /// Starts a session under the identifier `id`. On `Ok` the caller
    /// launches the pipelines of the current session and reports with
    /// `recording_started`.
    pub fn start_recording_as(&mut self, recordings_root: &str, id: String, now_ms: u64) -> (result: Result<
        (),
        RecordingError,
    >)
        ensures
            final(self)@ == old(self)@.spec_start_recording(recordings_root@, id@, now_ms).0,
            result == old(self)@.spec_start_recording(recordings_root@, id@, now_ms).1,
            old(self)@.wf() ==> final(self)@.wf(),
    {
        if self.current_recording.is_some() {
            return Err(RecordingError::AlreadyRecording);
        }
        let directory = session_dir(recordings_root, id.as_str());
        if self.knows(&directory) {
            return Err(RecordingError::IoFailure);
        }
        let options = self.start_recording_options.clone();
        self.current_recording = Some(RecordingSession::start(id, directory, options, now_ms));
        Ok(())
    }

    /// Starts a session under a fresh identifier.
    ///
    /// The start is refused with `AlreadyRecording` exactly if a session
    /// holds the recorder. Otherwise the outcome is that of
    /// `start_recording_as` for the identifier that was drawn, which is the
    /// identifier of the current session after an `Ok`. The start succeeds
    /// whenever the recorder is free and no directory that an identifier
    /// could name under `recordings_root` was given to a session before.
    pub fn start_recording(&mut self, recordings_root: &str, now_ms: u64) -> (result: Result<(), RecordingError>)
        ensures
            result == Err::<(), RecordingError>(RecordingError::AlreadyRecording)
                <==> old(self)@.current_recording is Some,
            result is Err ==> final(self)@ == old(self)@,
            result matches Err(e) ==> e == RecordingError::AlreadyRecording || e
                == RecordingError::IoFailure,
            old(self)@.current_recording is None && (forall|id: Seq<char>|
                spec_is_session_id(id) ==> !old(self)@.knows(
                    #[trigger] spec_session_dir(recordings_root@, id),
                )) ==> result is Ok,
            result is Ok ==> (final(self)@.current_recording matches Some(session)
                && spec_is_session_id(session.id) && final(self)@ == old(self)@.spec_start_recording(
                recordings_root@,
                session.id,
                now_ms,
            ).0),
            old(self)@.wf() ==> final(self)@.wf(),
    {
        if self.current_recording.is_some() {
            return Err(RecordingError::AlreadyRecording);
        }
        let id = random_session_id();
        self.start_recording_as(recordings_root, id, now_ms)
    }

    /// Takes the reports of the pipelines' starts. On `Err` the caller stops
    /// the encoders that the failure names.
    pub fn recording_started(
        &mut self,
        display: Result<Dimensions, RecordingError>,
        camera: Option<Result<Dimensions, RecordingError>>,
        occluder_open: bool,
    ) -> (result: Result<OccluderAction, StartFailure>)
        ensures
            final(self)@ == old(self)@.spec_recording_started(display, camera, occluder_open).0,
            result == old(self)@.spec_recording_started(display, camera, occluder_open).1,
            old(self)@.wf() ==> final(self)@.wf(),
    {
        let not_starting = StartFailure {
            error: RecordingError::NotInProgress,
            stop_display: false,
            stop_camera: false,
        };
        match self.current_recording.take() {
            None => Err(not_starting),
            Some(mut session) => {
                if session.state() != SessionState::Starting {
                    self.current_recording = Some(session);
                    return Err(not_starting);
                }
                match session.started(display, camera) {
                    Ok(_) => {
                        let action = occluder_action(session.options().capture_target(), occluder_open);
                        self.current_recording = Some(session);
                        Ok(action)
                    },
                    Err(failure) => {
                        self.abandon(&session);
                        Err(failure)
                    },
                }
            },
        }
    }

    /// Hands a session to the recorder and says what the occluder needs.
    pub fn set_current_recording(&mut self, new_value: RecordingSession, occluder_open: bool) -> (result: Result<
        OccluderAction,
        RecordingError,
    >)
        ensures
            final(self)@ == old(self)@.spec_set_current_recording(new_value@, occluder_open).0,
            result == old(self)@.spec_set_current_recording(new_value@, occluder_open).1,
            old(self)@.wf() && new_value@.wf() ==> final(self)@.wf(),
    {
        if self.current_recording.is_some() {
            return Err(RecordingError::AlreadyRecording);
        }
        if self.knows(new_value.directory()) {
            return Err(RecordingError::IoFailure);
        }
        let action = occluder_action(new_value.options().capture_target(), occluder_open);
        self.current_recording = Some(new_value);
        Ok(action)
    }

    /// Takes the current session out of the recorder. No window is captured
    /// after that, so the occluder is to be closed, whether or not there was
    /// a session.
    pub fn clear_current_recording(&mut self) -> (taken: (Option<RecordingSession>, OccluderAction))
        ensures
            final(self)@ == old(self)@.spec_clear_current_recording().0,
            taken.0 is Some == old(self)@.current_recording is Some,
            taken.0 matches Some(s) ==> old(self)@.current_recording == Some(s@),
            taken.1 == OccluderAction::Close,
            old(self)@.wf() ==> final(self)@.wf(),
    {
        match self.current_recording.take() {
            Some(session) => {
                self.abandon(&session);
                (Some(session), OccluderAction::Close)
            },
            None => (None, OccluderAction::Close),
        }
    }

    /// Asks the current session to stop. On `Ok` the caller stops the
    /// pipelines and reports with `recording_stopped`. The occluder is to be
    /// closed whatever the answer: on `Ok` the capture ends, and otherwise
    /// nothing is being recorded that it could serve.
    pub fn stop_recording(&mut self) -> (answer: (Result<(), RecordingError>, OccluderAction))
        ensures
            final(self)@ == old(self)@.spec_stop_recording().0,
            answer.0 == old(self)@.spec_stop_recording().1,
            answer.0 is Err ==> final(self)@ == old(self)@,
            answer.1 == OccluderAction::Close,
            old(self)@.wf() ==> final(self)@.wf(),
    {
        match self.current_recording.take() {
            None => (Err(RecordingError::NotInProgress), OccluderAction::Close),
            Some(mut session) => {
                let result = session.stop();
                self.current_recording = Some(session);
                (result, OccluderAction::Close)
            },
        }
    }

    /// Takes the results of the pipelines' stops. On `Ok` the caller writes
    /// the metadata record, extracts the thumbnail and reports with
    /// `archive_recording`.
    pub fn recording_stopped(
        &mut self,
        display: Result<(), RecordingError>,
        camera: Option<Result<(), RecordingError>>,
    ) -> (result: Result<StopReport, RecordingError>)
        ensures
            final(self)@ == old(self)@.spec_recording_stopped(display, camera).0,
            result == old(self)@.spec_recording_stopped(display, camera).1,
            result is Err ==> final(self)@ == old(self)@,
            old(self)@.wf() ==> final(self)@.wf(),
    {
        match self.current_recording.take() {
            None => Err(RecordingError::NotInProgress),
            Some(mut session) => {
                let result = session.stopped(display, camera);
                self.current_recording = Some(session);
                result
            },
        }
    }

    /// Archives the stopped session and frees the recorder. `meta_written`
    /// says whether the metadata record was written, `thumbnail_written`
    /// whether the encoder left a thumbnail that is not empty. On `Ok` the
    /// shell is owed the event that brings up the panel of recordings.
    pub fn archive_recording(&mut self, meta_written: bool, thumbnail_written: bool) -> (result: Result<
        (FinishedRecording, ShowCapturesPanel),
        RecordingError,
    >)
        ensures
            final(self)@ == old(self)@.spec_archive_recording(meta_written, thumbnail_written).0,
            match result {
                Ok(done) => old(self)@.spec_archive_recording(meta_written, thumbnail_written).1
                    == Ok::<FinishedRecordingView, RecordingError>(done.0@),
                Err(e) => old(self)@.spec_archive_recording(meta_written, thumbnail_written).1
                    == Err::<FinishedRecordingView, RecordingError>(e),
            },
            old(self)@.wf() ==> final(self)@.wf(),
    {
        match self.current_recording.take() {
            None => Err(RecordingError::NotInProgress),
            Some(session) => {
                if session.state() != SessionState::Stopped {
                    self.current_recording = Some(session);
                    return Err(RecordingError::NotInProgress);
                }
                let progress = session.progress();
                let finished = FinishedRecording {
                    directory: session.directory().clone(),
                    display_ok: progress.display.status == PipelineStatus::Closed,
                    camera_ok: match progress.camera {
                        Some(camera) => Some(camera.status == PipelineStatus::Closed),
                        None => None,
                    },
                    meta_written: if meta_written {
                        Ok(())
                    } else {
                        Err(RecordingError::IoFailure)
                    },
                    thumbnail_written: if thumbnail_written {
                        Ok(())
                    } else {
                        Err(RecordingError::IoFailure)
                    },
                };
                let ghost before = spec_texts(self.prev_recordings@);
                self.prev_recordings.push(session.directory().clone());
                proof {
                    assert(spec_texts(self.prev_recordings@) =~= before.push(session@.directory));
                    if before.no_duplicates() && !before.contains(session@.directory) {
                        lemma_push_new_path(before, session@.directory);
                    }
                }
                Ok((finished, ShowCapturesPanel))
            },
        }
    }
}

/// At most one session holds the recorder: once a start has succeeded, every
/// further start is refused with `AlreadyRecording` and changes nothing, until
/// the session is archived, fails or is taken out.
pub proof fn second_start_is_refused(
    app: AppView,
    recordings_root: Seq<char>,
    first_id: Seq<char>,
    first_ms: u64,
    second_id: Seq<char>,
    second_ms: u64,
)
    requires
        app.spec_start_recording(recordings_root, first_id, first_ms).1 is Ok,
    ensures
        ({
            let busy = app.spec_start_recording(recordings_root, first_id, first_ms).0;
            &&& busy.spec_state() == SessionState::Starting
            &&& busy.spec_start_recording(recordings_root, second_id, second_ms) == (
                busy,
                Err::<(), RecordingError>(RecordingError::AlreadyRecording),
            )
        }),
{
}

/// A start followed at once by a stop, with pipelines that start and stop
/// cleanly and files that could be written, archives the directory of the
/// session as the newest entry, leaves the recorder free and gives a record
/// that is complete.
pub proof fn start_then_stop_archives(
    app: AppView,
    recordings_root: Seq<char>,
    id: Seq<char>,
    now_ms: u64,
    display: Dimensions,
    camera: Dimensions,
    occluder_open: bool,
)
    requires
        app.spec_start_recording(recordings_root, id, now_ms).1 is Ok,
    ensures
        ({
            let with_camera = app.start_recording_options.wants_camera();
            let starting = app.spec_start_recording(recordings_root, id, now_ms).0;
            let (recording, started) = starting.spec_recording_started(
                Ok(display),
                if with_camera {
                    Some(Ok(camera))
                } else {
                    None
                },
                occluder_open,
            );
            let (stopping, stop) = recording.spec_stop_recording();
            let (stopped, report) = stopping.spec_recording_stopped(
                Ok(()),
                if with_camera {
                    Some(Ok(()))
                } else {
                    None
                },
            );
            let (archived, finished) = stopped.spec_archive_recording(true, true);
            &&& started is Ok
            &&& stop is Ok
            &&& report matches Ok(r)
            &&& r.display_ok
            &&& r.meta.display == display
            &&& r.meta.camera == if with_camera {
                Some(camera)
            } else {
                None
            }
            &&& finished matches Ok(record)
            &&& record.directory == spec_session_dir(recordings_root, id)
            &&& record.is_complete()
            &&& archived.current_recording is None
            &&& archived.prev_recordings == app.prev_recordings.push(
                spec_session_dir(recordings_root, id),
            )
        }),
{
}

/// The archive only grows, and only at its end, and only by archiving a
/// stopped session: whatever else is asked of the recorder, the archive
/// stays as it was. No directory that was begun is ever forgotten.
pub proof fn archive_is_append_only(
    app: AppView,
    recordings_root: Seq<char>,
    id: Seq<char>,
    now_ms: u64,
    start_display: Result<Dimensions, RecordingError>,
    start_camera: Option<Result<Dimensions, RecordingError>>,
    occluder_open: bool,
    new_value: SessionView,
    stop_display: Result<(), RecordingError>,
    stop_camera: Option<Result<(), RecordingError>>,
    meta_written: bool,
    thumbnail_written: bool,
    options: RecordingOptionsView,
)
    ensures
        app.spec_start_recording(recordings_root, id, now_ms).0.prev_recordings == app.prev_recordings,
        app.spec_recording_started(start_display, start_camera, occluder_open).0.prev_recordings
            == app.prev_recordings,
        app.spec_set_current_recording(new_value, occluder_open).0.prev_recordings
            == app.prev_recordings,
        app.spec_clear_current_recording().0.prev_recordings == app.prev_recordings,
        app.spec_stop_recording().0.prev_recordings == app.prev_recordings,
        app.spec_recording_stopped(stop_display, stop_camera).0.prev_recordings
            == app.prev_recordings,
        app.spec_set_start_recording_options(options).prev_recordings == app.prev_recordings,
        app.prev_recordings.is_prefix_of(
            app.spec_archive_recording(meta_written, thumbnail_written).0.prev_recordings,
        ),
        app.unfinished_recordings.is_prefix_of(
            app.spec_recording_started(start_display, start_camera, occluder_open).0.unfinished_recordings,
        ),
        app.unfinished_recordings.is_prefix_of(
            app.spec_clear_current_recording().0.unfinished_recordings,
        ),
{
}

/// A session directory is named once and never used again: a session that
/// enters the recorder lives in a directory that no session had before, so
/// the archive of a well-formed recorder never lists a directory twice,
/// whatever is asked of the recorder.
pub proof fn directories_are_never_reused(
    app: AppView,
    recordings_root: Seq<char>,
    id: Seq<char>,
    now_ms: u64,
    start_display: Result<Dimensions, RecordingError>,
    start_camera: Option<Result<Dimensions, RecordingError>>,
    occluder_open: bool,
    new_value: SessionView,
    stop_display: Result<(), RecordingError>,
    stop_camera: Option<Result<(), RecordingError>>,
    meta_written: bool,
    thumbnail_written: bool,
)
    requires
        app.wf(),
    ensures
        app.spec_start_recording(recordings_root, id, now_ms).0.wf(),
        app.spec_recording_started(start_display, start_camera, occluder_open).0.wf(),
        new_value.wf() ==> app.spec_set_current_recording(new_value, occluder_open).0.wf(),
        app.spec_clear_current_recording().0.wf(),
        app.spec_stop_recording().0.wf(),
        app.spec_recording_stopped(stop_display, stop_camera).0.wf(),
        app.spec_archive_recording(meta_written, thumbnail_written).0.wf(),
        app.spec_start_recording(recordings_root, id, now_ms).1 is Ok ==> !app.knows(
            spec_session_dir(recordings_root, id),
        ),
{
    match app.current_recording {
        Some(session) => {
            lemma_push_new_path(app.prev_recordings, session.directory);
        },
        None => {},
    }
}

/// The archive that a recorder begins with holds the finished sessions
/// only: each entry is a session directory that was found with a metadata
/// record, every such directory is an entry, and none is listed twice. A
/// session directory without a metadata record is not archived, unless the
/// same path was also found with one.
pub proof fn archive_begins_with_finished_sessions(options: RecordingOptionsView, entries: Seq<(Seq<char>, bool)>)
    ensures
        AppView::spec_new(options, entries).wf(),
        forall|path: Seq<char>| #[trigger]
            AppView::spec_new(options, entries).prev_recordings.contains(path)
                <==> crate::layout::spec_is_session_dir(path) && entries.contains((path, true)),
        forall|path: Seq<char>| #[trigger]
            AppView::spec_new(options, entries).unfinished_recordings.contains(path)
                <==> crate::layout::spec_is_session_dir(path) && entries.contains((path, false)),
{
    crate::layout::scan_lists_each_directory_once(entries, true);
    crate::layout::scan_lists_each_directory_once(entries, false);
}

} // verus!
