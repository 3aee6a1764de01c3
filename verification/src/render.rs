//! Rendering: what has to be done to get the composited video of a session.
//!
//! The caller looks at the session directory, reads the metadata record and
//! hands both to `plan_render`. The answer is the cached output, or the job
//! for the encoder. After the encoder has left, `finish_render` says whether
//! the file it wrote becomes the output or is thrown away.

use vstd::prelude::*;
use crate::error::RecordingError;
use crate::layout::{
    camera_path,
    contains_path,
    display_path,
    output_path,
    output_temp_path,
    spec_camera_path,
    spec_display_path,
    spec_output_path,
    spec_output_temp_path,
    spec_texts,
};
use crate::meta::{Dimensions, RecordingMeta};

verus! {

/// A colour with its opacity, each channel from 0 to 255.
#[derive(Clone, Copy, Debug, PartialEq, Eq, Structural)]
pub struct Color {
    pub red: u8,
    pub green: u8,
    pub blue: u8,
    pub alpha: u8,
}

/// A place on the canvas, in pixels from its top left corner.
#[derive(Clone, Copy, Debug, PartialEq, Eq, Structural)]
pub struct Position {
    pub x: i32,
    pub y: i32,
}

/// How the webcam picture is dressed.
#[derive(Clone, Copy, Debug, PartialEq, Eq)]
pub struct WebcamStyle {
    pub corner_radius: u32,
    pub shadow_color: Color,
    pub shadow_blur: u32,
    pub shadow_offset: Position,
}

/// What fills the canvas where no picture lies.
#[derive(Clone, Copy, Debug, PartialEq, Eq)]
pub enum Background {
    Color(Color),
}

/// The layout of a render, chosen by the caller for each request.
#[derive(Clone, Copy, Debug, PartialEq, Eq)]
pub struct ProjectConfiguration {
    pub webcam_size: Dimensions,
    pub webcam_position: Position,
    pub style: WebcamStyle,
    pub output_size: Dimensions,
    pub background: Background,
}

/// What the caller found in a session directory.
#[derive(Clone, Copy, Debug, PartialEq, Eq)]
pub struct SessionFiles {
    pub directory_exists: bool,
    pub output_exists: bool,
    pub display_exists: bool,
    pub camera_exists: bool,
}

/// The webcam picture on the canvas.
#[derive(Clone, Copy, Debug, PartialEq, Eq)]
pub struct Overlay {
    /// The frame size of the camera recording.
    pub source_size: Dimensions,
    /// The size that the picture is scaled to.
    pub size: Dimensions,
    pub position: Position,
    pub style: WebcamStyle,
}

/// One run of the encoder.
#[derive(Debug, PartialEq, Eq)]
pub struct RenderOptions {
    /// Where the finished video belongs.
    pub output_path: String,
    /// Where the encoder writes.
    pub temp_path: String,
    pub screen_recording_path: String,
    /// The camera recording, if the session has one.
    pub webcam_recording_path: Option<String>,
    /// The frame size of the display recording.
    pub screen_size: Dimensions,
    /// The frame size of the video to make.
    pub output_size: Dimensions,
    pub background: Background,
    /// The webcam picture, if the session has a camera recording.
    pub overlay: Option<Overlay>,
}

/// The mathematical content of [`RenderOptions`].
pub struct RenderOptionsView {
    pub output_path: Seq<char>,
    pub temp_path: Seq<char>,
    pub screen_recording_path: Seq<char>,
    pub webcam_recording_path: Option<Seq<char>>,
    pub screen_size: Dimensions,
    pub output_size: Dimensions,
    pub background: Background,
    pub overlay: Option<Overlay>,
}

impl View for RenderOptions {
    type V = RenderOptionsView;

    open spec fn view(&self) -> RenderOptionsView {
        RenderOptionsView {
            output_path: self.output_path@,
            temp_path: self.temp_path@,
            screen_recording_path: self.screen_recording_path@,
            webcam_recording_path: match self.webcam_recording_path {
                Some(path) => Some(path@),
                None => None,
            },
            screen_size: self.screen_size,
            output_size: self.output_size,
            background: self.background,
            overlay: self.overlay,
        }
    }
}

/// What a render request has to do.
#[derive(Debug, PartialEq, Eq)]
pub enum RenderStep {
    /// The output exists: this is its path, and the encoder is not run.
    Cached(String),
    /// The encoder has to be run.
    Encode(RenderOptions),
}

/// The mathematical content of a [`RenderStep`].
pub enum RenderStepView {
    Cached(Seq<char>),
    Encode(RenderOptionsView),
}

impl View for RenderStep {
    type V = RenderStepView;

    open spec fn view(&self) -> RenderStepView {
        match self {
            RenderStep::Cached(path) => RenderStepView::Cached(path@),
            RenderStep::Encode(options) => RenderStepView::Encode(options@),
        }
    }
}

impl RenderStepView {
    /// The path at which the rendered video is found once the step is done.
    pub open spec fn output_path(self) -> Seq<char> {
        match self {
            RenderStepView::Cached(path) => path,
            RenderStepView::Encode(options) => options.output_path,
        }
    }
}

/// What becomes of the file that the encoder wrote.
#[derive(Debug, PartialEq, Eq)]
pub enum RenderOutcome {
    /// The encoder succeeded: move `from` to `output_path` in one step.
    Completed { from: String, output_path: String },
    /// The encoder failed: remove `discard`; the output path is not touched.
    Failed { discard: String, diagnostic: String },
}

/// The mathematical content of a [`RenderOutcome`].
pub enum RenderOutcomeView {
    Completed { from: Seq<char>, output_path: Seq<char> },
    Failed { discard: Seq<char>, diagnostic: Seq<char> },
}

impl View for RenderOutcome {
    type V = RenderOutcomeView;

    open spec fn view(&self) -> RenderOutcomeView {
        match self {
            RenderOutcome::Completed { from, output_path } => RenderOutcomeView::Completed {
                from: from@,
                output_path: output_path@,
            },
            RenderOutcome::Failed { discard, diagnostic } => RenderOutcomeView::Failed {
                discard: discard@,
                diagnostic: diagnostic@,
            },
        }
    }
}

/// The webcam picture that a render of `meta` with `project` shows: none
/// without a camera recording.
pub open spec fn spec_overlay(meta: RecordingMeta, project: ProjectConfiguration) -> Option<Overlay> {
    match meta.camera {
        Some(source_size) => Some(
            Overlay {
                source_size,
                size: project.webcam_size,
                position: project.webcam_position,
                style: project.style,
            },
        ),
        None => None,
    }
}

/// The encoder run that renders the session in `video_dir`.
pub open spec fn spec_render_options(
    video_dir: Seq<char>,
    meta: RecordingMeta,
    project: ProjectConfiguration,
) -> RenderOptionsView {
    RenderOptionsView {
        output_path: spec_output_path(video_dir),
        temp_path: spec_output_temp_path(video_dir),
        screen_recording_path: spec_display_path(video_dir),
        webcam_recording_path: if meta.camera is Some {
            Some(spec_camera_path(video_dir))
        } else {
            None
        },
        screen_size: meta.display,
        output_size: project.output_size,
        background: project.background,
        overlay: spec_overlay(meta, project),
    }
}

/// Why a session cannot be rendered.
#[derive(Clone, Copy, Debug, PartialEq, Eq, Structural)]
pub enum RenderFault {
    /// The session directory does not exist.
    MissingDirectory,
    /// The metadata record is missing or could not be read.
    MissingRecord,
    /// The display recording is missing.
    MissingDisplay,
    /// The metadata record names a camera recording that is missing.
    MissingCamera,
}

/// What keeps the session from being rendered, if anything.
///
/// The directory and the metadata record (`meta` is `None` if it is missing
/// or could not be read) are needed in any case. With both there, an output
/// that exists needs nothing more. Otherwise the display recording must
/// exist, and the camera recording if the record names one.
pub open spec fn spec_render_fault(files: SessionFiles, meta: Option<RecordingMeta>) -> Option<RenderFault> {
    if !files.directory_exists {
        Some(RenderFault::MissingDirectory)
    } else {
        match meta {
            None => Some(RenderFault::MissingRecord),
            Some(meta) => if files.output_exists {
                None
            } else if !files.display_exists {
                Some(RenderFault::MissingDisplay)
            } else if meta.camera is Some && !files.camera_exists {
                Some(RenderFault::MissingCamera)
            } else {
                None
            },
        }
    }
}

/// What a render request for the session in `video_dir` has to do: fail if
/// something keeps the session from being rendered; else answer with the
/// output if it exists, whatever `project` says; else run the encoder.
pub open spec fn spec_plan_render(
    video_dir: Seq<char>,
    files: SessionFiles,
    meta: Option<RecordingMeta>,
    project: ProjectConfiguration,
) -> Result<RenderStepView, RecordingError> {
    match (spec_render_fault(files, meta), meta) {
        (None, Some(meta)) => if files.output_exists {
            Ok(RenderStepView::Cached(spec_output_path(video_dir)))
        } else {
            Ok(RenderStepView::Encode(spec_render_options(video_dir, meta, project)))
        },
        _ => Err(RecordingError::RenderFailure),
    }
}

/// What becomes of an encoder run that left with `exit_code`.
pub open spec fn spec_finish_render(options: RenderOptionsView, exit_code: i32, diagnostic: Seq<char>) -> RenderOutcomeView {
    if exit_code == 0 {
        RenderOutcomeView::Completed { from: options.temp_path, output_path: options.output_path }
    } else {
        RenderOutcomeView::Failed { discard: options.temp_path, diagnostic }
    }
}

/// The session directory as it is after `outcome` was carried out.
pub open spec fn spec_files_after(files: SessionFiles, outcome: RenderOutcomeView) -> SessionFiles {
    match outcome {
        RenderOutcomeView::Completed { .. } => SessionFiles { output_exists: true, ..files },
        RenderOutcomeView::Failed { .. } => files,
    }
}

pub fn render_fault(files: SessionFiles, meta: Option<RecordingMeta>) -> (fault: Option<RenderFault>)
    ensures
        fault == spec_render_fault(files, meta),
{
    if !files.directory_exists {
        return Some(RenderFault::MissingDirectory);
    }
    match meta {
        None => Some(RenderFault::MissingRecord),
        Some(meta) => {
            if files.output_exists {
                None
            } else if !files.display_exists {
                Some(RenderFault::MissingDisplay)
            } else if meta.camera.is_some() && !files.camera_exists {
                Some(RenderFault::MissingCamera)
            } else {
                None
            }
        },
    }
}

pub fn plan_render(
    video_dir: &str,
    files: SessionFiles,
    meta: Option<RecordingMeta>,
    project: &ProjectConfiguration,
) -> (step: Result<RenderStep, RecordingError>)
    ensures
        match step {
            Ok(plan) => spec_plan_render(video_dir@, files, meta, *project) == Ok::<
                RenderStepView,
                RecordingError,
            >(plan@),
            Err(e) => spec_plan_render(video_dir@, files, meta, *project) == Err::<
                RenderStepView,
                RecordingError,
            >(e),
        },
        step is Err <==> spec_render_fault(files, meta) is Some,
        meta is None ==> step is Err,
        step matches Ok(RenderStep::Encode(options)) ==> options.output_size == project.output_size
            && (meta matches Some(m) && (options.overlay is Some <==> m.camera is Some)),
{
    if render_fault(files, meta).is_some() {
        return Err(RecordingError::RenderFailure);
    }
    let meta = match meta {
        None => {
            return Err(RecordingError::RenderFailure);
        },
        Some(meta) => meta,
    };
    if files.output_exists {
        return Ok(RenderStep::Cached(output_path(video_dir)));
    }
    let (webcam_recording_path, overlay) = match meta.camera {
        Some(source_size) => (
            Some(camera_path(video_dir)),
            Some(
                Overlay {
                    source_size,
                    size: project.webcam_size,
                    position: project.webcam_position,
                    style: project.style,
                },
            ),
        ),
        None => (None, None),
    };
    Ok(
        RenderStep::Encode(
            RenderOptions {
                output_path: output_path(video_dir),
                temp_path: output_temp_path(video_dir),
                screen_recording_path: display_path(video_dir),
                webcam_recording_path,
                screen_size: meta.display,
                output_size: project.output_size,
                background: project.background,
                overlay,
            },
        ),
    )
}

pub fn finish_render(options: &RenderOptions, exit_code: i32, diagnostic: String) -> (outcome: RenderOutcome)
    ensures
        outcome@ == spec_finish_render(options@, exit_code, diagnostic@),
{
    if exit_code == 0 {
        RenderOutcome::Completed {
            from: options.temp_path.clone(),
            output_path: options.output_path.clone(),
        }
    } else {
        RenderOutcome::Failed { discard: options.temp_path.clone(), diagnostic }
    }
}

/// Rendering twice gives the same path, and runs the encoder at most once:
/// when a request has been answered and the encoder, if it had to run, has
/// succeeded, the same request is answered from the cache with the path that
/// the first answer led to.
pub proof fn render_is_idempotent(
    video_dir: Seq<char>,
    files: SessionFiles,
    meta: Option<RecordingMeta>,
    project: ProjectConfiguration,
    diagnostic: Seq<char>,
)
    requires
        spec_plan_render(video_dir, files, meta, project) is Ok,
    ensures
        ({
            let first = spec_plan_render(video_dir, files, meta, project)->Ok_0;
            let after = match first {
                RenderStepView::Cached(_) => files,
                RenderStepView::Encode(options) => spec_files_after(
                    files,
                    spec_finish_render(options, 0, diagnostic),
                ),
            };
            spec_plan_render(video_dir, after, meta, project) == Ok::<RenderStepView, RecordingError>(
                RenderStepView::Cached(first.output_path()),
            )
        }),
{
}

/// A render that fails leaves the session directory as it was: no output
/// appears, and an output that was there stays the answer.
pub proof fn failed_render_keeps_the_output(
    video_dir: Seq<char>,
    files: SessionFiles,
    meta: Option<RecordingMeta>,
    project: ProjectConfiguration,
    exit_code: i32,
    diagnostic: Seq<char>,
)
    requires
        exit_code != 0,
        spec_plan_render(video_dir, files, meta, project) matches Ok(RenderStepView::Encode(_)),
    ensures
        ({
            let options = spec_plan_render(video_dir, files, meta, project)->Ok_0->Encode_0;
            let outcome = spec_finish_render(options, exit_code, diagnostic);
            &&& outcome is Failed
            &&& outcome->discard != options.output_path
            &&& spec_files_after(files, outcome) == files
        }),
{
    reveal_strlit("output/result.mp4");
    reveal_strlit("output/result.partial.mp4");
    let a = spec_output_path(video_dir);
    let b = spec_output_temp_path(video_dir);
    assert(a.len() != b.len());
}

/// Without a camera recording the video has the size that the project asks
/// for and shows no webcam picture; with one it has that size too, whatever
/// the sizes of the recordings are.
pub proof fn render_size_is_the_projects(video_dir: Seq<char>, meta: RecordingMeta, project: ProjectConfiguration)
    ensures
        spec_render_options(video_dir, meta, project).output_size == project.output_size,
        meta.camera is None ==> spec_render_options(video_dir, meta, project).overlay is None
            && spec_render_options(video_dir, meta, project).webcam_recording_path is None,
        meta.camera is Some ==> spec_render_options(video_dir, meta, project).overlay is Some,
{
}

/// A render without a readable metadata record fails and asks for no
/// encoder run, whatever else is found in the directory.
pub proof fn render_needs_the_record(video_dir: Seq<char>, files: SessionFiles, project: ProjectConfiguration)
    ensures
        spec_plan_render(video_dir, files, None, project) == Err::<RenderStepView, RecordingError>(
            RecordingError::RenderFailure,
        ),
{
}

/// The renders that are under way, by output path. While a path is listed an
/// encoder is writing for it, and no second one may be started.
#[derive(Debug)]
pub struct InFlightRenders {
    outputs: Vec<String>,
}

impl View for InFlightRenders {
    type V = Seq<Seq<char>>;

    closed spec fn view(&self) -> Seq<Seq<char>> {
        spec_texts(self.outputs@)
    }
}

impl InFlightRenders {
    #[verifier::type_invariant]
    spec fn listed_once(self) -> bool {
        spec_texts(self.outputs@).no_duplicates()
    }

    pub fn new() -> (renders: Self)
        ensures
            renders@ == Seq::<Seq<char>>::empty(),
    {
        let renders = InFlightRenders { outputs: Vec::new() };
        assert(renders@ =~= Seq::<Seq<char>>::empty());
        renders
    }

    /// Tells whether a render for `output_path` is under way.
    pub fn is_rendering(&self, output_path: &String) -> (busy: bool)
        ensures
            busy == self@.contains(output_path@),
    {
        contains_path(&self.outputs, output_path)
    }

    /// Claims `output_path` for a render. The answer is `true` if the caller
    /// has to run the encoder, and `false` if a render for this path is
    /// under way already: the caller then waits for that one.
    pub fn begin(&mut self, output_path: &String) -> (run: bool)
        ensures
            run == !old(self)@.contains(output_path@),
            final(self)@ == if run {
                old(self)@.push(output_path@)
            } else {
                old(self)@
            },
            final(self)@.contains(output_path@),
    {
        proof {
            use_type_invariant(&*self);
        }
        if contains_path(&self.outputs, output_path) {
            return false;
        }
        let mut outputs: Vec<String> = Vec::new();
        std::mem::swap(&mut outputs, &mut self.outputs);
        let ghost before = spec_texts(outputs@);
        outputs.push(output_path.clone());
        proof {
            let after = spec_texts(outputs@);
            assert(after =~= before.push(output_path@));
            assert(after[before.len() as int] == output_path@);
            assert forall|i: int, j: int|
                0 <= i < after.len() && 0 <= j < after.len() && i != j implies after[i]
                != after[j] by {
                if i < before.len() && j < before.len() {
                } else if i < before.len() {
                    assert(before.contains(after[i]));
                } else {
                    assert(before.contains(after[j]));
                }
            }
        }
        self.outputs = outputs;
        true
    }

    /// Gives `output_path` back once its encoder has left: after that no
    /// render for it is under way. A path that is not listed changes nothing.
    #[verifier::loop_isolation(false)]
    pub fn finish(&mut self, output_path: &String)
        ensures
            final(self)@ == old(self)@.remove_value(output_path@),
            !final(self)@.contains(output_path@),
    {
        proof {
            use_type_invariant(&*self);
        }
        let mut outputs: Vec<String> = Vec::new();
        std::mem::swap(&mut outputs, &mut self.outputs);
        let ghost before = spec_texts(outputs@);
        let mut i: usize = 0;
        let mut found: Option<usize> = None;
        while i < outputs.len() && found.is_none()
            invariant
                i <= outputs.len(),
                spec_texts(outputs@) == before,
                found is None ==> forall|j: int| 0 <= j < i ==> before[j] != output_path@,
                found matches Some(at) ==> at < outputs.len() && before[at as int] == output_path@
                    && forall|j: int| 0 <= j < at ==> before[j] != output_path@,
            decreases outputs.len() - i + (if found is None { 1int } else { 0int }),
        {
            if outputs[i] == *output_path {
                assert(before[i as int] == output_path@);
                found = Some(i);
            } else {
                i += 1;
            }
        }
        proof {
            before.index_of_first_ensures(output_path@);
        }
        match found {
            Some(at) => {
                assert(before.index_of_first(output_path@) == Some(at as int));
                outputs.remove(at);
                proof {
                    let after = spec_texts(outputs@);
                    before.remove_ensures(at as int);
                    assert(after =~= before.remove(at as int));
                    assert forall|a: int, b: int|
                        0 <= a < after.len() && 0 <= b < after.len() && a != b implies after[a]
                        != after[b] by {
                        let a0 = if a < at { a } else { a + 1 };
                        let b0 = if b < at { b } else { b + 1 };
                        assert(after[a] == before[a0]);
                        assert(after[b] == before[b0]);
                    }
                    assert forall|a: int| 0 <= a < after.len() implies after[a] != output_path@ by {
                        let a0 = if a < at { a } else { a + 1 };
                        assert(after[a] == before[a0]);
                    }
                }
            },
            None => {
                assert(!before.contains(output_path@));
            },
        }
        self.outputs = outputs;
    }
}

/// A render that was begun is not begun again until it is finished, and can
/// be begun again after that.
pub proof fn renders_are_not_doubled(renders: Seq<Seq<char>>, output_path: Seq<char>)
    requires
        renders.no_duplicates(),
        !renders.contains(output_path),
    ensures
        renders.push(output_path).contains(output_path),
        renders.push(output_path).remove_value(output_path) == renders,
{
    let busy = renders.push(output_path);
    assert(busy[renders.len() as int] == output_path);
    busy.index_of_first_ensures(output_path);
    let i = busy.index_of_first(output_path)->Some_0;
    if i < renders.len() {
        assert(renders.contains(busy[i]));
    }
    assert(busy.remove(i) =~= renders);
}

} // verus!
