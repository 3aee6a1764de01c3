//! What the user chose to record, and what the shell has to do about it.

use vstd::prelude::*;

verus! {

/// What the display pipeline captures.
#[derive(Clone, Copy, Debug, PartialEq, Eq, Structural)]
pub enum CaptureTarget {
    /// The whole screen.
    Screen,
    /// One window, by its identifier.
    Window(u32),
}

/// The choices that a session is started with.
#[derive(Debug, PartialEq, Eq)]
pub struct RecordingOptions {
    capture_target: CaptureTarget,
    camera_label: Option<String>,
}

/// The mathematical content of [`RecordingOptions`].
pub struct RecordingOptionsView {
    pub capture_target: CaptureTarget,
    pub camera_label: Option<Seq<char>>,
}

impl View for RecordingOptions {
    type V = RecordingOptionsView;

    closed spec fn view(&self) -> RecordingOptionsView {
        RecordingOptionsView {
            capture_target: self.capture_target,
            camera_label: match self.camera_label {
                Some(label) => Some(label@),
                None => None,
            },
        }
    }
}

impl RecordingOptionsView {
    /// A session started with these options records the camera too.
    pub open spec fn wants_camera(self) -> bool {
        self.camera_label is Some
    }
}

impl RecordingOptions {
    pub fn new(capture_target: CaptureTarget, camera_label: Option<String>) -> (options: Self)
        ensures
            options@.capture_target == capture_target,
            options@.camera_label == match camera_label {
                Some(label) => Some(label@),
                None => None::<Seq<char>>,
            },
    {
        RecordingOptions { capture_target, camera_label }
    }

    pub fn capture_target(&self) -> (target: CaptureTarget)
        ensures
            target == self@.capture_target,
    {
        self.capture_target
    }

    pub fn camera_label(&self) -> (label: Option<&String>)
        ensures
            label is Some == self@.camera_label is Some,
            label matches Some(text) ==> self@.camera_label == Some(text@),
    {
        self.camera_label.as_ref()
    }

    pub fn wants_camera(&self) -> (yes: bool)
        ensures
            yes == self@.wants_camera(),
    {
        self.camera_label.is_some()
    }
}

impl Clone for RecordingOptions {
    fn clone(&self) -> (copy: Self)
        ensures
            copy@ == self@,
    {
        let camera_label = match &self.camera_label {
            Some(label) => Some(label.clone()),
            None => None,
        };
        RecordingOptions { capture_target: self.capture_target, camera_label }
    }
}

/// Tells the shell that the options a session would start with have changed.
#[derive(Clone, Copy, Debug, PartialEq, Eq, Structural)]
pub struct RecordingOptionsChanged;

/// Tells the shell to bring up the panel of finished recordings.
#[derive(Clone, Copy, Debug, PartialEq, Eq, Structural)]
pub struct ShowCapturesPanel;

/// What to do with the camera preview window.
#[derive(Clone, Copy, Debug, PartialEq, Eq, Structural)]
pub enum CameraWindowAction {
    /// The window is open and no camera is chosen: close it.
    Close,
    /// A camera is chosen and no window is open: create one.
    Create,
    /// The window already matches the choice.
    Keep,
}

/// What to do with the window that covers the screen around a captured window.
#[derive(Clone, Copy, Debug, PartialEq, Eq, Structural)]
pub enum OccluderAction {
    /// A window is captured and no occluder exists: create one.
    Create,
    /// A window is captured and the occluder exists: show it.
    Show,
    /// The screen is captured: close the occluder if there is one.
    Close,
}

/// The preview window follows the camera choice.
pub open spec fn spec_camera_window_action(
    window_open: bool,
    options: RecordingOptionsView,
) -> CameraWindowAction {
    if window_open && !options.wants_camera() {
        CameraWindowAction::Close
    } else if !window_open && options.wants_camera() {
        CameraWindowAction::Create
    } else {
        CameraWindowAction::Keep
    }
}

/// The occluder exists exactly while a single window is being captured.
pub open spec fn spec_occluder_action(target: CaptureTarget, occluder_open: bool) -> OccluderAction {
    match target {
        CaptureTarget::Window(_) => if occluder_open {
            OccluderAction::Show
        } else {
            OccluderAction::Create
        },
        CaptureTarget::Screen => OccluderAction::Close,
    }
}

pub fn camera_window_action(window_open: bool, options: &RecordingOptions) -> (action:
    CameraWindowAction)
    ensures
        action == spec_camera_window_action(window_open, options@),
{
    let wanted = options.wants_camera();
    if window_open && !wanted {
        CameraWindowAction::Close
    } else if !window_open && wanted {
        CameraWindowAction::Create
    } else {
        CameraWindowAction::Keep
    }
}

pub fn occluder_action(target: CaptureTarget, occluder_open: bool) -> (action: OccluderAction)
    ensures
        action == spec_occluder_action(target, occluder_open),
{
    match target {
        CaptureTarget::Window(_) => {
            if occluder_open {
                OccluderAction::Show
            } else {
                OccluderAction::Create
            }
        },
        CaptureTarget::Screen => OccluderAction::Close,
    }
}

} // verus!
