//! The metadata record that a finished session leaves behind.

use vstd::prelude::*;

verus! {

/// The size of a video stream in pixels.
#[derive(Clone, Copy, Debug, PartialEq, Eq, Structural)]
pub struct Dimensions {
    pub width: u32,
    pub height: u32,
}

/// What was captured: the display stream always, the camera stream if one was
/// recorded to the end. A record without `camera` has no overlay source.
#[derive(Clone, Copy, Debug, PartialEq, Eq)]
pub struct RecordingMeta {
    pub display: Dimensions,
    pub camera: Option<Dimensions>,
}

} // verus!
