//! One capture stream: the life of the encoder process behind it.

use vstd::prelude::*;
use crate::error::RecordingError;
use crate::meta::Dimensions;

verus! {

/// How long a pipeline may take to accept its first frame, in milliseconds.
pub const START_TIMEOUT_MS: u64 = 10000;

/// How long a pipeline may take to flush after the end of the stream, in
/// milliseconds. After that the encoder is terminated by force.
pub const STOP_TIMEOUT_MS: u64 = 5000;

/// Where a pipeline stands.
#[derive(Clone, Copy, Debug, PartialEq, Eq, Structural)]
pub enum PipelineStatus {
    /// The encoder was launched and has not accepted a frame yet.
    Starting,
    /// The encoder is capturing.
    Running,
    /// The end of the stream was signalled and the encoder is flushing.
    Flushing,
    /// The encoder left cleanly and the file is complete.
    Closed,
    /// The encoder did not start, or died.
    Failed,
}

/// One capture stream of a session.
#[derive(Clone, Copy, Debug, PartialEq, Eq)]
pub struct CapturePipeline {
    pub status: PipelineStatus,
    /// The frame size that the source and the encoder agreed on, once known.
    pub dimensions: Option<Dimensions>,
}

/// What to do next while waiting for an encoder.
#[derive(Clone, Copy, Debug, PartialEq, Eq)]
pub enum WaitStep {
    /// Nothing has happened and there is time left: look again later.
    KeepWaiting,
    /// The time is up: terminate the encoder and treat the pipeline as failed
    /// with the given error.
    ForceKill(RecordingError),
    /// The wait is over with this result.
    Finished(Result<(), RecordingError>),
}

impl CapturePipeline {
    /// A pipeline whose encoder was just launched.
    pub open spec fn spec_launched() -> CapturePipeline {
        CapturePipeline { status: PipelineStatus::Starting, dimensions: None }
    }

    /// The pipeline after its start was reported: capturing with the agreed
    /// frame size, or failed. A pipeline that is not starting stays as it is.
    pub open spec fn spec_acknowledge(self, report: Result<Dimensions, RecordingError>) -> CapturePipeline {
        if self.status != PipelineStatus::Starting {
            self
        } else {
            match report {
                Ok(dimensions) => CapturePipeline {
                    status: PipelineStatus::Running,
                    dimensions: Some(dimensions),
                },
                Err(_) => CapturePipeline { status: PipelineStatus::Failed, dimensions: None },
            }
        }
    }

    /// The pipeline after the end of the stream was signalled: a capturing or
    /// starting encoder is now flushing.
    pub open spec fn spec_signal_stop(self) -> CapturePipeline {
        if self.status == PipelineStatus::Running || self.status == PipelineStatus::Starting {
            CapturePipeline { status: PipelineStatus::Flushing, dimensions: self.dimensions }
        } else {
            self
        }
    }

    /// The pipeline after its encoder is gone: closed on a clean exit, failed
    /// otherwise. The agreed frame size stays, for the file stays too.
    pub open spec fn spec_settle(self, clean: bool) -> CapturePipeline {
        if self.status != PipelineStatus::Flushing {
            self
        } else if clean {
            CapturePipeline { status: PipelineStatus::Closed, dimensions: self.dimensions }
        } else {
            CapturePipeline { status: PipelineStatus::Failed, dimensions: self.dimensions }
        }
    }

    /// The encoder process of this pipeline may still be alive.
    pub open spec fn spec_is_live(self) -> bool {
        self.status == PipelineStatus::Starting || self.status == PipelineStatus::Running
            || self.status == PipelineStatus::Flushing
    }

    pub fn launched() -> (pipeline: CapturePipeline)
        ensures
            pipeline == Self::spec_launched(),
    {
        CapturePipeline { status: PipelineStatus::Starting, dimensions: None }
    }

    pub fn acknowledge(self, report: Result<Dimensions, RecordingError>) -> (next: CapturePipeline)
        ensures
            next == self.spec_acknowledge(report),
    {
        if self.status != PipelineStatus::Starting {
            self
        } else {
            match report {
                Ok(dimensions) => CapturePipeline {
                    status: PipelineStatus::Running,
                    dimensions: Some(dimensions),
                },
                Err(_) => CapturePipeline { status: PipelineStatus::Failed, dimensions: None },
            }
        }
    }

    pub fn signal_stop(self) -> (next: CapturePipeline)
        ensures
            next == self.spec_signal_stop(),
    {
        if self.status == PipelineStatus::Running || self.status == PipelineStatus::Starting {
            CapturePipeline { status: PipelineStatus::Flushing, dimensions: self.dimensions }
        } else {
            self
        }
    }

    pub fn settle(self, clean: bool) -> (next: CapturePipeline)
        ensures
            next == self.spec_settle(clean),
    {
        if self.status != PipelineStatus::Flushing {
            self
        } else if clean {
            CapturePipeline { status: PipelineStatus::Closed, dimensions: self.dimensions }
        } else {
            CapturePipeline { status: PipelineStatus::Failed, dimensions: self.dimensions }
        }
    }

    pub fn is_live(&self) -> (live: bool)
        ensures
            live == self.spec_is_live(),
    {
        self.status == PipelineStatus::Starting || self.status == PipelineStatus::Running
            || self.status == PipelineStatus::Flushing
    }
}

/// The wait for the first frame. An encoder that has left did not start; one
/// that accepted a frame is ready; otherwise the wait lasts until
/// `START_TIMEOUT_MS` and then ends by force.
pub open spec fn spec_start_wait_step(elapsed_ms: u64, ready: bool, exit_code: Option<i32>) -> WaitStep {
    if exit_code is Some {
        WaitStep::Finished(Err(RecordingError::EncoderLaunchFailure))
    } else if ready {
        WaitStep::Finished(Ok(()))
    } else if elapsed_ms < START_TIMEOUT_MS {
        WaitStep::KeepWaiting
    } else {
        WaitStep::ForceKill(RecordingError::EncoderLaunchFailure)
    }
}

/// The wait for the flush. An encoder that left with code 0 closed its file;
/// one that left otherwise failed; otherwise the wait lasts until
/// `STOP_TIMEOUT_MS` and then ends by force.
pub open spec fn spec_stop_wait_step(elapsed_ms: u64, exit_code: Option<i32>) -> WaitStep {
    match exit_code {
        Some(code) => if code == 0 {
            WaitStep::Finished(Ok(()))
        } else {
            WaitStep::Finished(Err(RecordingError::EncoderRuntimeFailure))
        },
        None => if elapsed_ms < STOP_TIMEOUT_MS {
            WaitStep::KeepWaiting
        } else {
            WaitStep::ForceKill(RecordingError::EncoderRuntimeFailure)
        },
    }
}

pub fn start_wait_step(elapsed_ms: u64, ready: bool, exit_code: Option<i32>) -> (step: WaitStep)
    ensures
        step == spec_start_wait_step(elapsed_ms, ready, exit_code),
        elapsed_ms >= START_TIMEOUT_MS ==> step != WaitStep::KeepWaiting,
{
    if exit_code.is_some() {
        WaitStep::Finished(Err(RecordingError::EncoderLaunchFailure))
    } else if ready {
        WaitStep::Finished(Ok(()))
    } else if elapsed_ms < START_TIMEOUT_MS {
        WaitStep::KeepWaiting
    } else {
        WaitStep::ForceKill(RecordingError::EncoderLaunchFailure)
    }
}

pub fn stop_wait_step(elapsed_ms: u64, exit_code: Option<i32>) -> (step: WaitStep)
    ensures
        step == spec_stop_wait_step(elapsed_ms, exit_code),
        elapsed_ms >= STOP_TIMEOUT_MS ==> step != WaitStep::KeepWaiting,
{
    match exit_code {
        Some(code) => {
            if code == 0 {
                WaitStep::Finished(Ok(()))
            } else {
                WaitStep::Finished(Err(RecordingError::EncoderRuntimeFailure))
            }
        },
        None => {
            if elapsed_ms < STOP_TIMEOUT_MS {
                WaitStep::KeepWaiting
            } else {
                WaitStep::ForceKill(RecordingError::EncoderRuntimeFailure)
            }
        },
    }
}

} // verus!
