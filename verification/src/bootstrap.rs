//! Making sure that the encoder binary is there before anything is recorded.
//!
//! The caller performs one step at a time and reports whether it succeeded;
//! `after_install_step` says what comes next.

use vstd::prelude::*;

verus! {

/// One step of the installation.
#[derive(Clone, Copy, Debug, PartialEq, Eq, Structural)]
pub enum InstallStep {
    /// Look whether the encoder is installed already.
    CheckInstalled,
    /// Ask which version is the latest. The answer is for the log only.
    CheckLatestVersion,
    /// Find the address of the package for this platform.
    FindDownloadUrl,
    /// Find the directory that the encoder is installed to.
    FindDestination,
    /// Download the package.
    Download,
    /// Unpack the package.
    Unpack,
    /// Ask the installed encoder for its version.
    ReadVersion,
}

/// Where the installation stands after a step.
#[derive(Clone, Copy, Debug, PartialEq, Eq, Structural)]
pub enum InstallProgress {
    /// Perform this step next.
    Run(InstallStep),
    /// The encoder is installed.
    Installed,
    /// The installation has failed at this step.
    Failed(InstallStep),
}

/// The number of steps that can still follow `step`.
pub open spec fn spec_steps_left(step: InstallStep) -> nat {
    match step {
        InstallStep::CheckInstalled => 6,
        InstallStep::CheckLatestVersion => 5,
        InstallStep::FindDownloadUrl => 4,
        InstallStep::FindDestination => 3,
        InstallStep::Download => 2,
        InstallStep::Unpack => 1,
        InstallStep::ReadVersion => 0,
    }
}

/// What follows `step`. An encoder that is found installed ends the
/// installation at once. The latest version is asked for but not needed.
/// Every later step must succeed.
pub open spec fn spec_after_install_step(step: InstallStep, succeeded: bool) -> InstallProgress {
    match step {
        InstallStep::CheckInstalled => if succeeded {
            InstallProgress::Installed
        } else {
            InstallProgress::Run(InstallStep::CheckLatestVersion)
        },
        InstallStep::CheckLatestVersion => InstallProgress::Run(InstallStep::FindDownloadUrl),
        InstallStep::FindDownloadUrl => if succeeded {
            InstallProgress::Run(InstallStep::FindDestination)
        } else {
            InstallProgress::Failed(step)
        },
        InstallStep::FindDestination => if succeeded {
            InstallProgress::Run(InstallStep::Download)
        } else {
            InstallProgress::Failed(step)
        },
        InstallStep::Download => if succeeded {
            InstallProgress::Run(InstallStep::Unpack)
        } else {
            InstallProgress::Failed(step)
        },
        InstallStep::Unpack => if succeeded {
            InstallProgress::Run(InstallStep::ReadVersion)
        } else {
            InstallProgress::Failed(step)
        },
        InstallStep::ReadVersion => if succeeded {
            InstallProgress::Installed
        } else {
            InstallProgress::Failed(step)
        },
    }
}

/// The step that an installation begins with.
pub fn first_install_step() -> (step: InstallStep)
    ensures
        step == InstallStep::CheckInstalled,
{
    InstallStep::CheckInstalled
}

pub fn after_install_step(step: InstallStep, succeeded: bool) -> (progress: InstallProgress)
    ensures
        progress == spec_after_install_step(step, succeeded),
        progress matches InstallProgress::Run(next) ==> spec_steps_left(next) < spec_steps_left(step),
{
    match step {
        InstallStep::CheckInstalled => {
            if succeeded {
                InstallProgress::Installed
            } else {
                InstallProgress::Run(InstallStep::CheckLatestVersion)
            }
        },
        InstallStep::CheckLatestVersion => InstallProgress::Run(InstallStep::FindDownloadUrl),
        InstallStep::FindDownloadUrl => {
            if succeeded {
                InstallProgress::Run(InstallStep::FindDestination)
            } else {
                InstallProgress::Failed(step)
            }
        },
        InstallStep::FindDestination => {
            if succeeded {
                InstallProgress::Run(InstallStep::Download)
            } else {
                InstallProgress::Failed(step)
            }
        },
        InstallStep::Download => {
            if succeeded {
                InstallProgress::Run(InstallStep::Unpack)
            } else {
                InstallProgress::Failed(step)
            }
        },
        InstallStep::Unpack => {
            if succeeded {
                InstallProgress::Run(InstallStep::ReadVersion)
            } else {
                InstallProgress::Failed(step)
            }
        },
        InstallStep::ReadVersion => {
            if succeeded {
                InstallProgress::Installed
            } else {
                InstallProgress::Failed(step)
            }
        },
    }
}

} // verus!
