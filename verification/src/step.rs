//! The four steps of a build from source, what performing one of them can
//! report, and the error that ends a build.

use crate::text::followed_by;
use vstd::prelude::*;
use vstd::string::*;

verus! {

/// One step of the build. The steps run in this order, each on the files
/// that the one before it left behind.
#[derive(Clone, Copy, Debug, PartialEq, Eq, Structural)]
pub enum BuildStep {
    /// Remove what an earlier build left in the staging directory.
    CleanStaging,
    /// Copy the vendored source tree into the staging directory.
    StageSource,
    /// Run the configuration script in the staging directory.
    Configure,
    /// Compile, and install under the install prefix.
    BuildInstall,
}

impl BuildStep {
    /// The place of the step in the sequence, counted from zero.
    pub open spec fn position(self) -> int {
        match self {
            BuildStep::CleanStaging => 0,
            BuildStep::StageSource => 1,
            BuildStep::Configure => 2,
            BuildStep::BuildInstall => 3,
        }
    }

    /// The step that follows, if any.
    pub open spec fn successor(self) -> Option<BuildStep> {
        match self {
            BuildStep::CleanStaging => Some(BuildStep::StageSource),
            BuildStep::StageSource => Some(BuildStep::Configure),
            BuildStep::Configure => Some(BuildStep::BuildInstall),
            BuildStep::BuildInstall => None,
        }
    }

    /// The step with which every build begins.
    pub fn first() -> (step: BuildStep)
        ensures
            step == step_at(0),
    {
        BuildStep::CleanStaging
    }

    /// The step that follows, if any.
    pub fn next(self) -> (following: Option<BuildStep>)
        ensures
            following == self.successor(),
    {
        match self {
            BuildStep::CleanStaging => Some(BuildStep::StageSource),
            BuildStep::StageSource => Some(BuildStep::Configure),
            BuildStep::Configure => Some(BuildStep::BuildInstall),
            BuildStep::BuildInstall => None,
        }
    }
}

/// The step at a place in the sequence.
pub open spec fn step_at(position: int) -> BuildStep {
    if position <= 0 {
        BuildStep::CleanStaging
    } else if position == 1 {
        BuildStep::StageSource
    } else if position == 2 {
        BuildStep::Configure
    } else {
        BuildStep::BuildInstall
    }
}

/// What performing a step reported. Success is what the tool itself says:
/// its exit status, or the result of the file operation. No output is read.
#[derive(Debug, PartialEq, Eq)]
pub enum StepOutcome {
    /// The step did its work.
    Succeeded,
    /// What the step was to act on, or the program it was to run, does not
    /// exist. The text describes the attempt.
    NotFound(String),
    /// The step failed in any other way. The text describes the attempt:
    /// the command line, and its exit status or the reason it did not start.
    Failed(String),
}

/// A [`StepOutcome`] with its text read as a character sequence.
pub enum StepOutcomeView {
    Succeeded,
    NotFound(Seq<char>),
    Failed(Seq<char>),
}

impl View for StepOutcome {
    type V = StepOutcomeView;

    open spec fn view(&self) -> StepOutcomeView {
        match self {
            StepOutcome::Succeeded => StepOutcomeView::Succeeded,
            StepOutcome::NotFound(description) => StepOutcomeView::NotFound(description@),
            StepOutcome::Failed(description) => StepOutcomeView::Failed(description@),
        }
    }
}

impl StepOutcomeView {
    /// The description that came with the outcome; none with a success.
    pub open spec fn description(self) -> Seq<char> {
        match self {
            StepOutcomeView::Succeeded => Seq::empty(),
            StepOutcomeView::NotFound(description) => description,
            StepOutcomeView::Failed(description) => description,
        }
    }
}

/// Whether `outcome` ends the build at `step`. Every outcome but success
/// does, with one exception: cleaning a staging directory that does not
/// exist has nothing to do, and is no failure.
pub open spec fn fails(step: BuildStep, outcome: StepOutcomeView) -> bool {
    match outcome {
        StepOutcomeView::Succeeded => false,
        StepOutcomeView::NotFound(_) => step != BuildStep::CleanStaging,
        StepOutcomeView::Failed(_) => true,
    }
}

/// Why a build ended without a library. Each variant names the step that
/// failed and carries the description that came with the failure. No
/// failure is retried, and none leaves a link directive behind.
#[derive(Debug, PartialEq, Eq)]
pub enum BuildError {
    /// The old staging directory could not be removed.
    StagingCleanupFailed(String),
    /// The source tree could not be copied into the staging directory.
    StagingCopyFailed(String),
    /// The configuration script failed.
    ConfigurationFailed(String),
    /// Compiling or installing failed.
    CompilationFailed(String),
}

/// A [`BuildError`] as the step that failed and the description of the
/// failure.
pub struct BuildErrorView {
    pub step: BuildStep,
    pub description: Seq<char>,
}

impl View for BuildError {
    type V = BuildErrorView;

    open spec fn view(&self) -> BuildErrorView {
        match self {
            BuildError::StagingCleanupFailed(description) => BuildErrorView {
                step: BuildStep::CleanStaging,
                description: description@,
            },
            BuildError::StagingCopyFailed(description) => BuildErrorView {
                step: BuildStep::StageSource,
                description: description@,
            },
            BuildError::ConfigurationFailed(description) => BuildErrorView {
                step: BuildStep::Configure,
                description: description@,
            },
            BuildError::CompilationFailed(description) => BuildErrorView {
                step: BuildStep::BuildInstall,
                description: description@,
            },
        }
    }
}

/// What a failed step is called in a message.
pub open spec fn step_label(step: BuildStep) -> Seq<char> {
    match step {
        BuildStep::CleanStaging => "removing the old staging directory"@,
        BuildStep::StageSource => "copying the source tree into the staging directory"@,
        BuildStep::Configure => "configuring the native library"@,
        BuildStep::BuildInstall => "building and installing the native library"@,
    }
}

impl BuildErrorView {
    /// The message of the error: the step that failed, then the
    /// description of the failure.
    pub open spec fn message(self) -> Seq<char> {
        step_label(self.step) + " failed: "@ + self.description
    }
}

impl BuildError {
    /// The error of a failure at `step`.
    pub fn at(step: BuildStep, description: String) -> (error: BuildError)
        ensures
            error@ == (BuildErrorView { step, description: description@ }),
    {
        match step {
            BuildStep::CleanStaging => BuildError::StagingCleanupFailed(description),
            BuildStep::StageSource => BuildError::StagingCopyFailed(description),
            BuildStep::Configure => BuildError::ConfigurationFailed(description),
            BuildStep::BuildInstall => BuildError::CompilationFailed(description),
        }
    }

    /// The step that failed.
    pub fn step(&self) -> (step: BuildStep)
        ensures
            step == self@.step,
    {
        match self {
            BuildError::StagingCleanupFailed(_) => BuildStep::CleanStaging,
            BuildError::StagingCopyFailed(_) => BuildStep::StageSource,
            BuildError::ConfigurationFailed(_) => BuildStep::Configure,
            BuildError::CompilationFailed(_) => BuildStep::BuildInstall,
        }
    }

    /// The description that came with the failure.
    pub fn description(&self) -> (description: &str)
        ensures
            description@ == self@.description,
    {
        match self {
            BuildError::StagingCleanupFailed(description) => description.as_str(),
            BuildError::StagingCopyFailed(description) => description.as_str(),
            BuildError::ConfigurationFailed(description) => description.as_str(),
            BuildError::CompilationFailed(description) => description.as_str(),
        }
    }

    /// A message for the user: which step failed, and how.
    pub fn message(&self) -> (message: String)
        ensures
            message@ == self@.message(),
    {
        let label = match self.step() {
            BuildStep::CleanStaging => "removing the old staging directory",
            BuildStep::StageSource => "copying the source tree into the staging directory",
            BuildStep::Configure => "configuring the native library",
            BuildStep::BuildInstall => "building and installing the native library",
        };
        let mut message = followed_by(label, " failed: ");
        message.append(self.description());
        message
    }
}

} // verus!
