use vstd::prelude::*;

verus! {

/// Why a request to the pipeline could not be honoured.
#[derive(Clone, Copy, Debug, PartialEq, Eq, Structural)]
pub enum PipelineError {
    /// No device exposes a queue family that can run compute work.
    DeviceNotFound,
    /// The chosen device lacks a shader capability that was asked for.
    UnsupportedDevice,
    /// A buffer or image could not be created.
    AllocationFailure,
    /// A shader artifact is missing or malformed.
    ShaderLoadFailure,
    /// A command buffer could not be recorded or was refused by the queue.
    SubmissionFailure,
    /// Waiting for the device failed.
    SynchronizationFailure,
}

/// How far the damage of a failure reaches.
#[derive(Clone, Copy, Debug, PartialEq, Eq, Structural)]
pub enum FailureScope {
    /// Nothing can be set up: the process cannot proceed.
    Process,
    /// The current frame is lost; the context stays usable.
    Frame,
    /// The current frame is lost and the context can no longer be relied on.
    Context,
}

impl PipelineError {
    /// The reach of each failure, as a mathematical function.
    pub open spec fn spec_scope(self) -> FailureScope {
        match self {
            PipelineError::DeviceNotFound | PipelineError::UnsupportedDevice => FailureScope::Process,
            PipelineError::AllocationFailure
            | PipelineError::ShaderLoadFailure
            | PipelineError::SubmissionFailure => FailureScope::Frame,
            PipelineError::SynchronizationFailure => FailureScope::Context,
        }
    }

    /// Classifies the failure: set-up failures end the process, a failed
    /// wait taints the context, everything else is local to one frame.
    pub fn scope(&self) -> (s: FailureScope)
        ensures
            s == self.spec_scope(),
    {
        match self {
            PipelineError::DeviceNotFound => FailureScope::Process,
            PipelineError::UnsupportedDevice => FailureScope::Process,
            PipelineError::AllocationFailure => FailureScope::Frame,
            PipelineError::ShaderLoadFailure => FailureScope::Frame,
            PipelineError::SubmissionFailure => FailureScope::Frame,
            PipelineError::SynchronizationFailure => FailureScope::Context,
        }
    }

    /// Whether the context may serve another frame after this failure.
    pub fn context_survives(&self) -> (b: bool)
        ensures
            b == (self.spec_scope() == FailureScope::Frame),
    {
        match self {
            PipelineError::AllocationFailure => true,
            PipelineError::ShaderLoadFailure => true,
            PipelineError::SubmissionFailure => true,
            _ => false,
        }
    }
}

} // verus!
