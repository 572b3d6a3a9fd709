use vstd::prelude::*;

use crate::tracker::ResourceState;

verus! {

/// The programmable stage a shader is compiled for.
#[derive(Debug, Clone, Copy, PartialEq, Eq, Structural)]
pub enum ShaderStage {
    Vertex,
    Pixel,
}

/// Every way the backend core can fail. Each variant names the stage that
/// failed, so a caller can always report where startup or a frame stopped.
#[derive(Debug, PartialEq, Eq)]
pub enum BackendError {
    /// No enumerated adapter is a hardware device.
    AdapterNotFound,
    /// The device could not be created on the chosen adapter.
    DeviceCreationFailed,
    /// The swap chain could not be created, or reported an unusable state.
    SwapchainCreationFailed,
    /// A shader stage failed to compile; the text is the compiler's output.
    ShaderCompileFailed(ShaderStage, String),
    /// The pipeline object could not be created from compiled shaders.
    PipelineCreationFailed,
    /// A GPU resource (such as the vertex buffer) could not be created.
    ResourceCreationFailed,
    /// The recorded commands could not be submitted to the queue.
    SubmissionFailed,
    /// Presenting the back buffer failed.
    PresentFailed,
    /// A transition claimed a prior state that differs from the recorded one.
    InvalidTransition { resource: usize, recorded: ResourceState, claimed: ResourceState },
}

} // verus!
