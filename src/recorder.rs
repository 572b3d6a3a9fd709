use vstd::prelude::*;

use crate::config::SurfaceRect;
use crate::tracker::Barrier;

verus! {

/// One GPU command as recorded for a frame.
#[derive(Debug, Clone, Copy, PartialEq, Eq, Structural)]
pub enum Command {
    /// Bind the pipeline object and its (empty) root signature.
    SetPipeline,
    SetViewport(SurfaceRect),
    SetScissor(SurfaceRect),
    /// A resource-state transition barrier.
    Transition(Barrier),
    /// Bind the given back buffer as the render target.
    SetRenderTarget(usize),
    /// Clear the given back buffer.
    Clear(usize),
    /// Bind the given vertex buffer as triangle-list input.
    SetVertexBuffer(usize),
    Draw { vertex_count: u32, instance_count: u32 },
}

/// Where the recorder stands in its per-frame cycle.
#[derive(Debug, Clone, Copy, PartialEq, Eq, Structural)]
pub enum RecorderState {
    Idle,
    Recording,
    Submitted,
}

/// The reusable per-frame command recorder. Each frame it is reset, filled,
/// and handed over whole; commands never carry over from one frame to the
/// next.
pub struct FrameRecorder {
    state: RecorderState,
    commands: Vec<Command>,
}

impl FrameRecorder {
    /// The recorder's current state.
    pub closed spec fn state_spec(&self) -> RecorderState {
        self.state
    }

    /// The commands recorded since the last reset.
    pub closed spec fn commands_spec(&self) -> Seq<Command> {
        self.commands@
    }

    /// A recorder that has never recorded.
    pub fn new() -> (r: Self)
        ensures
            r.state_spec() == RecorderState::Idle,
            r.commands_spec() == Seq::<Command>::empty(),
    {
        FrameRecorder { state: RecorderState::Idle, commands: Vec::new() }
    }

    pub fn state(&self) -> (r: RecorderState)
        ensures
            r == self.state_spec(),
    {
        self.state
    }

    pub fn len(&self) -> (n: usize)
        ensures
            n == self.commands_spec().len(),
    {
        self.commands.len()
    }

    /// Discards whatever was recorded before and starts a new recording.
    pub fn reset(&mut self)
        requires
            old(self).state_spec() != RecorderState::Recording,
        ensures
            final(self).state_spec() == RecorderState::Recording,
            final(self).commands_spec() == Seq::<Command>::empty(),
    {
        self.commands.clear();
        self.state = RecorderState::Recording;
    }

    /// Appends one command to the recording.
    pub fn record(&mut self, command: Command)
        requires
            old(self).state_spec() == RecorderState::Recording,
        ensures
            final(self).state_spec() == RecorderState::Recording,
            final(self).commands_spec() == old(self).commands_spec().push(command),
    {
        self.commands.push(command);
    }

    /// Closes the recording and hands over the whole sequence at once.
    pub fn submit(&mut self) -> (r: Vec<Command>)
        requires
            old(self).state_spec() == RecorderState::Recording,
        ensures
            r@ == old(self).commands_spec(),
            final(self).state_spec() == RecorderState::Submitted,
            final(self).commands_spec() == Seq::<Command>::empty(),
    {
        let mut out: Vec<Command> = Vec::new();
        std::mem::swap(&mut out, &mut self.commands);
        self.state = RecorderState::Submitted;
        out
    }
}

} // verus!
