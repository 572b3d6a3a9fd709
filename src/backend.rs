use vstd::prelude::*;

use crate::config::{RendererConfig, SurfaceRect};
use crate::device::{AdapterInfo, GraphicsDevice, is_first_hardware, no_hardware};
use crate::error::{BackendError, ShaderStage};
use crate::pipeline::{
    InputElement, PipelineObject, position_element, position_layout, stride_of, triangle_state,
    vertex_stride,
};
use crate::recorder::{Command, FrameRecorder, RecorderState};
use crate::swapchain::{MAX_FRAME_COUNT, SwapchainRing, present_step};
use crate::tracker::{Barrier, ResourceState, ResourceStateTracker};

verus! {

/// Vertices drawn per frame: the one triangle.
pub const TRIANGLE_VERTICES: u32 = 3;

/// The size in bytes of the vertex buffer: the triangle's vertices, each of
/// the layout's stride.
pub fn vertex_buffer_size(layout: &Vec<InputElement>) -> (r: u64)
    ensures
        r == stride_of(layout@) * TRIANGLE_VERTICES,
{
    let stride = vertex_stride(layout);
    stride * TRIANGLE_VERTICES as u64
}

/// The recorded states right after startup: every back buffer ready to be
/// presented, then the vertex buffer in its one upload-readable state.
pub open spec fn initial_states(frame_count: nat) -> Seq<ResourceState> {
    Seq::new(frame_count, |i: int| ResourceState::Present).push(ResourceState::GenericRead)
}

/// The commands of one frame rendered into back buffer `target`, in order:
/// bind, viewport and scissor over the surface, barrier in, target, clear,
/// vertex input, the draw of the triangle, barrier out.
pub open spec fn frame_commands(
    target: usize,
    vertex_buffer: usize,
    width: u32,
    height: u32,
) -> Seq<Command> {
    seq![
        Command::SetPipeline,
        Command::SetViewport(SurfaceRect { width, height }),
        Command::SetScissor(SurfaceRect { width, height }),
        Command::Transition(
            Barrier {
                resource: target,
                before: ResourceState::Present,
                after: ResourceState::RenderTarget,
            },
        ),
        Command::SetRenderTarget(target),
        Command::Clear(target),
        Command::SetVertexBuffer(vertex_buffer),
        Command::Draw { vertex_count: TRIANGLE_VERTICES, instance_count: 1 },
        Command::Transition(
            Barrier {
                resource: target,
                before: ResourceState::RenderTarget,
                after: ResourceState::Present,
            },
        ),
    ]
}

/// The explicit command-queue backend: device, swap-chain ring, pipeline,
/// state tracker and recorder, composed in that dependency order. The GPU
/// handles themselves live with the caller, which performs each command the
/// core decides on and reports back what the GPU said.
///
/// A frame is two steps: `render_frame` records and hands over the whole
/// command sequence for one atomic submission, and `present` takes the
/// outcome of presenting it. There is deliberately no GPU fence: the recorder
/// is reset for the next frame once the previous present has been reported,
/// and it is the swap chain's buffering that leaves the GPU time to consume
/// the previous commands first.
pub struct Backend<S> {
    config: RendererConfig,
    device: GraphicsDevice,
    ring: SwapchainRing,
    pipeline: PipelineObject<S>,
    tracker: ResourceStateTracker,
    recorder: FrameRecorder,
    vertex_buffer: usize,
    awaiting_present: bool,
}

impl<S> Backend<S> {
    /// Between frames every back buffer is ready to present and the vertex
    /// buffer keeps its one state; the recorder is never left mid-recording.
    pub closed spec fn wf(&self) -> bool {
        &&& self.ring.in_ring()
        &&& self.ring.frame_count_spec() == self.config.frame_count
        &&& self.vertex_buffer == self.ring.frame_count_spec()
        &&& self.tracker@ == initial_states(self.ring.frame_count_spec())
        &&& self.recorder.state_spec() != RecorderState::Recording
        &&& self.ring.width_spec() == self.config.width
        &&& self.ring.height_spec() == self.config.height
    }

    pub closed spec fn config_spec(&self) -> RendererConfig {
        self.config
    }

    pub closed spec fn adapter_spec(&self) -> int {
        self.device.adapter_spec()
    }

    pub closed spec fn current_spec(&self) -> nat {
        self.ring.current_spec()
    }

    pub closed spec fn states_spec(&self) -> Seq<ResourceState> {
        self.tracker@
    }

    pub closed spec fn vertex_buffer_spec(&self) -> nat {
        self.vertex_buffer as nat
    }

    pub closed spec fn pipeline_spec(&self) -> &PipelineObject<S> {
        &self.pipeline
    }

    /// Whether a frame has been handed over and its present not yet reported.
    pub closed spec fn awaiting_present_spec(&self) -> bool {
        self.awaiting_present
    }

    /// Between frames, every back buffer is recorded as ready to present, the
    /// vertex buffer as upload-readable, and the current back buffer lies
    /// inside the ring.
    pub proof fn lemma_between_frames(&self)
        requires
            self.wf(),
        ensures
            self.states_spec() == initial_states(self.config_spec().frame_count as nat),
            self.vertex_buffer_spec() == self.config_spec().frame_count,
            self.current_spec() < self.config_spec().frame_count,
            1 <= self.config_spec().frame_count <= MAX_FRAME_COUNT,
            self.states_spec()[self.current_spec() as int] == ResourceState::Present,
    {
    }

    /// Brings the backend up in dependency order from what the platform
    /// reported: the enumerated adapters, the back-buffer index the swap
    /// chain reported after creation, and the outcome of compiling each
    /// shader stage. The first failing stage ends startup with its error and
    /// nothing is left half-built.
    pub fn init(
        config: RendererConfig,
        adapters: &Vec<AdapterInfo>,
        reported_index: u32,
        vertex: Result<S, String>,
        pixel: Result<S, String>,
    ) -> (r: Result<Backend<S>, BackendError>)
        ensures
            no_hardware(adapters@) ==> r == Err::<Backend<S>, BackendError>(
                BackendError::AdapterNotFound,
            ),
            !no_hardware(adapters@) ==> (!(1 <= config.frame_count <= MAX_FRAME_COUNT
                && reported_index < config.frame_count) ==> r == Err::<Backend<S>, BackendError>(
                BackendError::SwapchainCreationFailed,
            )),
            !no_hardware(adapters@) && 1 <= config.frame_count <= MAX_FRAME_COUNT
                && reported_index < config.frame_count ==> {
                &&& (vertex matches Err(d) ==> r == Err::<Backend<S>, BackendError>(
                    BackendError::ShaderCompileFailed(ShaderStage::Vertex, d),
                ))
                &&& (vertex is Ok ==> (pixel matches Err(d) ==> r == Err::<
                    Backend<S>,
                    BackendError,
                >(BackendError::ShaderCompileFailed(ShaderStage::Pixel, d))))
                &&& (vertex is Ok && pixel is Ok ==> (r matches Ok(b) && {
                    &&& b.wf()
                    &&& b.config_spec() == config
                    &&& is_first_hardware(adapters@, b.adapter_spec())
                    &&& b.current_spec() == reported_index
                    &&& b.states_spec() == initial_states(config.frame_count as nat)
                    &&& b.vertex_buffer_spec() == config.frame_count
                    &&& !b.awaiting_present_spec()
                    &&& b.pipeline_spec().vertex_spec() == vertex->Ok_0
                    &&& b.pipeline_spec().pixel_spec() == pixel->Ok_0
                    &&& b.pipeline_spec().layout_spec() == seq![position_element()]
                    &&& b.pipeline_spec().state_spec() == triangle_state()
                }))
            },
    {
        let device = GraphicsDevice::create(adapters)?;
        let ring = SwapchainRing::create(
            &device,
            config.width,
            config.height,
            config.frame_count,
            reported_index,
        )?;
        let pipeline = PipelineObject::compile(vertex, pixel, position_layout())?;
        let mut tracker = ResourceStateTracker::new();
        let mut i: u32 = 0;
        while i < config.frame_count
            invariant
                i <= config.frame_count,
                tracker@ == Seq::new(i as nat, |k: int| ResourceState::Present),
            decreases config.frame_count - i,
        {
            tracker.register(ResourceState::Present);
            i = i + 1;
            assert(tracker@ =~= Seq::new(i as nat, |k: int| ResourceState::Present));
        }
        let vertex_buffer = tracker.register(ResourceState::GenericRead);
        proof {
            assert(tracker@ =~= initial_states(config.frame_count as nat));
            use_type_invariant(&ring);
        }
        Ok(
            Backend {
                config,
                device,
                ring,
                pipeline,
                tracker,
                recorder: FrameRecorder::new(),
                vertex_buffer,
                awaiting_present: false,
            },
        )
    }

    /// Records one frame into the current back buffer and hands the whole
    /// sequence over for submission. The recorder is reset first, so nothing
    /// from an earlier frame is carried over; the back buffer goes to render
    /// target and back, so afterwards every tracked state is as before.
    pub fn render_frame(&mut self) -> (r: Result<Vec<Command>, BackendError>)
        requires
            old(self).wf(),
            !old(self).awaiting_present_spec(),
        ensures
            final(self).wf(),
            final(self).awaiting_present_spec(),
            r matches Ok(cmds) && cmds@ == frame_commands(
                old(self).current_spec() as usize,
                old(self).vertex_buffer_spec() as usize,
                old(self).config_spec().width,
                old(self).config_spec().height,
            ),
            final(self).config_spec() == old(self).config_spec(),
            final(self).adapter_spec() == old(self).adapter_spec(),
            final(self).current_spec() == old(self).current_spec(),
            final(self).states_spec() == old(self).states_spec(),
            final(self).vertex_buffer_spec() == old(self).vertex_buffer_spec(),
            final(self).pipeline_spec() == old(self).pipeline_spec(),
    {
        proof {
            use_type_invariant(&self.ring);
        }
        let target = self.ring.current_back_buffer() as usize;
        let surface = SurfaceRect::covering(self.ring.width(), self.ring.height());
        self.recorder.reset();
        self.recorder.record(Command::SetPipeline);
        self.recorder.record(Command::SetViewport(surface));
        self.recorder.record(Command::SetScissor(surface));
        let enter = self.tracker.transition(
            target,
            ResourceState::Present,
            ResourceState::RenderTarget,
        )?;
        self.recorder.record(Command::Transition(enter));
        self.recorder.record(Command::SetRenderTarget(target));
        self.recorder.record(Command::Clear(target));
        self.recorder.record(Command::SetVertexBuffer(self.vertex_buffer));
        self.recorder.record(Command::Draw { vertex_count: TRIANGLE_VERTICES, instance_count: 1 });
        let leave = self.tracker.transition(
            target,
            ResourceState::RenderTarget,
            ResourceState::Present,
        )?;
        self.recorder.record(Command::Transition(leave));
        let cmds = self.recorder.submit();
        self.awaiting_present = true;
        proof {
            assert(self.tracker@ =~= old(self).tracker@);
            assert(cmds@ =~= frame_commands(
                target,
                self.vertex_buffer,
                self.config.width,
                self.config.height,
            ));
        }
        Ok(cmds)
    }

    /// Takes the outcome of presenting the submitted frame: `Some` with the
    /// index the presentation engine reports as next, `None` when the present
    /// failed. The frame is over either way; on success the current index is
    /// refreshed to the report.
    pub fn present(&mut self, reported: Option<u32>) -> (r: Result<(), BackendError>)
        requires
            old(self).wf(),
            old(self).awaiting_present_spec(),
        ensures
            final(self).wf(),
            !final(self).awaiting_present_spec(),
            final(self).current_spec() == present_step(
                old(self).config_spec().frame_count as nat,
                old(self).current_spec(),
                reported,
            ),
            r is Ok <==> (reported matches Some(i) && i < old(self).config_spec().frame_count),
            r matches Err(e) ==> e == BackendError::PresentFailed,
            final(self).config_spec() == old(self).config_spec(),
            final(self).adapter_spec() == old(self).adapter_spec(),
            final(self).states_spec() == old(self).states_spec(),
            final(self).vertex_buffer_spec() == old(self).vertex_buffer_spec(),
            final(self).pipeline_spec() == old(self).pipeline_spec(),
    {
        let r = self.ring.present(reported);
        self.awaiting_present = false;
        proof {
            use_type_invariant(&self.ring);
        }
        r
    }

    pub fn config(&self) -> (r: RendererConfig)
        ensures
            r == self.config_spec(),
    {
        self.config
    }

    pub fn adapter_index(&self) -> (r: usize)
        ensures
            r == self.adapter_spec(),
    {
        self.device.adapter_index()
    }

    /// The back buffer the next frame renders into.
    pub fn current_back_buffer(&self) -> (r: u32)
        requires
            self.wf(),
        ensures
            r == self.current_spec(),
            r < self.config_spec().frame_count,
    {
        self.ring.current_back_buffer()
    }

    /// The tracked identifier of the vertex buffer.
    pub fn vertex_buffer(&self) -> (r: usize)
        ensures
            r == self.vertex_buffer_spec(),
    {
        self.vertex_buffer
    }

    /// The recorded state of a tracked resource, if it is one.
    pub fn state_of(&self, resource: usize) -> (r: Option<ResourceState>)
        ensures
            r == (if resource < self.states_spec().len() {
                Some(self.states_spec()[resource as int])
            } else {
                None
            }),
    {
        self.tracker.state_of(resource)
    }

    pub fn is_awaiting_present(&self) -> (r: bool)
        ensures
            r == self.awaiting_present_spec(),
    {
        self.awaiting_present
    }

    pub fn pipeline(&self) -> (r: &PipelineObject<S>)
        ensures
            r == self.pipeline_spec(),
    {
        &self.pipeline
    }
}

} // verus!
