use vstd::prelude::*;

use crate::backend::TRIANGLE_VERTICES;
use crate::config::{RendererConfig, SurfaceRect};
use crate::error::{BackendError, ShaderStage};
use crate::pump::{PumpAction, PumpEvent};
use crate::pipeline::{PipelineObject, position_element, position_layout, triangle_state};
use crate::recorder::Command;

verus! {

/// The one framebuffer the immediate-mode API draws into.
pub const DEFAULT_FRAMEBUFFER: usize = 0;

/// The commands of one immediate-mode frame: clear, bind the program, bind
/// the vertex input, draw the triangle. The API tracks resource states
/// itself, so no barrier is issued.
pub open spec fn immediate_frame_commands() -> Seq<Command> {
    seq![
        Command::Clear(DEFAULT_FRAMEBUFFER),
        Command::SetPipeline,
        Command::SetVertexBuffer(0),
        Command::Draw { vertex_count: TRIANGLE_VERTICES, instance_count: 1 },
    ]
}

/// `i` is the first of the highest sample counts.
pub open spec fn is_first_max(samples: Seq<u8>, i: int) -> bool {
    &&& 0 <= i < samples.len()
    &&& forall|j: int| 0 <= j < samples.len() ==> samples[j] <= samples[i]
    &&& forall|j: int| 0 <= j < i ==> samples[j] < samples[i]
}

/// Among the offered framebuffer configurations, given by their sample
/// counts, picks the one with the most samples, the earliest on a tie.
/// Nothing is picked when nothing is offered.
pub fn select_config(samples: &Vec<u8>) -> (r: Option<usize>)
    ensures
        r matches Some(i) ==> is_first_max(samples@, i as int),
        r is None <==> samples@.len() == 0,
{
    if samples.len() == 0 {
        return None;
    }
    let mut best: usize = 0;
    let mut i: usize = 1;
    while i < samples.len()
        invariant
            1 <= i <= samples@.len(),
            best < i,
            forall|j: int| 0 <= j < i ==> samples@[j] <= samples@[best as int],
            forall|j: int| 0 <= j < best ==> samples@[j] < samples@[best as int],
        decreases samples@.len() - i,
    {
        if samples[i] > samples[best] {
            best = i;
        }
        i = i + 1;
    }
    Some(best)
}

/// The immediate-mode backend: a compiled program and the surface size;
/// the API owns the device, the buffers and their states.
pub struct ImmediateBackend<S> {
    config: RendererConfig,
    pipeline: PipelineObject<S>,
    surface: SurfaceRect,
}

impl<S> ImmediateBackend<S> {
    pub closed spec fn config_spec(&self) -> RendererConfig {
        self.config
    }

    pub closed spec fn pipeline_spec(&self) -> &PipelineObject<S> {
        &self.pipeline
    }

    pub closed spec fn surface_spec(&self) -> SurfaceRect {
        self.surface
    }

    /// Builds the program from the outcome of compiling each stage; a failed
    /// stage ends startup with `ShaderCompileFailed` for that stage.
    pub fn init(config: RendererConfig, vertex: Result<S, String>, pixel: Result<S, String>) -> (r:
        Result<ImmediateBackend<S>, BackendError>)
        ensures
            vertex matches Err(d) ==> r == Err::<ImmediateBackend<S>, BackendError>(
                BackendError::ShaderCompileFailed(ShaderStage::Vertex, d),
            ),
            vertex is Ok ==> (pixel matches Err(d) ==> r == Err::<
                ImmediateBackend<S>,
                BackendError,
            >(BackendError::ShaderCompileFailed(ShaderStage::Pixel, d))),
            vertex is Ok && pixel is Ok ==> (r matches Ok(b) && {
                &&& b.config_spec() == config
                &&& b.surface_spec() == (SurfaceRect { width: config.width, height: config.height })
                &&& b.pipeline_spec().vertex_spec() == vertex->Ok_0
                &&& b.pipeline_spec().pixel_spec() == pixel->Ok_0
                &&& b.pipeline_spec().layout_spec() == seq![position_element()]
                &&& b.pipeline_spec().state_spec() == triangle_state()
            }),
    {
        let pipeline = PipelineObject::compile(vertex, pixel, position_layout())?;
        Ok(
            ImmediateBackend {
                config,
                pipeline,
                surface: SurfaceRect::covering(config.width, config.height),
            },
        )
    }

    /// The commands of one frame, the same every frame.
    pub fn render_frame(&self) -> (r: Vec<Command>)
        ensures
            r@ == immediate_frame_commands(),
    {
        let mut cmds: Vec<Command> = Vec::new();
        cmds.push(Command::Clear(DEFAULT_FRAMEBUFFER));
        cmds.push(Command::SetPipeline);
        cmds.push(Command::SetVertexBuffer(0));
        cmds.push(Command::Draw { vertex_count: TRIANGLE_VERTICES, instance_count: 1 });
        assert(cmds@ =~= immediate_frame_commands());
        cmds
    }

    /// Follows a change of the window's size. A size with a zero side (a
    /// minimised window) is ignored; otherwise the new surface is returned,
    /// for the viewport and the drawable to be resized to it.
    pub fn resize(&mut self, width: u32, height: u32) -> (r: Option<SurfaceRect>)
        ensures
            width != 0 && height != 0 ==> {
                &&& r == Some(SurfaceRect { width, height })
                &&& final(self).surface_spec() == SurfaceRect { width, height }
            },
            width == 0 || height == 0 ==> {
                &&& r is None
                &&& final(self).surface_spec() == old(self).surface_spec()
            },
            final(self).config_spec() == old(self).config_spec(),
            final(self).pipeline_spec() == old(self).pipeline_spec(),
    {
        if width != 0 && height != 0 {
            self.surface = SurfaceRect::covering(width, height);
            Some(self.surface)
        } else {
            None
        }
    }

    /// The pump's decision for one event: close exits, a usable resize
    /// resizes, idle asks for a redraw, a redraw renders.
    pub fn handle_event(&mut self, event: PumpEvent) -> (r: PumpAction)
        ensures
            event == PumpEvent::CloseRequested ==> r == PumpAction::Exit,
            event == PumpEvent::EventsCleared ==> r == PumpAction::RequestRedraw,
            event == PumpEvent::RedrawRequested ==> r == PumpAction::Render,
            event == PumpEvent::Other ==> r == PumpAction::Wait,
            event matches PumpEvent::Resized { width, height } ==> {
                &&& (width != 0 && height != 0 ==> r == PumpAction::Resize(
                    SurfaceRect { width, height },
                ))
                &&& (width == 0 || height == 0 ==> r == PumpAction::Wait)
            },
            !(event is Resized) ==> final(self).surface_spec() == old(self).surface_spec(),
            event matches PumpEvent::Resized { width, height } ==> (width != 0 && height != 0
                ==> final(self).surface_spec() == (SurfaceRect { width, height })),
            event matches PumpEvent::Resized { width, height } ==> (width == 0 || height == 0
                ==> final(self).surface_spec() == old(self).surface_spec()),
            final(self).config_spec() == old(self).config_spec(),
            final(self).pipeline_spec() == old(self).pipeline_spec(),
    {
        match event {
            PumpEvent::CloseRequested => PumpAction::Exit,
            PumpEvent::Resized { width, height } => match self.resize(width, height) {
                Some(surface) => PumpAction::Resize(surface),
                None => PumpAction::Wait,
            },
            PumpEvent::EventsCleared => PumpAction::RequestRedraw,
            PumpEvent::RedrawRequested => PumpAction::Render,
            PumpEvent::Other => PumpAction::Wait,
        }
    }

    pub fn config(&self) -> (r: RendererConfig)
        ensures
            r == self.config_spec(),
    {
        self.config
    }

    pub fn surface(&self) -> (r: SurfaceRect)
        ensures
            r == self.surface_spec(),
    {
        self.surface
    }

    pub fn pipeline(&self) -> (r: &PipelineObject<S>)
        ensures
            r == self.pipeline_spec(),
    {
        &self.pipeline
    }
}

} // verus!
