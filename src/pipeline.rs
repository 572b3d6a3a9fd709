use vstd::prelude::*;

use crate::error::{BackendError, ShaderStage};

verus! {

#[derive(Debug, Clone, Copy, PartialEq, Eq, Structural)]
pub enum FillMode {
    Solid,
    Wireframe,
}

#[derive(Debug, Clone, Copy, PartialEq, Eq, Structural)]
pub enum CullMode {
    /// Both winding orders are drawn.
    Disabled,
    Front,
    Back,
}

#[derive(Debug, Clone, Copy, PartialEq, Eq, Structural)]
pub enum Topology {
    TriangleList,
}

/// Pixel and vertex-attribute formats used by the core.
#[derive(Debug, Clone, Copy, PartialEq, Eq, Structural)]
pub enum Format {
    /// Four 8-bit unsigned normalized channels: the back-buffer format.
    R8G8B8A8Unorm,
    /// Four 32-bit float channels: a `vec4` vertex position.
    R32G32B32A32Float,
}

#[derive(Debug, Clone, Copy, PartialEq, Eq, Structural)]
pub enum Semantic {
    Position,
}

/// One per-vertex attribute of the input layout.
#[derive(Debug, Clone, Copy, PartialEq, Eq, Structural)]
pub struct InputElement {
    pub semantic: Semantic,
    pub semantic_index: u32,
    pub format: Format,
    pub slot: u32,
    pub byte_offset: u32,
}

/// The fixed-function state and binding signature of the pipeline.
#[derive(Debug, Clone, Copy, PartialEq, Eq, Structural)]
pub struct FixedFunctionState {
    pub fill_mode: FillMode,
    pub cull_mode: CullMode,
    pub topology: Topology,
    pub render_target_count: u32,
    pub render_target_format: Format,
    pub sample_count: u32,
    pub sample_mask: u32,
    /// Which color channels the render target writes (0xF: all four).
    pub color_write_mask: u8,
    /// Root parameters bound: none, the triangle reads vertex input alone.
    pub root_parameter_count: u32,
    /// The binding signature admits an input-assembler layout.
    pub input_assembler_layout: bool,
}

/// Solid fill with no culling, so either winding order is drawn; one
/// render target in the back-buffer format; no resources bound.
pub open spec fn triangle_state() -> FixedFunctionState {
    FixedFunctionState {
        fill_mode: FillMode::Solid,
        cull_mode: CullMode::Disabled,
        topology: Topology::TriangleList,
        render_target_count: 1,
        render_target_format: Format::R8G8B8A8Unorm,
        sample_count: 1,
        sample_mask: u32::MAX,
        color_write_mask: 0xF,
        root_parameter_count: 0,
        input_assembler_layout: true,
    }
}

/// The position-only layout: one `vec4` per vertex at offset 0 of slot 0.
pub open spec fn position_element() -> InputElement {
    InputElement {
        semantic: Semantic::Position,
        semantic_index: 0,
        format: Format::R32G32B32A32Float,
        slot: 0,
        byte_offset: 0,
    }
}

impl FixedFunctionState {
    pub fn triangle() -> (r: Self)
        ensures
            r == triangle_state(),
    {
        FixedFunctionState {
            fill_mode: FillMode::Solid,
            cull_mode: CullMode::Disabled,
            topology: Topology::TriangleList,
            render_target_count: 1,
            render_target_format: Format::R8G8B8A8Unorm,
            sample_count: 1,
            sample_mask: u32::MAX,
            color_write_mask: 0xF,
            root_parameter_count: 0,
            input_assembler_layout: true,
        }
    }
}

/// The size in bytes of one value of the format.
pub open spec fn format_bytes(format: Format) -> nat {
    match format {
        Format::R8G8B8A8Unorm => 4,
        Format::R32G32B32A32Float => 16,
    }
}

impl Format {
    pub fn byte_size(self) -> (r: u32)
        ensures
            r == format_bytes(self),
    {
        match self {
            Format::R8G8B8A8Unorm => 4,
            Format::R32G32B32A32Float => 16,
        }
    }
}

/// The byte just past the attribute within a vertex.
pub open spec fn element_end(e: InputElement) -> nat {
    e.byte_offset as nat + format_bytes(e.format)
}

/// The size of one vertex in slot 0: the furthest end of an attribute read
/// from that slot (0 when none is).
pub open spec fn stride_of(layout: Seq<InputElement>) -> nat
    decreases layout.len(),
{
    if layout.len() == 0 {
        0
    } else {
        let rest = stride_of(layout.drop_last());
        let e = layout.last();
        if e.slot == 0 && element_end(e) > rest {
            element_end(e)
        } else {
            rest
        }
    }
}

/// The size of one vertex in slot 0 under the layout.
pub fn vertex_stride(layout: &Vec<InputElement>) -> (r: u64)
    ensures
        r == stride_of(layout@),
        r <= u32::MAX + 16,
{
    let mut stride: u64 = 0;
    let mut i: usize = 0;
    while i < layout.len()
        invariant
            0 <= i <= layout@.len(),
            stride == stride_of(layout@.subrange(0, i as int)),
            stride <= u32::MAX + 16,
        decreases layout@.len() - i,
    {
        let e = layout[i];
        let end = e.byte_offset as u64 + e.format.byte_size() as u64;
        proof {
            assert(layout@.subrange(0, i + 1).drop_last() =~= layout@.subrange(0, i as int));
            assert(layout@.subrange(0, i + 1).last() == e);
        }
        if e.slot == 0 && end > stride {
            stride = end;
        }
        i = i + 1;
    }
    assert(layout@.subrange(0, layout@.len() as int) =~= layout@);
    stride
}

/// The input layout of the triangle's vertex buffer.
pub fn position_layout() -> (r: Vec<InputElement>)
    ensures
        r@ == seq![position_element()],
{
    let mut v: Vec<InputElement> = Vec::new();
    v.push(
        InputElement {
            semantic: Semantic::Position,
            semantic_index: 0,
            format: Format::R32G32B32A32Float,
            slot: 0,
            byte_offset: 0,
        },
    );
    v
}

/// The immutable compiled pipeline: both shader stages (of whatever form the
/// backend compiles them to), the input layout, and the fixed-function state.
pub struct PipelineObject<S> {
    vertex_shader: S,
    pixel_shader: S,
    input_layout: Vec<InputElement>,
    state: FixedFunctionState,
}

impl<S> PipelineObject<S> {
    pub closed spec fn vertex_spec(&self) -> S {
        self.vertex_shader
    }

    pub closed spec fn pixel_spec(&self) -> S {
        self.pixel_shader
    }

    pub closed spec fn layout_spec(&self) -> Seq<InputElement> {
        self.input_layout@
    }

    pub closed spec fn state_spec(&self) -> FixedFunctionState {
        self.state
    }

    /// Builds the pipeline from the outcome of compiling each stage: the
    /// compiled stage, or the compiler's diagnostics. A failed stage makes
    /// the whole compile fail with `ShaderCompileFailed` for that stage (the
    /// vertex stage is reported first), and no pipeline is produced.
    pub fn compile(
        vertex: Result<S, String>,
        pixel: Result<S, String>,
        input_layout: Vec<InputElement>,
    ) -> (r: Result<PipelineObject<S>, BackendError>)
        ensures
            vertex matches Err(d) ==> r == Err::<PipelineObject<S>, BackendError>(
                BackendError::ShaderCompileFailed(ShaderStage::Vertex, d),
            ),
            vertex is Ok ==> (pixel matches Err(d) ==> r == Err::<PipelineObject<S>, BackendError>(
                BackendError::ShaderCompileFailed(ShaderStage::Pixel, d),
            )),
            vertex is Ok && pixel is Ok ==> (r matches Ok(p) && {
                &&& p.vertex_spec() == vertex->Ok_0
                &&& p.pixel_spec() == pixel->Ok_0
                &&& p.layout_spec() == input_layout@
                &&& p.state_spec() == triangle_state()
            }),
    {
        match vertex {
            Err(d) => Err(BackendError::ShaderCompileFailed(ShaderStage::Vertex, d)),
            Ok(vertex_shader) => match pixel {
                Err(d) => Err(BackendError::ShaderCompileFailed(ShaderStage::Pixel, d)),
                Ok(pixel_shader) => Ok(
                    PipelineObject {
                        vertex_shader,
                        pixel_shader,
                        input_layout,
                        state: FixedFunctionState::triangle(),
                    },
                ),
            },
        }
    }

    pub fn vertex_shader(&self) -> (r: &S)
        ensures
            *r == self.vertex_spec(),
    {
        &self.vertex_shader
    }

    pub fn pixel_shader(&self) -> (r: &S)
        ensures
            *r == self.pixel_spec(),
    {
        &self.pixel_shader
    }

    pub fn input_layout(&self) -> (r: &Vec<InputElement>)
        ensures
            r@ == self.layout_spec(),
    {
        &self.input_layout
    }

    pub fn fixed_state(&self) -> (r: FixedFunctionState)
        ensures
            r == self.state_spec(),
    {
        self.state
    }
}

} // verus!
