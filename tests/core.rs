use triangle_backend::backend::{vertex_buffer_size, Backend};
use triangle_backend::config::{RendererConfig, SurfaceRect};
use triangle_backend::device::{
    dxgi_desc_to_string, select_adapter, throw_if_failed, AdapterInfo, GraphicsDevice,
    ADAPTER_FLAG_SOFTWARE,
};
use triangle_backend::error::{BackendError, ShaderStage};
use triangle_backend::pipeline::{
    position_layout, vertex_stride, CullMode, FillMode, Format, InputElement, PipelineObject,
    Semantic,
};
use triangle_backend::recorder::{Command, FrameRecorder, RecorderState};
use triangle_backend::swapchain::{SwapchainRing, MAX_FRAME_COUNT};
use triangle_backend::tracker::{Barrier, ResourceState, ResourceStateTracker};

fn adapter(name: &str, flags: u32) -> AdapterInfo {
    let mut description: Vec<u16> = name.encode_utf16().collect();
    description.push(0);
    description.resize(128, 0);
    AdapterInfo { description, flags }
}

fn hardware() -> Vec<AdapterInfo> {
    vec![adapter("GPU", 0)]
}

fn ok_shader() -> Result<Vec<u8>, String> {
    Ok(vec![0x44, 0x58, 0x42, 0x43])
}

fn config(frame_count: u32) -> RendererConfig {
    RendererConfig { width: 1920, height: 1080, title: "t", frame_count }
}

fn expected_frame(target: usize, vertex_buffer: usize) -> Vec<Command> {
    let surface = SurfaceRect { width: 1920, height: 1080 };
    vec![
        Command::SetPipeline,
        Command::SetViewport(surface),
        Command::SetScissor(surface),
        Command::Transition(Barrier {
            resource: target,
            before: ResourceState::Present,
            after: ResourceState::RenderTarget,
        }),
        Command::SetRenderTarget(target),
        Command::Clear(target),
        Command::SetVertexBuffer(vertex_buffer),
        Command::Draw { vertex_count: 3, instance_count: 1 },
        Command::Transition(Barrier {
            resource: target,
            before: ResourceState::RenderTarget,
            after: ResourceState::Present,
        }),
    ]
}

#[test]
fn default_config() {
    let c = RendererConfig::default();
    assert_eq!(c.width, 1920);
    assert_eq!(c.height, 1080);
    assert_eq!(c.title, "Computer Graphics");
    assert_eq!(c.frame_count, 2);
}

#[test]
fn ring_current_index_in_range_after_create() {
    let device = GraphicsDevice::create(&hardware()).unwrap();
    for frame_count in 1..=3u32 {
        for reported in 0..frame_count {
            let ring = SwapchainRing::create(&device, 1920, 1080, frame_count, reported).unwrap();
            assert_eq!(ring.current_back_buffer(), reported);
            assert!(ring.current_back_buffer() < frame_count);
            assert_eq!(ring.frame_count(), frame_count);
        }
    }
}

#[test]
fn ring_creation_failures() {
    let device = GraphicsDevice::create(&hardware()).unwrap();
    assert!(matches!(
        SwapchainRing::create(&device, 1920, 1080, 0, 0),
        Err(BackendError::SwapchainCreationFailed)
    ));
    assert!(matches!(
        SwapchainRing::create(&device, 1920, 1080, 2, 2),
        Err(BackendError::SwapchainCreationFailed)
    ));
    assert!(matches!(
        SwapchainRing::create(&device, 1920, 1080, MAX_FRAME_COUNT + 1, 0),
        Err(BackendError::SwapchainCreationFailed)
    ));
    assert!(SwapchainRing::create(&device, 1920, 1080, MAX_FRAME_COUNT, 15).is_ok());
}

#[test]
fn ring_presents_follow_engine_and_stay_in_range() {
    let device = GraphicsDevice::create(&hardware()).unwrap();
    let mut ring = SwapchainRing::create(&device, 800, 600, 3, 0).unwrap();
    let mut seen = vec![ring.current_back_buffer()];
    for _ in 0..6 {
        let next = (ring.current_back_buffer() + 1) % 3;
        assert!(ring.present(Some(next)).is_ok());
        assert!(ring.current_back_buffer() < 3);
        seen.push(ring.current_back_buffer());
    }
    assert_eq!(seen, vec![0, 1, 2, 0, 1, 2, 0]);
}

#[test]
fn ring_present_failure_keeps_index() {
    let device = GraphicsDevice::create(&hardware()).unwrap();
    let mut ring = SwapchainRing::create(&device, 800, 600, 2, 1).unwrap();
    assert_eq!(ring.present(None), Err(BackendError::PresentFailed));
    assert_eq!(ring.current_back_buffer(), 1);
    assert_eq!(ring.present(Some(2)), Err(BackendError::PresentFailed));
    assert_eq!(ring.current_back_buffer(), 1);
    assert_eq!(ring.present(Some(0)), Ok(()));
    assert_eq!(ring.current_back_buffer(), 0);
}

#[test]
fn tracker_round_trip_restores_state() {
    let mut t = ResourceStateTracker::new();
    let r = t.register(ResourceState::Present);
    let other = t.register(ResourceState::GenericRead);
    let b = t
        .transition(r, ResourceState::Present, ResourceState::RenderTarget)
        .unwrap();
    assert_eq!(
        b,
        Barrier { resource: r, before: ResourceState::Present, after: ResourceState::RenderTarget }
    );
    assert_eq!(t.state_of(r), Some(ResourceState::RenderTarget));
    t.transition(r, ResourceState::RenderTarget, ResourceState::Present).unwrap();
    assert_eq!(t.state_of(r), Some(ResourceState::Present));
    assert_eq!(t.state_of(other), Some(ResourceState::GenericRead));
    assert_eq!(t.state_of(2), None);
    assert_eq!(t.len(), 2);
}

#[test]
fn tracker_rejects_stale_transition() {
    let mut t = ResourceStateTracker::new();
    let r = t.register(ResourceState::Present);
    let err = t
        .transition(r, ResourceState::RenderTarget, ResourceState::Present)
        .unwrap_err();
    assert_eq!(
        err,
        BackendError::InvalidTransition {
            resource: r,
            recorded: ResourceState::Present,
            claimed: ResourceState::RenderTarget,
        }
    );
    assert_eq!(t.state_of(r), Some(ResourceState::Present));
}

#[test]
fn recorder_cycle_replaces_commands() {
    let mut rec = FrameRecorder::new();
    assert_eq!(rec.state(), RecorderState::Idle);
    rec.reset();
    rec.record(Command::SetPipeline);
    rec.record(Command::Clear(0));
    assert_eq!(rec.len(), 2);
    let first = rec.submit();
    assert_eq!(first, vec![Command::SetPipeline, Command::Clear(0)]);
    assert_eq!(rec.state(), RecorderState::Submitted);
    assert_eq!(rec.len(), 0);
    rec.reset();
    rec.record(Command::Clear(1));
    assert_eq!(rec.submit(), vec![Command::Clear(1)]);
}

#[test]
fn pipeline_compile_failure_is_reported_per_stage() {
    let bad: Result<Vec<u8>, String> = Err("error X3000: syntax error".to_string());
    let r = PipelineObject::compile(bad.clone(), ok_shader(), position_layout());
    assert_eq!(
        r.err(),
        Some(BackendError::ShaderCompileFailed(
            ShaderStage::Vertex,
            "error X3000: syntax error".to_string()
        ))
    );
    let r = PipelineObject::compile(ok_shader(), bad, position_layout());
    assert_eq!(
        r.err(),
        Some(BackendError::ShaderCompileFailed(
            ShaderStage::Pixel,
            "error X3000: syntax error".to_string()
        ))
    );
    let both: Result<PipelineObject<Vec<u8>>, BackendError> =
        PipelineObject::compile(Err("v".to_string()), Err("p".to_string()), position_layout());
    assert_eq!(
        both.err(),
        Some(BackendError::ShaderCompileFailed(ShaderStage::Vertex, "v".to_string()))
    );
}

#[test]
fn pipeline_fixed_state() {
    let p = PipelineObject::compile(Ok(vec![1u8]), Ok(vec![2u8]), position_layout()).unwrap();
    let s = p.fixed_state();
    assert_eq!(s.fill_mode, FillMode::Solid);
    assert_eq!(s.cull_mode, CullMode::Disabled);
    assert_eq!(s.render_target_count, 1);
    assert_eq!(s.render_target_format, Format::R8G8B8A8Unorm);
    assert_eq!(s.sample_mask, u32::MAX);
    assert_eq!(s.color_write_mask, 0xF);
    assert_eq!(s.root_parameter_count, 0);
    assert!(s.input_assembler_layout);
    assert_eq!(p.vertex_shader(), &vec![1u8]);
    assert_eq!(p.pixel_shader(), &vec![2u8]);
    assert_eq!(p.input_layout().len(), 1);
    assert_eq!(p.input_layout()[0].format, Format::R32G32B32A32Float);
}

#[test]
fn adapter_selection_skips_software() {
    let adapters = vec![
        adapter("Basic Render Driver", ADAPTER_FLAG_SOFTWARE),
        adapter("GPU A", 0),
        adapter("GPU B", 0),
    ];
    assert_eq!(select_adapter(&adapters), Ok(1));
    let device = GraphicsDevice::create(&adapters).unwrap();
    assert_eq!(device.adapter_index(), 1);
    assert_eq!(select_adapter(&vec![adapter("remote", 1)]), Ok(0));
}

#[test]
fn no_qualifying_adapter_builds_nothing() {
    let adapters = vec![adapter("Basic Render Driver", ADAPTER_FLAG_SOFTWARE)];
    assert_eq!(select_adapter(&adapters), Err(BackendError::AdapterNotFound));
    assert!(matches!(GraphicsDevice::create(&adapters), Err(BackendError::AdapterNotFound)));
    assert!(matches!(GraphicsDevice::create(&vec![]), Err(BackendError::AdapterNotFound)));
    let r = Backend::init(config(2), &adapters, 0, ok_shader(), ok_shader());
    assert!(matches!(r, Err(BackendError::AdapterNotFound)));
}

#[test]
fn description_decodes_up_to_nul() {
    let a = adapter("NVIDIA GeForce RTX 4090", 0);
    assert_eq!(dxgi_desc_to_string(&a.description), "NVIDIA GeForce RTX 4090");
    let units: Vec<u16> = vec![0x47, 0xE9, 0xD800, 0x41, 0, 0x42];
    assert_eq!(dxgi_desc_to_string(&units), "G\u{e9}\u{fffd}A");
    assert_eq!(dxgi_desc_to_string(&vec![0x58, 0x59]), "XY");
    assert_eq!(dxgi_desc_to_string(&vec![0, 0x58]), "");
}

#[test]
fn status_codes() {
    assert_eq!(throw_if_failed(0), Ok(()));
    assert_eq!(throw_if_failed(1), Ok(()));
    assert_eq!(throw_if_failed(0x8000_4005u32 as i32), Err(0x8000_4005u32 as i32));
}

#[test]
fn init_errors_in_dependency_order() {
    let bad: Result<Vec<u8>, String> = Err("bad".to_string());
    assert!(matches!(
        Backend::init(config(0), &hardware(), 0, bad.clone(), ok_shader()),
        Err(BackendError::SwapchainCreationFailed)
    ));
    assert!(matches!(
        Backend::init(config(2), &hardware(), 5, ok_shader(), ok_shader()),
        Err(BackendError::SwapchainCreationFailed)
    ));
    assert!(matches!(
        Backend::init(config(2), &hardware(), 0, bad.clone(), ok_shader()),
        Err(BackendError::ShaderCompileFailed(ShaderStage::Vertex, _))
    ));
    assert!(matches!(
        Backend::init(config(2), &hardware(), 0, ok_shader(), bad),
        Err(BackendError::ShaderCompileFailed(ShaderStage::Pixel, _))
    ));
}

#[test]
fn one_frame_end_to_end() {
    let mut b = Backend::init(config(2), &hardware(), 0, ok_shader(), ok_shader()).unwrap();
    assert_eq!(b.current_back_buffer(), 0);
    assert_eq!(b.vertex_buffer(), 2);
    assert_eq!(b.state_of(0), Some(ResourceState::Present));
    assert_eq!(b.state_of(1), Some(ResourceState::Present));
    assert_eq!(b.state_of(2), Some(ResourceState::GenericRead));
    assert!(!b.is_awaiting_present());

    let cmds = b.render_frame().unwrap();
    assert_eq!(cmds, expected_frame(0, 2));
    let barriers_in = cmds
        .iter()
        .filter(|c| {
            matches!(c, Command::Transition(x)
                if x.before == ResourceState::Present && x.after == ResourceState::RenderTarget)
        })
        .count();
    let clears = cmds.iter().filter(|c| matches!(c, Command::Clear(_))).count();
    let draws = cmds.iter().filter(|c| matches!(c, Command::Draw { .. })).count();
    assert_eq!((barriers_in, clears, draws), (1, 1, 1));
    assert!(b.is_awaiting_present());
    assert_eq!(b.state_of(0), Some(ResourceState::Present));

    assert_eq!(b.present(Some(1)), Ok(()));
    assert!(!b.is_awaiting_present());
    assert_eq!(b.current_back_buffer(), 1);
    assert_eq!(b.state_of(0), Some(ResourceState::Present));
}

#[test]
fn consecutive_frames_use_different_buffers() {
    let mut b = Backend::init(config(2), &hardware(), 0, ok_shader(), ok_shader()).unwrap();
    let first = b.render_frame().unwrap();
    let next = (b.current_back_buffer() + 1) % 2;
    b.present(Some(next)).unwrap();
    let second = b.render_frame().unwrap();
    b.present(Some(0)).unwrap();
    assert_eq!(first, expected_frame(0, 2));
    assert_eq!(second, expected_frame(1, 2));
    assert_ne!(first[5], second[5]);
}

#[test]
fn failed_present_ends_frame_with_error() {
    let mut b = Backend::init(config(3), &hardware(), 2, ok_shader(), ok_shader()).unwrap();
    b.render_frame().unwrap();
    assert_eq!(b.present(None), Err(BackendError::PresentFailed));
    assert_eq!(b.current_back_buffer(), 2);
    assert!(!b.is_awaiting_present());
}

#[test]
fn vertex_layout_sizes() {
    let layout = position_layout();
    assert_eq!(vertex_stride(&layout), 16);
    assert_eq!(vertex_buffer_size(&layout), 48);
    assert_eq!(vertex_stride(&vec![]), 0);
    let color = InputElement {
        semantic: Semantic::Position,
        semantic_index: 1,
        format: Format::R8G8B8A8Unorm,
        slot: 0,
        byte_offset: 16,
    };
    let other_slot = InputElement { slot: 1, byte_offset: 64, ..color };
    let mut wider = position_layout();
    wider.push(color);
    wider.push(other_slot);
    assert_eq!(vertex_stride(&wider), 20);
    assert_eq!(vertex_buffer_size(&wider), 60);
    assert_eq!(Format::R32G32B32A32Float.byte_size(), 16);
}
