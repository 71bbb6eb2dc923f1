use kappa::command::{BufferHandle, BufferUsage, Color, GpuCommand, RenderPass};
use kappa::error::{KappaError, RenderError, SurfaceError};
use kappa::pipeline::{build_pipeline, IndexFormat, Pipelines};
use kappa::render::{
    quad_vertices, Backends, Limits, Negotiation, PowerPreference, RenderInstance, Request,
    PIPELINE_NAME,
};
use kappa::renderer::{draw_count, RenderSystem};
use kappa::surface::{
    CompositeAlphaMode, PhysicalSize, PresentMode, SurfaceCapabilities, SurfaceConfiguration,
    TextureFormat, TextureUsages,
};
use kappa::vertex::Vertex;

fn capabilities() -> SurfaceCapabilities {
    SurfaceCapabilities {
        formats: vec![TextureFormat::Rgba8UnormSrgb, TextureFormat::Bgra8Unorm],
        alpha_modes: vec![CompositeAlphaMode::Opaque, CompositeAlphaMode::PostMultiplied],
    }
}

fn context(width: u32, height: u32) -> RenderInstance {
    RenderInstance::new(PhysicalSize::new(width, height), Negotiation::Ready(capabilities()))
        .expect("the negotiation succeeded")
}

fn float_vertex(position: [f32; 3], color: [f32; 4]) -> Vertex {
    Vertex {
        position: [position[0].to_bits(), position[1].to_bits(), position[2].to_bits()],
        color: [color[0].to_bits(), color[1].to_bits(), color[2].to_bits(), color[3].to_bits()],
        tex_coords: [0.0f32.to_bits(), 0.0f32.to_bits()],
    }
}

fn memory_of_vertices(list: &[Vertex]) -> Vec<u8> {
    let mut bytes: Vec<u8> = Vec::new();
    for v in list {
        for w in v.position.iter().chain(v.color.iter()).chain(v.tex_coords.iter()) {
            bytes.extend_from_slice(&w.to_ne_bytes());
        }
    }
    bytes
}

fn memory_of_indices(list: &[u16]) -> Vec<u8> {
    let mut bytes: Vec<u8> = Vec::new();
    for i in list {
        bytes.extend_from_slice(&i.to_ne_bytes());
    }
    bytes
}

fn vertex_slot(slot: usize) -> BufferHandle {
    BufferHandle { usage: BufferUsage::Vertex, slot }
}

fn index_slot(slot: usize) -> BufferHandle {
    BufferHandle { usage: BufferUsage::Index, slot }
}

fn draw_of(slot: usize, vertices: &[Vertex], indices: &[u16]) -> Vec<GpuCommand> {
    vec![
        GpuCommand::CreateBuffer {
            buffer: vertex_slot(slot),
            contents: memory_of_vertices(vertices),
        },
        GpuCommand::CreateBuffer { buffer: index_slot(slot), contents: memory_of_indices(indices) },
        GpuCommand::SetPipeline { name: "position_color".to_string() },
        GpuCommand::SetVertexBuffer { slot: 0, buffer: vertex_slot(slot) },
        GpuCommand::SetIndexBuffer { buffer: index_slot(slot), format: IndexFormat::Uint16 },
        GpuCommand::DrawIndexed {
            first_index: 0,
            end_index: indices.len() as u32,
            base_vertex: 0,
            first_instance: 0,
            end_instance: 1,
        },
    ]
}

fn opening() -> Vec<GpuCommand> {
    vec![
        GpuCommand::CreateView,
        GpuCommand::CreateEncoder,
        GpuCommand::BeginRenderPass { clear: Color { r: 0, g: 0, b: 0, a: 0 }, store: true },
    ]
}

fn closing() -> Vec<GpuCommand> {
    vec![GpuCommand::EndRenderPass, GpuCommand::Submit, GpuCommand::Present]
}

fn live_buffers_after(commands: &[GpuCommand]) -> Vec<BufferHandle> {
    let mut live: Vec<BufferHandle> = Vec::new();
    for c in commands {
        match c {
            GpuCommand::CreateBuffer { buffer, .. } => live.push(*buffer),
            GpuCommand::DestroyBuffer { buffer } => live.retain(|b| b != buffer),
            _ => {}
        }
    }
    live
}

fn count_of(commands: &[GpuCommand], wanted: fn(&GpuCommand) -> bool) -> usize {
    commands.iter().filter(|c| wanted(c)).count()
}

#[test]
fn request_asks_for_every_backend_and_downlevel_limits() {
    assert_eq!(
        Request::new(),
        Request {
            backends: Backends::All,
            power_preference: PowerPreference::NoPreference,
            force_fallback_adapter: false,
            compatible_with_surface: true,
            extra_features: false,
            limits: Limits::DownlevelDefaults,
        }
    );
}

#[test]
fn pipeline_name_is_position_color() {
    assert_eq!(PIPELINE_NAME, "position_color");
}

#[test]
fn quad_is_the_half_transparent_square() {
    let expected = vec![
        float_vertex([0.25, 0.25, 0.0], [1.0, 0.0, 1.0, 0.5]),
        float_vertex([0.75, 0.25, 0.0], [0.0, 0.0, 1.0, 0.5]),
        float_vertex([0.75, 0.75, 0.0], [0.0, 1.0, 0.0, 0.5]),
        float_vertex([0.25, 0.75, 0.0], [1.0, 0.0, 0.0, 0.5]),
    ];
    assert_eq!(quad_vertices(), expected);
}

#[test]
fn new_context_has_the_starting_configuration() {
    let instance = context(600, 400);
    assert_eq!(instance.size(), PhysicalSize::new(600, 400));
    assert_eq!(
        *instance.config(),
        SurfaceConfiguration {
            usage: TextureUsages::render_attachment(),
            format: TextureFormat::Bgra8Unorm,
            width: 600,
            height: 400,
            present_mode: PresentMode::Fifo,
            alpha_mode: CompositeAlphaMode::PostMultiplied,
            view_formats: vec![],
        }
    );
}

#[test]
fn new_context_has_the_one_pipeline() {
    let instance = context(600, 400);
    assert_eq!(instance.pipelines().len(), 1);
    assert_eq!(
        instance.pipelines().get("position_color"),
        Some(&build_pipeline(TextureFormat::Bgra8Unorm, Vertex::desc()))
    );
}

#[test]
fn new_context_pipeline_follows_the_chosen_format() {
    let caps = SurfaceCapabilities {
        formats: vec![TextureFormat::Rgba16Float, TextureFormat::Rgba8Unorm],
        alpha_modes: vec![CompositeAlphaMode::Inherit],
    };
    let instance = RenderInstance::new(PhysicalSize::new(10, 20), Negotiation::Ready(caps))
        .expect("the negotiation succeeded");
    assert_eq!(instance.config().format, TextureFormat::Rgba16Float);
    assert_eq!(instance.config().alpha_mode, CompositeAlphaMode::Inherit);
    let pipeline = instance.pipelines().get(PIPELINE_NAME).expect("the pipeline is there");
    assert_eq!(pipeline.target.format, TextureFormat::Rgba16Float);
}

#[test]
fn new_context_draws_the_quad() {
    let instance = context(600, 400);
    assert_eq!(instance.render_objects().len(), 1);
    let object = instance.render_objects()[0];
    assert_eq!(object.vertex_addr(), 0);
    assert_eq!(object.index_addr(), 0);
    assert_eq!(instance.cache().vertex_count(), 1);
    assert_eq!(instance.cache().index_count(), 1);
    assert_eq!(instance.cache().get_vertex(0), Some(&quad_vertices()));
    assert_eq!(instance.cache().get_index(0), Some(&vec![0u16, 1, 2, 2, 3, 0]));
    assert!(object.indices_valid(instance.cache()));
}

#[test]
fn new_context_with_a_zero_sized_window() {
    let instance = context(0, 0);
    assert_eq!(instance.size(), PhysicalSize::new(0, 0));
    assert_eq!(instance.config().width, 0);
    assert_eq!(instance.config().height, 0);
}

#[test]
fn failed_surface_is_surface_creation_failed() {
    let made = RenderInstance::new(PhysicalSize::new(600, 400), Negotiation::SurfaceFailed);
    assert_eq!(made.err(), Some(RenderError::SurfaceCreationFailed));
}

#[test]
fn missing_adapter_is_adapter_unavailable() {
    let made = RenderInstance::new(PhysicalSize::new(600, 400), Negotiation::NoAdapter);
    assert_eq!(
        made.err(),
        Some(RenderError::AdapterUnavailable(KappaError::new("Could not create an adapter")))
    );
}

#[test]
fn failed_device_is_device_request_failed() {
    let made = RenderInstance::new(PhysicalSize::new(600, 400), Negotiation::DeviceFailed);
    assert_eq!(made.err(), Some(RenderError::DeviceRequestFailed));
}

#[test]
fn failed_shader_is_shader_compile_failed() {
    let made = RenderInstance::new(PhysicalSize::new(600, 400), Negotiation::ShaderFailed);
    assert_eq!(made.err(), Some(RenderError::ShaderCompileFailed));
}

#[test]
fn resize_sets_size_and_configuration() {
    let mut instance = context(600, 400);
    let before = instance.config().duplicate();
    let applied = instance.resize(PhysicalSize::new(1024, 768));
    assert_eq!(instance.size(), PhysicalSize::new(1024, 768));
    assert_eq!(instance.config().width, 1024);
    assert_eq!(instance.config().height, 768);
    assert_eq!(applied.as_ref(), Some(instance.config()));
    assert_eq!(instance.config().format, before.format);
    assert_eq!(instance.config().alpha_mode, before.alpha_mode);
    assert_eq!(instance.config().present_mode, before.present_mode);
    assert_eq!(instance.config().usage, before.usage);
    assert_eq!(instance.config().view_formats, before.view_formats);
}

#[test]
fn resize_then_reconfigure_keeps_the_size_and_frames_still_draw() {
    let sizes = [(1u32, 1u32), (1, 4096), (800, 600), (1920, 1080), (u32::MAX, 1), (u32::MAX, u32::MAX)];
    for (width, height) in sizes {
        let mut instance = context(600, 400);
        let mut system = RenderSystem::new(&instance).expect("no failure");
        instance.resize(PhysicalSize::new(width, height));
        let config = instance.reconfigure();
        assert_eq!(config.width, width);
        assert_eq!(config.height, height);
        assert_eq!(instance.config().width, width);
        assert_eq!(instance.config().height, height);
        assert_eq!(instance.size(), PhysicalSize::new(width, height));
        assert!(instance.render(&mut system, Ok(())).is_ok());
    }
}

#[test]
fn reconfigure_returns_the_configuration_and_changes_nothing() {
    let mut instance = context(600, 400);
    let before = instance.config().duplicate();
    let first = instance.reconfigure();
    let second = instance.reconfigure();
    assert_eq!(first, before);
    assert_eq!(second, before);
    assert_eq!(*instance.config(), before);
    assert_eq!(instance.size(), PhysicalSize::new(600, 400));
}

#[test]
fn resize_with_a_zero_side_is_ignored() {
    for (width, height) in [(0u32, 0u32), (0, 600), (800, 0)] {
        let mut instance = context(600, 400);
        let before = instance.config().duplicate();
        assert_eq!(instance.resize(PhysicalSize::new(width, height)), None);
        assert_eq!(*instance.config(), before);
        assert_eq!(instance.size(), PhysicalSize::new(600, 400));
        assert_eq!(instance.render_objects().len(), 1);
    }
}

#[test]
fn resize_zero_then_resize_800_by_600() {
    let mut instance = context(600, 400);
    let before = instance.config().duplicate();

    let first = instance.resize(PhysicalSize::new(0, 0));
    assert_eq!(first, None);
    assert_eq!(*instance.config(), before);

    let second = instance.resize(PhysicalSize::new(800, 600));
    let applied = second.expect("one configuration to apply");
    assert_eq!(applied.width, 800);
    assert_eq!(applied.height, 600);
    assert_eq!(instance.config().width, 800);
    assert_eq!(instance.config().height, 600);
    assert_eq!(applied, *instance.config());
}

#[test]
fn resize_twice_to_the_same_size_is_resize_once() {
    let mut once = context(600, 400);
    let mut twice = context(600, 400);
    once.resize(PhysicalSize::new(300, 200));
    twice.resize(PhysicalSize::new(300, 200));
    let again = twice.resize(PhysicalSize::new(300, 200));
    assert_eq!(again.as_ref(), Some(once.config()));
    assert_eq!(twice.config(), once.config());
    assert_eq!(twice.size(), once.size());
}

#[test]
fn draw_count_is_the_length_in_32_bits() {
    assert_eq!(draw_count(0), 0);
    assert_eq!(draw_count(6), 6);
    assert_eq!(draw_count(65_536), 65_536);
    assert_eq!(draw_count(u32::MAX as usize), u32::MAX);
    assert_eq!(draw_count(usize::MAX), usize::MAX as u32);
}

#[test]
fn frame_of_a_600_by_400_window_with_one_quad() {
    let mut instance = context(600, 400);
    let mut system = RenderSystem::new(&instance).expect("no failure");
    let commands = instance.render(&mut system, Ok(())).expect("the frame is drawn");

    let mut expected = opening();
    expected.extend(draw_of(0, &quad_vertices(), &[0, 1, 2, 2, 3, 0]));
    expected.extend(closing());
    expected.push(GpuCommand::DestroyBuffer { buffer: vertex_slot(0) });
    expected.push(GpuCommand::DestroyBuffer { buffer: index_slot(0) });
    assert_eq!(commands, expected);

    assert_eq!(count_of(&commands, |c| matches!(c, GpuCommand::BeginRenderPass { .. })), 1);
    assert_eq!(count_of(&commands, |c| matches!(c, GpuCommand::SetPipeline { .. })), 1);
    assert_eq!(count_of(&commands, |c| matches!(c, GpuCommand::DrawIndexed { .. })), 1);
    assert_eq!(count_of(&commands, |c| matches!(c, GpuCommand::Submit)), 1);
    assert_eq!(count_of(&commands, |c| matches!(c, GpuCommand::Present)), 1);
    assert!(commands.contains(&GpuCommand::DrawIndexed {
        first_index: 0,
        end_index: 6,
        base_vertex: 0,
        first_instance: 0,
        end_instance: 1,
    }));
    assert!(live_buffers_after(&commands).is_empty());
}

#[test]
fn frame_clears_to_transparent_black() {
    let mut instance = context(600, 400);
    let mut system = RenderSystem::new(&instance).expect("no failure");
    let commands = instance.render(&mut system, Ok(())).expect("the frame is drawn");
    assert_eq!(
        commands[2],
        GpuCommand::BeginRenderPass {
            clear: Color {
                r: 0.0f64.to_bits(),
                g: 0.0f64.to_bits(),
                b: 0.0f64.to_bits(),
                a: 0.0f64.to_bits(),
            },
            store: true,
        }
    );
    assert_eq!(Color::transparent(), Color { r: 0, g: 0, b: 0, a: 0 });
}

#[test]
fn frame_draws_objects_in_registration_order() {
    let mut instance = context(600, 400);
    let mut system = RenderSystem::new(&instance).expect("no failure");
    let triangle = vec![
        float_vertex([0.0, 0.5, 0.0], [1.0, 0.0, 0.0, 1.0]),
        float_vertex([-0.5, -0.5, 0.0], [0.0, 1.0, 0.0, 1.0]),
        float_vertex([0.5, -0.5, 0.0], [0.0, 0.0, 1.0, 1.0]),
    ];
    let line = vec![
        float_vertex([-1.0, -1.0, 0.0], [1.0, 1.0, 1.0, 1.0]),
        float_vertex([1.0, 1.0, 0.0], [0.5, 0.5, 0.5, 1.0]),
    ];
    let second = instance.add_object(triangle.clone(), vec![0, 1, 2]);
    let third = instance.add_object(line.clone(), vec![0, 1, 1, 0]);
    assert_eq!(second.vertex_addr(), 1);
    assert_eq!(third.index_addr(), 2);

    let commands = instance.render(&mut system, Ok(())).expect("the frame is drawn");

    let mut expected = opening();
    expected.extend(draw_of(0, &quad_vertices(), &[0, 1, 2, 2, 3, 0]));
    expected.extend(draw_of(1, &triangle, &[0, 1, 2]));
    expected.extend(draw_of(2, &line, &[0, 1, 1, 0]));
    expected.extend(closing());
    for slot in 0..3 {
        expected.push(GpuCommand::DestroyBuffer { buffer: vertex_slot(slot) });
    }
    for slot in 0..3 {
        expected.push(GpuCommand::DestroyBuffer { buffer: index_slot(slot) });
    }
    assert_eq!(commands, expected);

    let draws: Vec<u32> = commands
        .iter()
        .filter_map(|c| match c {
            GpuCommand::DrawIndexed { end_index, .. } => Some(*end_index),
            _ => None,
        })
        .collect();
    assert_eq!(draws, vec![6, 3, 4]);
    assert!(live_buffers_after(&commands).is_empty());
}

#[test]
fn frame_releases_buffers_only_after_present() {
    let mut instance = context(600, 400);
    let mut system = RenderSystem::new(&instance).expect("no failure");
    instance.add_object(vec![float_vertex([0.0, 0.0, 0.0], [0.0, 0.0, 0.0, 0.0])], vec![0]);
    let commands = instance.render(&mut system, Ok(())).expect("the frame is drawn");
    let submit = commands.iter().position(|c| *c == GpuCommand::Submit).expect("one submit");
    let present = commands.iter().position(|c| *c == GpuCommand::Present).expect("one present");
    assert!(submit < present);
    for (at, c) in commands.iter().enumerate() {
        match c {
            GpuCommand::DestroyBuffer { .. } => assert!(at > present),
            GpuCommand::CreateBuffer { .. } | GpuCommand::DrawIndexed { .. } => assert!(at < submit),
            _ => {}
        }
    }
    assert_eq!(count_of(&commands, |c| matches!(c, GpuCommand::CreateBuffer { .. })), 4);
    assert_eq!(count_of(&commands, |c| matches!(c, GpuCommand::DestroyBuffer { .. })), 4);
}

#[test]
fn frame_after_frame_is_the_same() {
    let mut instance = context(600, 400);
    let mut system = RenderSystem::new(&instance).expect("no failure");
    let first = instance.render(&mut system, Ok(())).expect("the frame is drawn");
    let second = instance.render(&mut system, Ok(())).expect("the frame is drawn");
    assert_eq!(first, second);
    assert!(live_buffers_after(&first).is_empty());
    assert!(live_buffers_after(&second).is_empty());
}

#[test]
fn frame_is_skipped_when_the_image_is_not_acquired() {
    let mut instance = context(600, 400);
    let mut system = RenderSystem::new(&instance).expect("no failure");
    for cause in
        [SurfaceError::Timeout, SurfaceError::Outdated, SurfaceError::Lost, SurfaceError::OutOfMemory]
    {
        let rendered = instance.render(&mut system, Err(cause));
        assert_eq!(rendered, Err(RenderError::SurfaceAcquireFailed(cause)));
    }
    assert!(instance.render(&mut system, Ok(())).is_ok());
}

#[test]
fn frame_with_nothing_to_draw() {
    let config = SurfaceConfiguration::new(&capabilities(), PhysicalSize::new(64, 64));
    let mut instance =
        RenderInstance::with_pipelines(PhysicalSize::new(64, 64), config, Pipelines::new());
    let mut system = RenderSystem::new(&instance).expect("no failure");
    let commands = instance.render(&mut system, Ok(())).expect("the frame is drawn");
    let mut expected = opening();
    expected.extend(closing());
    assert_eq!(commands, expected);
}

#[test]
fn frame_without_the_pipeline_is_pipeline_lookup_failed() {
    let config = SurfaceConfiguration::new(&capabilities(), PhysicalSize::new(64, 64));
    let mut pipelines = Pipelines::new();
    pipelines.insert("position_colour", build_pipeline(config.format, Vertex::desc()));
    let mut instance = RenderInstance::with_pipelines(PhysicalSize::new(64, 64), config, pipelines);
    let mut system = RenderSystem::new(&instance).expect("no failure");
    instance.add_object(quad_vertices(), vec![0, 1, 2]);
    let rendered = instance.render(&mut system, Ok(()));
    assert_eq!(
        rendered,
        Err(RenderError::PipelineLookupFailed(KappaError::new("Unable to set Render Pipeline!")))
    );
    assert_eq!(
        instance.render(&mut system, Err(SurfaceError::Lost)),
        Err(RenderError::SurfaceAcquireFailed(SurfaceError::Lost))
    );
}

#[test]
fn with_pipelines_starts_with_nothing_to_draw() {
    let config = SurfaceConfiguration::new(&capabilities(), PhysicalSize::new(64, 32));
    let mut pipelines = Pipelines::new();
    pipelines.insert(PIPELINE_NAME, build_pipeline(config.format, Vertex::desc()));
    let instance =
        RenderInstance::with_pipelines(PhysicalSize::new(64, 32), config.duplicate(), pipelines);
    assert_eq!(instance.size(), PhysicalSize::new(64, 32));
    assert_eq!(*instance.config(), config);
    assert_eq!(instance.pipelines().len(), 1);
    assert!(instance.render_objects().is_empty());
    assert_eq!(instance.cache().vertex_count(), 0);
    assert_eq!(instance.cache().index_count(), 0);
}

#[test]
fn render_system_records_into_a_pass_that_has_buffers() {
    let mut instance = context(600, 400);
    let mut system = RenderSystem::new(&instance).expect("no failure");
    let mut pass = RenderPass::begin();
    let earlier = pass.create_buffer(BufferUsage::Vertex, vec![1, 2, 3]);
    assert_eq!(earlier, vertex_slot(0));
    assert_eq!(system.render(&mut pass, &mut instance), Ok(()));
    let commands = pass.finish();

    let mut drawn = draw_of(0, &quad_vertices(), &[0, 1, 2, 2, 3, 0]);
    drawn[0] = GpuCommand::CreateBuffer {
        buffer: vertex_slot(1),
        contents: memory_of_vertices(&quad_vertices()),
    };
    drawn[3] = GpuCommand::SetVertexBuffer { slot: 0, buffer: vertex_slot(1) };
    let mut expected = opening();
    expected.push(GpuCommand::CreateBuffer { buffer: vertex_slot(0), contents: vec![1, 2, 3] });
    expected.extend(drawn);
    expected.extend(closing());
    expected.push(GpuCommand::DestroyBuffer { buffer: vertex_slot(0) });
    expected.push(GpuCommand::DestroyBuffer { buffer: vertex_slot(1) });
    expected.push(GpuCommand::DestroyBuffer { buffer: index_slot(0) });
    assert_eq!(commands, expected);
}

#[test]
fn render_system_stops_at_the_missing_pipeline() {
    let config = SurfaceConfiguration::new(&capabilities(), PhysicalSize::new(64, 64));
    let mut instance =
        RenderInstance::with_pipelines(PhysicalSize::new(64, 64), config, Pipelines::new());
    let mut system = RenderSystem::new(&instance).expect("no failure");
    let triangle = vec![
        float_vertex([0.0, 0.5, 0.0], [1.0, 0.0, 0.0, 1.0]),
        float_vertex([-0.5, -0.5, 0.0], [0.0, 1.0, 0.0, 1.0]),
        float_vertex([0.5, -0.5, 0.0], [0.0, 0.0, 1.0, 1.0]),
    ];
    instance.add_object(triangle.clone(), vec![0, 1, 2]);
    instance.add_object(triangle.clone(), vec![2, 1, 0]);
    let mut pass = RenderPass::begin();
    assert_eq!(
        system.render(&mut pass, &mut instance),
        Err(RenderError::PipelineLookupFailed(KappaError::new("Unable to set Render Pipeline!")))
    );
    let commands = pass.finish();
    let mut expected = opening();
    expected.push(GpuCommand::CreateBuffer {
        buffer: vertex_slot(0),
        contents: memory_of_vertices(&triangle),
    });
    expected.push(GpuCommand::CreateBuffer {
        buffer: index_slot(0),
        contents: memory_of_indices(&[0, 1, 2]),
    });
    expected.extend(closing());
    expected.push(GpuCommand::DestroyBuffer { buffer: vertex_slot(0) });
    expected.push(GpuCommand::DestroyBuffer { buffer: index_slot(0) });
    assert_eq!(commands, expected);
    assert!(live_buffers_after(&commands).is_empty());
}

#[test]
fn pass_records_what_it_is_told() {
    let mut pass = RenderPass::begin();
    let v = pass.create_buffer(BufferUsage::Vertex, vec![9]);
    let i = pass.create_buffer(BufferUsage::Index, vec![8, 7]);
    let w = pass.create_buffer(BufferUsage::Vertex, vec![]);
    assert_eq!(v, vertex_slot(0));
    assert_eq!(i, index_slot(0));
    assert_eq!(w, vertex_slot(1));
    pass.set_pipeline("other");
    pass.set_vertex_buffer(3, w);
    pass.set_index_buffer(i, IndexFormat::Uint32);
    pass.draw_indexed(1, 5, -2, 3, 4);
    let commands = pass.finish();
    let mut expected = opening();
    expected.extend(vec![
        GpuCommand::CreateBuffer { buffer: v, contents: vec![9] },
        GpuCommand::CreateBuffer { buffer: i, contents: vec![8, 7] },
        GpuCommand::CreateBuffer { buffer: w, contents: vec![] },
        GpuCommand::SetPipeline { name: "other".to_string() },
        GpuCommand::SetVertexBuffer { slot: 3, buffer: w },
        GpuCommand::SetIndexBuffer { buffer: i, format: IndexFormat::Uint32 },
        GpuCommand::DrawIndexed {
            first_index: 1,
            end_index: 5,
            base_vertex: -2,
            first_instance: 3,
            end_instance: 4,
        },
    ]);
    expected.extend(closing());
    expected.extend(vec![
        GpuCommand::DestroyBuffer { buffer: v },
        GpuCommand::DestroyBuffer { buffer: w },
        GpuCommand::DestroyBuffer { buffer: i },
    ]);
    assert_eq!(commands, expected);
}

#[test]
fn empty_pass_opens_and_closes() {
    let commands = RenderPass::begin().finish();
    let mut expected = opening();
    expected.extend(closing());
    assert_eq!(commands, expected);
}
