use forward_renderer::app::{frame, mouse_motion, resize, update, window_event, ControlFlow, SurfaceError};
use forward_renderer::camera::{Camera, RenderBuffers};
use forward_renderer::camera_controller::{ElementState, VirtualKeyCode};
use forward_renderer::command::{
    Color, ColorAttachment, ColorLoad, ColorTarget, CommandEncoder, DepthAttachment, LoadOp,
    QueueWrite, RenderCommand,
};
use forward_renderer::compositor::Compositor;
use forward_renderer::device::{
    BindGroupEntry, BindingResource, BufferDescriptor, BufferId, BufferUsages, Device,
    RenderPipelineId, TextureFormat,
};
use forward_renderer::event::{Forward, InputOutcome, MouseButton, WindowEvent};
use forward_renderer::gpu_state::{GpuState, PhysicalSize};
use std::collections::HashMap;
use forward_renderer::light::{Light, LightType};
use forward_renderer::material::{Material, MaterialProperties};
use forward_renderer::model::{Mesh, Model};
use forward_renderer::pipeline_state::{EntryPoint, ShaderSource};
use forward_renderer::render_pipeline::Pass;
use forward_renderer::scene::{Scene, SkippedDraw};
use forward_renderer::texture::Texture;

type Instance = [f32; 7];
type Block = [f32; 4];
type TestScene = Scene<f32, Block, Block, Instance>;

fn gpu() -> GpuState {
    GpuState::new(PhysicalSize { width: 800, height: 600 }, 1)
}

fn project(view: &f32, size: PhysicalSize) -> Block {
    [*view, size.width as f32, size.height as f32, 0.0]
}

fn material(gpu: &mut GpuState, name: &str, environment: bool) -> Material {
    let environment_map = if environment {
        Some(Texture::cubemap_from_dds(&mut gpu.device, 8, 8, 1))
    } else {
        None
    };
    Material::new(
        &mut gpu.device,
        &mut gpu.queue,
        MaterialProperties {
            name: name.to_string(),
            environment_map,
            diffuse_texture: None,
            normal_texture: None,
            glossiness_texture: None,
        },
    )
}

fn mesh(device: &mut Device, material: usize) -> Mesh {
    let usage = BufferUsages { uniform: false, vertex: true, index: true, copy_dst: false };
    Mesh {
        name: "cube".to_string(),
        vertex_buffer: device.create_buffer(BufferDescriptor { size: 56 * 24, usage }),
        index_buffer: device.create_buffer(BufferDescriptor { size: 4 * 36, usage }),
        num_elements: 36,
        material,
    }
}

fn cube(gpu: &mut GpuState, instances: usize) -> Model<Instance> {
    let material = material(gpu, "plain", false);
    let mesh = mesh(&mut gpu.device, 0);
    Model::new(&mut gpu.device, vec![mesh], vec![material], vec![[0.0; 7]; instances])
}

fn light(gpu: &mut GpuState, kind: LightType) -> Light<Block> {
    Light::new(&mut gpu.device, kind, [0.0, 0.0, 0.0, kind.value() as f32])
}

fn four_lights(gpu: &mut GpuState) -> Vec<(usize, Light<Block>)> {
    vec![
        (0, light(gpu, LightType::Ambient)),
        (1, light(gpu, LightType::Directional)),
        (2, light(gpu, LightType::Point)),
        (3, light(gpu, LightType::Spot)),
    ]
}

const GREY: Color = Color { r: 26, g: 26, b: 26, a: 255 };

fn keyed<T>(entries: Vec<(usize, T)>) -> HashMap<usize, T> {
    entries.into_iter().collect()
}

fn scene_with(gpu: &mut GpuState, lights: Vec<(usize, Light<Block>)>, models: Vec<(usize, Model<Instance>)>) -> TestScene {
    let camera = Camera::new(gpu, 45.0f32);
    Scene::new(gpu, camera, keyed(lights), keyed(models), [0.05 * 0.05; 4], GREY)
}

fn pipelines_bound(commands: &[RenderCommand]) -> Vec<RenderPipelineId> {
    commands
        .iter()
        .filter_map(|command| match command {
            RenderCommand::SetPipeline { pipeline } => Some(*pipeline),
            _ => None,
        })
        .collect()
}

#[test]
fn empty_scene_clears_and_draws_nothing() {
    let mut gpu = gpu();
    let lights = vec![(0, light(&mut gpu, LightType::Ambient))];
    let scene = scene_with(&mut gpu, lights, vec![]);
    assert_eq!(scene.ambient_light.light_type(), LightType::Ambient);
    assert_eq!(*scene.ambient_light.data(), [0.05f32 * 0.05; 4]);
    assert_eq!(gpu.device.render_pipelines().len(), 0);
    let mut encoder = CommandEncoder::new();
    let skipped = scene.render(&gpu, &mut encoder);
    assert!(skipped.is_empty());
    assert_eq!(encoder.passes().len(), 1);
    let pass = &encoder.passes()[0];
    assert!(pass.commands().is_empty());
    let buffers = scene.camera.render_buffers();
    assert_eq!(
        pass.color(),
        Some(ColorAttachment {
            target: ColorTarget::Texture(buffers.color.unwrap().texture),
            load: ColorLoad::Clear(GREY),
            store: true,
        })
    );
    assert_eq!(
        pass.depth(),
        Some(DepthAttachment {
            texture: buffers.depth.unwrap().texture,
            load: LoadOp::Clear,
            store: true,
        })
    );
}

#[test]
fn scene_prepares_the_pipelines_of_its_models() {
    let mut gpu = gpu();
    let first = cube(&mut gpu, 1);
    let second = cube(&mut gpu, 1);
    let scene = scene_with(&mut gpu, vec![], vec![(0, first), (1, second)]);
    assert_eq!(gpu.device.render_pipelines().len(), 2);
    assert_eq!(scene.size(), PhysicalSize { width: 800, height: 600 });
    assert!(gpu.pipeline_vendor.has_pipeline("model_ambient_[(env-map-1)(diffuse-3)(normal-5)(glossiness-7)]"));
    assert!(gpu.pipeline_vendor.has_pipeline("model_lit_[(env-map-1)(diffuse-3)(normal-5)(glossiness-7)]"));
}

#[test]
fn four_lights_bind_four_pipelines_for_one_mesh() {
    let mut gpu = gpu();
    let model = cube(&mut gpu, 1);
    let lights = four_lights(&mut gpu);
    let scene = scene_with(&mut gpu, lights, vec![(0, model)]);
    let mut encoder = CommandEncoder::new();
    let skipped = scene.render(&gpu, &mut encoder);
    assert!(skipped.is_empty());
    let commands = encoder.passes()[0].commands();
    assert_eq!(commands.len(), 4 * 8);
    let ambient = gpu.pipeline_vendor.get_pipeline(&scene.models[&0].materials()[0].ambient_pipeline_id).unwrap();
    let lit = gpu.pipeline_vendor.get_pipeline(&scene.models[&0].materials()[0].lit_pipeline_id).unwrap();
    assert_ne!(ambient, lit);
    assert_eq!(pipelines_bound(commands), vec![ambient, lit, lit, lit]);
    let lights_bound: Vec<_> = commands
        .iter()
        .filter_map(|command| match command {
            RenderCommand::SetBindGroup { index: 2, group } => Some(*group),
            _ => None,
        })
        .collect();
    assert_eq!(lights_bound.len(), 4);
    assert_eq!(lights_bound[0], scene.ambient_light.bind_group());
    let mut lit_groups: Vec<usize> = lights_bound[1..].iter().map(|group| group.0).collect();
    lit_groups.sort();
    let mut expected = vec![
        scene.lights[&1].bind_group().0,
        scene.lights[&2].bind_group().0,
        scene.lights[&3].bind_group().0,
    ];
    expected.sort();
    assert_eq!(lit_groups, expected);
    assert!(!lights_bound[1..].contains(&scene.lights[&0].bind_group()));
    assert!(gpu.device.render_pipelines()[ambient.0].depth_stencil.unwrap().depth_write_enabled);
    assert!(!gpu.device.render_pipelines()[lit.0].depth_stencil.unwrap().depth_write_enabled);
}

#[test]
fn ambient_draws_of_all_models_come_before_any_lit_draw() {
    let mut gpu = gpu();
    let first = cube(&mut gpu, 2);
    let second = cube(&mut gpu, 3);
    let lights = vec![(7, light(&mut gpu, LightType::Point)), (9, light(&mut gpu, LightType::Spot))];
    let scene = scene_with(&mut gpu, lights, vec![(0, first), (1, second)]);
    let mut encoder = CommandEncoder::new();
    scene.render(&gpu, &mut encoder);
    let commands = encoder.passes()[0].commands();
    let bound = pipelines_bound(commands);
    let ambient = RenderPipelineId(0);
    let lit = RenderPipelineId(1);
    assert_eq!(bound, vec![ambient, ambient, lit, lit, lit, lit]);
    let counts: Vec<u32> = commands
        .iter()
        .filter_map(|command| match command {
            RenderCommand::DrawIndexed { instance_count, .. } => Some(*instance_count),
            _ => None,
        })
        .collect();
    // the models are walked in one order, whichever it is, in every pass
    assert_eq!(counts.len(), 6);
    let mut first_pass = counts[0..2].to_vec();
    assert_eq!(counts[2..4], counts[0..2]);
    assert_eq!(counts[4..6], counts[0..2]);
    first_pass.sort();
    assert_eq!(first_pass, vec![2, 3]);
}

#[test]
fn draws_without_pipeline_are_reported() {
    let mut gpu = gpu();
    let model = cube(&mut gpu, 1);
    let lights = vec![(4, light(&mut gpu, LightType::Point))];
    let camera = Camera::new(&mut gpu, 45.0f32);
    let scene: TestScene = Scene {
        size: gpu.size(),
        mouse_pressed: false,
        camera_controller: forward_renderer::camera_controller::CameraController::new(),
        clear_color: GREY,
        ambient_light: light(&mut gpu, LightType::Ambient),
        camera,
        lights: keyed(lights),
        models: keyed(vec![(5, model)]),
    };
    let mut encoder = CommandEncoder::new();
    let skipped = scene.render(&gpu, &mut encoder);
    assert_eq!(
        skipped,
        vec![
            SkippedDraw { model: 5, mesh: 0, pass: Pass::Ambient },
            SkippedDraw { model: 5, mesh: 0, pass: Pass::Lit },
        ]
    );
    assert!(encoder.passes()[0].commands().is_empty());
}

#[test]
fn update_uploads_camera_ambient_lights_and_models_in_order() {
    let mut gpu = gpu();
    let model = cube(&mut gpu, 4);
    let lights = four_lights(&mut gpu);
    let mut scene = scene_with(&mut gpu, lights, vec![(0, model)]);
    gpu.queue.take();
    scene.update(&mut gpu, project);
    let buffers: Vec<BufferId> = gpu
        .queue
        .writes()
        .iter()
        .map(|write| match write {
            QueueWrite::Buffer { buffer, offset: 0, .. } => *buffer,
            _ => panic!("unexpected upload"),
        })
        .collect();
    assert_eq!(buffers.len(), 7);
    assert_eq!(buffers[0], scene.camera.buffer());
    assert_eq!(buffers[1], scene.ambient_light.buffer());
    let mut light_buffers: Vec<usize> = buffers[2..6].iter().map(|buffer| buffer.0).collect();
    light_buffers.sort();
    let mut expected: Vec<usize> = scene.lights.values().map(|light| light.buffer().0).collect();
    expected.sort();
    assert_eq!(light_buffers, expected);
    assert_eq!(buffers[6], scene.models[&0].instance_buffer());
    assert_eq!(
        gpu.queue.writes()[6],
        QueueWrite::Buffer { buffer: scene.models[&0].instance_buffer(), offset: 0, size: 400 }
    );
    assert_eq!(*scene.camera.uniform(), [45.0, 800.0, 600.0, 0.0]);
    gpu.queue.take();
    scene.update(&mut gpu, project);
    assert!(gpu.queue.writes().is_empty());
    scene.lights.get_mut(&2).unwrap().data_mut()[1] = 4.0;
    scene.models.get_mut(&0).unwrap().update_instance(3, [1.0; 7]);
    scene.update(&mut gpu, project);
    scene.update(&mut gpu, project);
    assert_eq!(gpu.queue.writes().len(), 2);
}

#[test]
fn scene_input_follows_keys_wheel_and_buttons() {
    let mut gpu = gpu();
    let mut scene = scene_with(&mut gpu, vec![], vec![]);
    let key = |key, state| WindowEvent::KeyboardInput { key: Some(key), state };
    let taken = InputOutcome { handled: true, forward: Forward::Nothing };
    let left = InputOutcome { handled: false, forward: Forward::Nothing };
    assert_eq!(scene.input(Some(&key(VirtualKeyCode::W, ElementState::Pressed)), false), taken);
    assert_eq!(scene.camera_controller.forward(), 1);
    assert_eq!(scene.input(Some(&key(VirtualKeyCode::Escape, ElementState::Pressed)), false), left);
    assert_eq!(
        scene.input(Some(&WindowEvent::KeyboardInput { key: None, state: ElementState::Pressed }), false),
        left
    );
    assert_eq!(
        scene.input(Some(&WindowEvent::MouseWheel), false),
        InputOutcome { handled: true, forward: Forward::Scroll }
    );
    assert_eq!(scene.input(None, true), left);
    let press = WindowEvent::MouseInput { button: MouseButton::Left, state: ElementState::Pressed };
    assert_eq!(scene.input(Some(&press), false), taken);
    assert!(scene.mouse_pressed);
    assert_eq!(
        scene.input(None, true),
        InputOutcome { handled: true, forward: Forward::MouseMotion }
    );
    assert_eq!(scene.input(None, false), left);
    let right = WindowEvent::MouseInput { button: MouseButton::Right, state: ElementState::Released };
    assert_eq!(scene.input(Some(&right), false), left);
    assert!(scene.mouse_pressed);
    let release = WindowEvent::MouseInput { button: MouseButton::Left, state: ElementState::Released };
    assert_eq!(scene.input(Some(&release), false), taken);
    assert!(!scene.mouse_pressed);
    assert_eq!(scene.input(Some(&WindowEvent::Other), true), left);
}

#[test]
fn compositor_binds_the_attachments_and_draws_one_triangle() {
    let mut gpu = gpu();
    let scene = scene_with(&mut gpu, vec![], vec![]);
    let buffers = scene.camera.render_buffers();
    let compositor: Compositor<Block> = Compositor::new(&mut gpu, &buffers);
    assert_eq!(compositor.size(), PhysicalSize { width: 800, height: 600 });
    let layout = &gpu.device.bind_group_layouts()[compositor.textures_bind_group_layout.0];
    assert_eq!(layout.len(), 4);
    assert_eq!(layout.iter().map(|e| e.binding).collect::<Vec<_>>(), vec![0, 1, 2, 3]);
    assert!(layout.iter().all(|e| e.visibility.fragment && !e.visibility.vertex));
    let group = &gpu.device.bind_groups()[compositor.textures_bind_group.0];
    assert_eq!(
        group.entries,
        vec![
            BindGroupEntry { binding: 0, resource: BindingResource::TextureView(buffers.color.unwrap().texture) },
            BindGroupEntry { binding: 1, resource: BindingResource::Sampler(buffers.color.unwrap().sampler) },
            BindGroupEntry { binding: 2, resource: BindingResource::TextureView(buffers.depth.unwrap().texture) },
            BindGroupEntry { binding: 3, resource: BindingResource::Sampler(compositor.depth_attachment_sampler) },
        ]
    );
    let pipeline = &gpu.device.render_pipelines()[compositor.render_pipeline.0];
    assert_eq!(pipeline.shader, ShaderSource::Compositor);
    assert_eq!(pipeline.vertex_entry, EntryPoint::CompositorVsMain);
    assert_eq!(pipeline.fragment_entry, EntryPoint::CompositorFsMain);
    assert!(pipeline.vertex_buffers.is_empty());
    assert!(pipeline.depth_stencil.is_none());
    assert_eq!(pipeline.primitive.cull_mode, None);
    assert_eq!(pipeline.target.format, TextureFormat::Surface(0));
    assert_eq!(pipeline.layout, vec![compositor.textures_bind_group_layout, compositor.uniform.layout()]);
    let mut encoder = CommandEncoder::new();
    compositor.render(&mut encoder);
    let pass = &encoder.passes()[0];
    assert_eq!(
        pass.color(),
        Some(ColorAttachment { target: ColorTarget::Surface, load: ColorLoad::Load, store: true })
    );
    assert_eq!(pass.depth(), None);
    assert_eq!(
        pass.commands(),
        &vec![
            RenderCommand::SetPipeline { pipeline: compositor.render_pipeline },
            RenderCommand::SetBindGroup { index: 0, group: compositor.textures_bind_group },
            RenderCommand::SetBindGroup { index: 1, group: compositor.uniform.bind_group() },
            RenderCommand::Draw { vertex_count: 3, instance_count: 1 },
        ]
    );
}

#[test]
fn compositor_without_colour_binds_depth_first() {
    let mut gpu = gpu();
    let scene = scene_with(&mut gpu, vec![], vec![]);
    let depth = scene.camera.render_buffers().depth;
    let mut compositor: Compositor<Block> = Compositor::new(&mut gpu, &RenderBuffers { color: None, depth });
    let group = &gpu.device.bind_groups()[compositor.textures_bind_group.0];
    assert_eq!(group.entries.len(), 2);
    assert_eq!(group.entries[0].binding, 0);
    assert_eq!(group.entries[1].binding, 1);
    assert!(!compositor.input(Some(&WindowEvent::MouseWheel), true));
}

#[test]
fn compositor_reads_the_camera_every_frame() {
    let mut gpu = gpu();
    let mut scene = scene_with(&mut gpu, vec![], vec![]);
    let buffers = scene.camera.render_buffers();
    let mut compositor: Compositor<Block> = Compositor::new(&mut gpu, &buffers);
    let read = |view: &f32, size: PhysicalSize| [0.5, *view, size.width as f32, size.height as f32];
    gpu.queue.take();
    update(&mut gpu, &mut scene, &mut compositor, project, read);
    assert_eq!(*compositor.uniform.get(), [0.5, 45.0, 800.0, 600.0]);
    assert_eq!(gpu.queue.writes().len(), 3);
    gpu.queue.take();
    update(&mut gpu, &mut scene, &mut compositor, project, read);
    assert_eq!(
        gpu.queue.writes(),
        &vec![QueueWrite::Buffer { buffer: compositor.uniform.buffer(), offset: 0, size: 16 }]
    );
}

#[test]
fn resize_reaches_context_camera_and_compositor() {
    let mut gpu = gpu();
    let mut scene = scene_with(&mut gpu, vec![], vec![]);
    let buffers = scene.camera.render_buffers();
    let mut compositor: Compositor<Block> = Compositor::new(&mut gpu, &buffers);
    let read = |_: &f32, size: PhysicalSize| [0.0, 0.0, size.width as f32, size.height as f32];
    update(&mut gpu, &mut scene, &mut compositor, project, read);
    gpu.queue.take();
    let old_group = compositor.textures_bind_group;
    let size = PhysicalSize { width: 1024, height: 768 };
    assert!(resize(&mut gpu, &mut scene, &mut compositor, size));
    assert_eq!(gpu.size(), size);
    assert_eq!(scene.size(), size);
    assert_eq!(scene.camera.size(), size);
    assert_eq!(compositor.size(), size);
    assert!(scene.camera.is_dirty());
    let fresh = scene.camera.render_buffers();
    assert_ne!(fresh, buffers);
    for attachment in [fresh.color.unwrap(), fresh.depth.unwrap()] {
        let texture = gpu.device.textures()[attachment.texture.0];
        assert_eq!((texture.width, texture.height), (1024, 768));
    }
    assert_ne!(compositor.textures_bind_group, old_group);
    let group = &gpu.device.bind_groups()[compositor.textures_bind_group.0];
    assert_eq!(group.entries[0].resource, BindingResource::TextureView(fresh.color.unwrap().texture));
    assert_eq!(group.entries[2].resource, BindingResource::TextureView(fresh.depth.unwrap().texture));
    update(&mut gpu, &mut scene, &mut compositor, project, read);
    let camera_writes = gpu
        .queue
        .writes()
        .iter()
        .filter(|write| matches!(write, QueueWrite::Buffer { buffer, .. } if *buffer == BufferId(0)))
        .count();
    assert_eq!(camera_writes, 1);
    assert_eq!(*scene.camera.uniform(), [45.0, 1024.0, 768.0, 0.0]);
    assert_eq!(*compositor.uniform.get(), [0.0, 0.0, 1024.0, 768.0]);
}

#[test]
fn lost_surface_resizes_to_the_current_size_and_skips_the_frame() {
    let mut gpu = gpu();
    let model = cube(&mut gpu, 1);
    let lights = four_lights(&mut gpu);
    let mut scene = scene_with(&mut gpu, lights, vec![(0, model)]);
    let buffers = scene.camera.render_buffers();
    let mut compositor: Compositor<Block> = Compositor::new(&mut gpu, &buffers);
    let mut encoder = CommandEncoder::new();
    let textures = gpu.device.textures().len();
    let outcome = frame(&mut gpu, &mut scene, &mut compositor, &mut encoder, Err(SurfaceError::Lost));
    assert_eq!(outcome.control_flow, ControlFlow::Poll);
    assert!(!outcome.recorded);
    assert!(outcome.reconfigure);
    assert!(encoder.passes().is_empty());
    assert_eq!(gpu.size(), PhysicalSize { width: 800, height: 600 });
    assert_eq!(gpu.device.textures().len(), textures + 4);
    assert_ne!(scene.camera.render_buffers(), buffers);
    let outcome = frame(&mut gpu, &mut scene, &mut compositor, &mut encoder, Ok(()));
    assert!(outcome.recorded);
    assert!(!outcome.reconfigure);
    assert_eq!(outcome.control_flow, ControlFlow::Poll);
    assert!(outcome.skipped.is_empty());
    assert_eq!(encoder.passes().len(), 2);
    assert_eq!(encoder.passes()[0].commands().len(), 32);
    assert_eq!(encoder.passes()[1].commands().len(), 4);
    assert_eq!(
        encoder.passes()[0].color().unwrap().target,
        ColorTarget::Texture(scene.camera.render_buffers().color.unwrap().texture)
    );
}

#[test]
fn out_of_memory_ends_the_loop_and_other_failures_skip() {
    let mut gpu = gpu();
    let mut scene = scene_with(&mut gpu, vec![], vec![]);
    let buffers = scene.camera.render_buffers();
    let mut compositor: Compositor<Block> = Compositor::new(&mut gpu, &buffers);
    let mut encoder = CommandEncoder::new();
    let textures = gpu.device.textures().len();
    let outcome = frame(&mut gpu, &mut scene, &mut compositor, &mut encoder, Err(SurfaceError::OutOfMemory));
    assert_eq!(outcome.control_flow, ControlFlow::Exit);
    assert!(!outcome.recorded && !outcome.reconfigure);
    for error in [SurfaceError::Outdated, SurfaceError::Timeout] {
        let outcome = frame(&mut gpu, &mut scene, &mut compositor, &mut encoder, Err(error));
        assert_eq!(outcome.control_flow, ControlFlow::Poll);
        assert!(!outcome.recorded && !outcome.reconfigure);
    }
    assert!(encoder.passes().is_empty());
    assert_eq!(gpu.device.textures().len(), textures);
}

#[test]
fn window_events_close_resize_and_steer() {
    let mut gpu = gpu();
    let mut scene = scene_with(&mut gpu, vec![], vec![]);
    let buffers = scene.camera.render_buffers();
    let mut compositor: Compositor<Block> = Compositor::new(&mut gpu, &buffers);
    let outcome = window_event(&mut gpu, &mut scene, &mut compositor, &WindowEvent::CloseRequested);
    assert_eq!(outcome.control_flow, ControlFlow::Exit);
    let escape = WindowEvent::KeyboardInput { key: Some(VirtualKeyCode::Escape), state: ElementState::Pressed };
    let outcome = window_event(&mut gpu, &mut scene, &mut compositor, &escape);
    assert_eq!(outcome.control_flow, ControlFlow::Exit);
    assert!(!outcome.input.handled);
    let forward = WindowEvent::KeyboardInput { key: Some(VirtualKeyCode::W), state: ElementState::Pressed };
    let outcome = window_event(&mut gpu, &mut scene, &mut compositor, &forward);
    assert_eq!(outcome.control_flow, ControlFlow::Poll);
    assert!(outcome.input.handled);
    assert_eq!(scene.camera_controller.forward(), 1);
    let size = PhysicalSize { width: 640, height: 480 };
    let outcome = window_event(&mut gpu, &mut scene, &mut compositor, &WindowEvent::Resized(size));
    assert_eq!(outcome.control_flow, ControlFlow::Poll);
    assert!(outcome.reconfigure);
    assert_eq!(gpu.size(), size);
    assert_eq!(scene.camera.size(), size);
    let empty = PhysicalSize { width: 0, height: 0 };
    let outcome = window_event(&mut gpu, &mut scene, &mut compositor, &WindowEvent::ScaleFactorChanged(empty));
    assert!(!outcome.reconfigure);
    assert_eq!(gpu.size(), size);
    assert_eq!(scene.size(), empty);
    assert_eq!(compositor.size(), empty);
    let outcome = window_event(&mut gpu, &mut scene, &mut compositor, &WindowEvent::MouseWheel);
    assert_eq!(outcome.input, InputOutcome { handled: true, forward: Forward::Scroll });
    assert_eq!(mouse_motion(&mut scene, &mut compositor), InputOutcome { handled: false, forward: Forward::Nothing });
    let press = WindowEvent::MouseInput { button: MouseButton::Left, state: ElementState::Pressed };
    window_event(&mut gpu, &mut scene, &mut compositor, &press);
    assert_eq!(mouse_motion(&mut scene, &mut compositor), InputOutcome { handled: true, forward: Forward::MouseMotion });
}
