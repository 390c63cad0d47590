use forward_renderer::camera::{Camera, RenderBuffers};
use forward_renderer::camera_controller::{CameraController, ElementState, VirtualKeyCode};
use forward_renderer::command::QueueWrite;
use forward_renderer::device::{
    BindGroupId, BufferId, Device, RenderPipelineId, SamplerId, TextureFormat, TextureId,
    TextureViewDimension,
};
use forward_renderer::gpu_state::{GpuState, PhysicalSize, PresentMode};
use forward_renderer::light::{Light, LightType};
use forward_renderer::texture::Texture;

#[derive(Clone, Copy, Debug, Default, PartialEq)]
struct LightBlock {
    direction: [f32; 3],
    attenuation: [f32; 4],
    light_type: i32,
}

#[derive(Clone, Copy, Debug, PartialEq)]
struct Pose {
    fov_y: f32,
    near: f32,
    far: f32,
}

fn gpu(width: u32, height: u32) -> GpuState {
    GpuState::new(PhysicalSize { width, height }, 2)
}

fn aspect(_pose: &Pose, size: PhysicalSize) -> [f32; 2] {
    [size.width as f32 / size.height as f32, 1.0]
}

#[test]
fn light_types_have_their_shader_numbers() {
    assert_eq!(LightType::Ambient.value(), 0);
    assert_eq!(LightType::Point.value(), 1);
    assert_eq!(LightType::Spot.value(), 2);
    assert_eq!(LightType::Directional.value(), 3);
}

#[test]
fn light_keeps_kind_and_block() {
    let mut device = Device::new();
    let length = 2.0f32.sqrt();
    let block = LightBlock {
        direction: [1.0 / length, 1.0 / length, 0.0],
        attenuation: [1.0, 0.0, 0.0, 0.0],
        light_type: LightType::Directional.value(),
    };
    let light = Light::new(&mut device, LightType::Directional, block);
    assert_eq!(light.light_type(), LightType::Directional);
    assert_eq!(*light.data(), block);
    assert_eq!(light.data().attenuation, [1.0, 0.0, 0.0, 0.0]);
    assert!((light.data().direction[0] - 0.70710678).abs() < 1e-4);
    assert_eq!(light.bind_group(), BindGroupId(0));
    assert_eq!(device.buffers()[0].size, 32);
}

#[test]
fn light_uploads_on_first_update_and_after_change() {
    let mut device = Device::new();
    let mut queue = forward_renderer::command::Queue::new();
    let mut light = Light::new(&mut device, LightType::Point, LightBlock::default());
    light.update(&mut queue);
    light.update(&mut queue);
    assert_eq!(queue.writes().len(), 1);
    light.data_mut().attenuation[2] = 0.05;
    light.update(&mut queue);
    light.update(&mut queue);
    assert_eq!(
        queue.writes(),
        &vec![
            QueueWrite::Buffer {
                buffer: BufferId(0),
                offset: 0,
                size: 32,
            };
            2
        ]
    );
    assert_eq!(light.light_type(), LightType::Point);
}

#[test]
fn light_layout_is_the_uniform_layout() {
    let mut device = Device::new();
    let light = Light::<LightBlock>::bind_group_layout(&mut device);
    let camera = Camera::<Pose, [f32; 2]>::bind_group_layout(&mut device);
    assert_eq!(light.0 + 1, camera.0);
    assert_eq!(device.bind_group_layouts()[0], device.bind_group_layouts()[1]);
}

#[test]
fn context_starts_with_attachments_and_fifo() {
    let state = gpu(800, 600);
    assert_eq!(state.size(), PhysicalSize { width: 800, height: 600 });
    assert_eq!(state.config.present_mode, PresentMode::Fifo);
    assert!(state.config.usage.render_attachment);
    assert!(!state.config.usage.texture_binding && !state.config.usage.copy_dst);
    assert_eq!(state.config.format, TextureFormat::Surface(0));
    assert_eq!((state.config.width, state.config.height), (800, 600));
    assert_eq!(state.depth_attachment.texture, TextureId(0));
    assert_eq!(state.color_attachment.texture, TextureId(1));
    assert_eq!(state.device.textures()[0].format, TextureFormat::Depth32Float);
    assert_eq!(state.device.textures()[1].format, TextureFormat::Bgra8UnormSrgb);
    assert!(!state.pipeline_vendor.has_pipeline("model_lit_[]"));
    assert!(state.queue.writes().is_empty());
}

#[test]
fn context_ignores_sizes_with_an_empty_side() {
    let mut state = gpu(800, 600);
    assert!(!state.resize(PhysicalSize { width: 0, height: 600 }));
    assert!(!state.resize(PhysicalSize { width: 800, height: 0 }));
    assert_eq!(state.size(), PhysicalSize { width: 800, height: 600 });
    assert_eq!((state.config.width, state.config.height), (800, 600));
    assert_eq!(state.device.textures().len(), 2);
    assert!(state.resize(PhysicalSize { width: 1024, height: 768 }));
    assert_eq!(state.size(), PhysicalSize { width: 1024, height: 768 });
    assert_eq!((state.config.width, state.config.height), (1024, 768));
    assert_eq!(state.device.textures().len(), 4);
    assert_eq!(state.depth_attachment.texture, TextureId(2));
    assert_eq!(state.color_attachment.texture, TextureId(3));
    assert_eq!(state.device.textures()[3].width, 1024);
    assert_eq!(state.device.textures()[2].height, 768);
}

#[test]
fn camera_starts_dirty_with_both_attachments() {
    let mut state = gpu(800, 600);
    let pose = Pose { fov_y: 45.0, near: 0.5, far: 500.0 };
    let camera: Camera<Pose, [f32; 2]> = Camera::new(&mut state, pose);
    assert!(camera.is_dirty());
    assert_eq!(*camera.view(), pose);
    assert_eq!(camera.size(), PhysicalSize { width: 800, height: 600 });
    let buffers = camera.render_buffers();
    assert_eq!(
        buffers.depth,
        Some(Texture {
            texture: TextureId(2),
            sampler: SamplerId(2),
            view_dimension: TextureViewDimension::D2,
        })
    );
    assert_eq!(buffers.color.unwrap().texture, TextureId(3));
    assert_eq!(state.device.textures()[2].format, TextureFormat::Depth32Float);
    assert_eq!(state.device.textures()[3].format, TextureFormat::Bgra8UnormSrgb);
    assert_eq!(state.device.buffers()[0].size, 8);
}

#[test]
fn camera_works_out_its_block_only_when_dirty() {
    let mut state = gpu(800, 600);
    let pose = Pose { fov_y: 45.0, near: 0.5, far: 500.0 };
    let mut camera: Camera<Pose, [f32; 2]> = Camera::new(&mut state, pose);
    camera.update(&mut state.queue, aspect);
    assert!(!camera.is_dirty());
    assert_eq!(*camera.uniform(), [800.0 / 600.0, 1.0]);
    camera.update(&mut state.queue, |_: &Pose, _: PhysicalSize| [9.0, 9.0]);
    assert_eq!(*camera.uniform(), [800.0 / 600.0, 1.0]);
    assert_eq!(state.queue.writes().len(), 1);
    camera.view_mut().fov_y = 60.0;
    assert!(camera.is_dirty());
    camera.update(&mut state.queue, |pose: &Pose, _: PhysicalSize| [pose.fov_y, 0.0]);
    assert_eq!(*camera.uniform(), [60.0, 0.0]);
    assert_eq!(state.queue.writes().len(), 2);
}

#[test]
fn camera_resize_makes_attachments_again_and_marks_dirty() {
    let mut state = gpu(800, 600);
    let pose = Pose { fov_y: 45.0, near: 0.5, far: 500.0 };
    let mut camera: Camera<Pose, [f32; 2]> = Camera::new(&mut state, pose);
    camera.update(&mut state.queue, aspect);
    let size = PhysicalSize { width: 1024, height: 768 };
    state.resize(size);
    let textures = state.device.textures().len();
    camera.resize(&mut state, size);
    assert!(camera.is_dirty());
    assert_eq!(camera.size(), size);
    assert_eq!(state.device.textures().len(), textures + 2);
    let buffers = camera.render_buffers();
    assert_eq!(buffers.depth.unwrap().texture, TextureId(textures));
    assert_eq!(buffers.color.unwrap().texture, TextureId(textures + 1));
    let depth = state.device.textures()[textures];
    let color = state.device.textures()[textures + 1];
    assert_eq!((depth.width, depth.height), (1024, 768));
    assert_eq!((color.width, color.height), (1024, 768));
    assert_eq!(color.format, TextureFormat::Bgra8UnormSrgb);
    state.queue.take();
    camera.update(&mut state.queue, aspect);
    camera.update(&mut state.queue, aspect);
    assert_eq!(state.queue.writes().len(), 1);
    assert_eq!(*camera.uniform(), [1024.0 / 768.0, 1.0]);
}

#[test]
fn camera_resize_leaves_missing_attachments_missing() {
    let mut state = gpu(800, 600);
    let pose = Pose { fov_y: 45.0, near: 0.5, far: 500.0 };
    let mut camera: Camera<Pose, [f32; 2]> = Camera::new(&mut state, pose);
    let color = camera.render_buffers().color;
    camera.set_render_buffers(RenderBuffers { color, depth: None });
    let textures = state.device.textures().len();
    camera.resize(&mut state, PhysicalSize { width: 640, height: 480 });
    assert_eq!(state.device.textures().len(), textures + 1);
    assert_eq!(camera.render_buffers().depth, None);
    assert_eq!(camera.render_buffers().color.unwrap().texture, TextureId(textures));
    camera.set_render_buffers(RenderBuffers { color: None, depth: None });
    camera.resize(&mut state, PhysicalSize { width: 64, height: 48 });
    assert_eq!(state.device.textures().len(), textures + 1);
    assert_eq!(RenderPipelineId(0), RenderPipelineId(0));
}

#[test]
fn keys_push_and_release_their_axes() {
    let mut controller = CameraController::new();
    assert!(controller.process_keyboard(VirtualKeyCode::W, ElementState::Pressed));
    assert_eq!(controller.forward(), 1);
    assert!(controller.process_keyboard(VirtualKeyCode::S, ElementState::Pressed));
    assert_eq!(controller.forward(), -1);
    assert!(controller.process_keyboard(VirtualKeyCode::S, ElementState::Released));
    assert_eq!(controller.forward(), 0);
    assert!(controller.process_keyboard(VirtualKeyCode::A, ElementState::Pressed));
    assert_eq!(controller.horizontal(), -1);
    assert!(controller.process_keyboard(VirtualKeyCode::D, ElementState::Pressed));
    assert_eq!(controller.horizontal(), 1);
    assert!(controller.process_keyboard(VirtualKeyCode::E, ElementState::Pressed));
    assert_eq!(controller.vertical(), 1);
    assert!(controller.process_keyboard(VirtualKeyCode::Q, ElementState::Pressed));
    assert_eq!(controller.vertical(), -1);
    assert!(controller.process_keyboard(VirtualKeyCode::Up, ElementState::Pressed));
    assert_eq!(controller.pitch(), 1);
    assert!(controller.process_keyboard(VirtualKeyCode::Down, ElementState::Pressed));
    assert_eq!(controller.pitch(), -1);
    assert!(controller.process_keyboard(VirtualKeyCode::Left, ElementState::Pressed));
    assert_eq!(controller.yaw(), 1);
    assert!(controller.process_keyboard(VirtualKeyCode::Right, ElementState::Pressed));
    assert_eq!(controller.yaw(), -1);
    assert!(controller.process_keyboard(VirtualKeyCode::Right, ElementState::Released));
    assert_eq!(controller.yaw(), 0);
}

#[test]
fn shift_triples_the_speed_and_other_keys_are_not_taken() {
    let mut controller = CameraController::new();
    assert_eq!(controller.speed_factor(), 1);
    assert!(controller.process_keyboard(VirtualKeyCode::LShift, ElementState::Pressed));
    assert_eq!(controller.speed_factor(), 3);
    assert!(controller.process_keyboard(VirtualKeyCode::LShift, ElementState::Released));
    assert_eq!(controller.speed_factor(), 1);
    let before = controller;
    assert!(!controller.process_keyboard(VirtualKeyCode::Escape, ElementState::Pressed));
    assert!(!controller.process_keyboard(VirtualKeyCode::Other, ElementState::Pressed));
    assert_eq!(controller, before);
}
