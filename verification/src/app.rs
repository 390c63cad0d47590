//! What the renderer does with the events of its window and with the
//! outcome of asking the surface for the next image.

use crate::camera::{buffers_again, device_with_buffers_again};
use crate::camera_controller::VirtualKeyCode;
use crate::command::{
    ColorAttachment, ColorLoad, ColorTarget, CommandEncoder, QueueWrite, RenderPassView,
};
use crate::compositor::{Compositor, compositor_bindings, compositor_commands};
use crate::device::{BindGroupView, DeviceView, TextureViewDimension};
use crate::event::{InputOutcome, WindowEvent};
use crate::gpu_state::{device_with_attachments, GpuState, PhysicalSize, SurfaceConfiguration};
use crate::keyed::walk;
use crate::scene::{
    controller_after, input_outcome, lights_pending, models_pending, pressed_after, Scene,
    scene_color_attachment, scene_depth_attachment, SkippedDraw,
};
use crate::texture::{attachment_descriptor, depth_format, depth_sampler, Texture};
use crate::util::{lemma_change_is_written, lemma_write_economy};
use vstd::prelude::*;

verus! {

/// Why the surface gave no image.
#[derive(Clone, Copy, Debug, PartialEq, Eq, Structural)]
pub enum SurfaceError {
    /// The image did not come in time.
    Timeout,
    /// The surface changed; it is good again by the next frame.
    Outdated,
    /// The surface is gone and has to be configured anew.
    Lost,
    /// No memory is left for the image.
    OutOfMemory,
}

/// Whether the event loop goes on.
#[derive(Clone, Copy, Debug, PartialEq, Eq, Structural)]
pub enum ControlFlow {
    Poll,
    Exit,
}

/// What became of a frame.
#[derive(Debug)]
pub struct FrameOutcome {
    /// Whether the event loop goes on.
    pub control_flow: ControlFlow,
    /// Whether passes were recorded, so that the encoder is to be
    /// submitted and the image presented.
    pub recorded: bool,
    /// Whether the surface has to be configured anew before the next
    /// frame.
    pub reconfigure: bool,
    /// The draws left out because a pipeline is missing.
    pub skipped: Vec<SkippedDraw>,
}

/// What became of a window event.
#[derive(Clone, Copy, Debug, PartialEq, Eq, Structural)]
pub struct EventOutcome {
    /// Whether the event loop goes on.
    pub control_flow: ControlFlow,
    /// What the scene made of the event.
    pub input: InputOutcome,
    /// Whether the surface has to be configured anew.
    pub reconfigure: bool,
}

/// The size that a window event brings, if it brings one.
pub open spec fn new_size_of(event: WindowEvent) -> Option<PhysicalSize> {
    match event {
        WindowEvent::Resized(size) => Some(size),
        WindowEvent::ScaleFactorChanged(size) => Some(size),
        _ => None,
    }
}

/// Whether a window event that the scene did not take ends the event
/// loop: a request to close does, and so does the escape key.
pub open spec fn asks_to_exit(event: WindowEvent) -> bool {
    match event {
        WindowEvent::CloseRequested => true,
        WindowEvent::KeyboardInput { key: Some(VirtualKeyCode::Escape), state } => true,
        _ => false,
    }
}

/// The configuration of the surface after the context took a size.
pub open spec fn config_after(
    config: SurfaceConfiguration,
    size: PhysicalSize,
) -> SurfaceConfiguration {
    if GpuState::is_presentable(size) {
        SurfaceConfiguration { width: size.width, height: size.height, ..config }
    } else {
        config
    }
}

/// The device after the context took a size.
pub open spec fn device_after_context(
    device: DeviceView,
    config: SurfaceConfiguration,
    size: PhysicalSize,
) -> DeviceView {
    if GpuState::is_presentable(size) {
        device_with_attachments(device, config_after(config, size))
    } else {
        device
    }
}

/// Whether the second context, scene and compositor are the first ones
/// after a new size of the surface was passed on to them. The context
/// adopts a size with both sides positive: it takes the size into its
/// configuration and makes its two attachments again. The scene and the
/// compositor take the size either way: the camera makes the attachments
/// that it has again from the context's configuration and is dirty, and
/// the compositor binds the camera's attachments anew. Nothing else
/// changes.
pub open spec fn is_resized<V, C, L, I, K>(
    gpu_before: GpuState,
    scene_before: Scene<V, C, L, I>,
    compositor_before: Compositor<K>,
    gpu_after: GpuState,
    scene_after: Scene<V, C, L, I>,
    compositor_after: Compositor<K>,
    new_size: PhysicalSize,
) -> bool {
    let adopted = GpuState::is_presentable(new_size);
    let config = config_after(gpu_before.config, new_size);
    let context_done = device_after_context(gpu_before.device@, gpu_before.config, new_size);
    let camera_done = device_with_buffers_again(
        context_done,
        config,
        scene_before.camera.buffers(),
    );
    &&& gpu_after.size == (if adopted {
        new_size
    } else {
        gpu_before.size
    })
    &&& gpu_after.config == config
    &&& gpu_after.depth_attachment == (if adopted {
        Texture::next(gpu_before.device@, TextureViewDimension::D2)
    } else {
        gpu_before.depth_attachment
    })
    &&& gpu_after.color_attachment == (if adopted {
        Texture::next(
            gpu_before.device@.with_texture(
                attachment_descriptor(config, depth_format()),
            ).with_sampler(depth_sampler()),
            TextureViewDimension::D2,
        )
    } else {
        gpu_before.color_attachment
    })
    &&& gpu_after.queue == gpu_before.queue
    &&& gpu_after.pipeline_vendor == gpu_before.pipeline_vendor
    &&& gpu_after.device@ == camera_done.with_bind_group(
        BindGroupView {
            layout: compositor_before.textures_bind_group_layout,
            entries: compositor_bindings(
                scene_after.camera.buffers(),
                compositor_before.depth_attachment_sampler,
            ),
        },
    )
    &&& scene_after.size == new_size
    &&& scene_after.camera.viewport() == new_size
    &&& scene_after.camera.dirty()
    &&& scene_after.camera.buffers() == buffers_again(context_done, scene_before.camera.buffers())
    &&& scene_after.camera.view_state() == scene_before.camera.view_state()
    &&& scene_after.camera.holder() == scene_before.camera.holder()
    &&& scene_after.mouse_pressed == scene_before.mouse_pressed
    &&& scene_after.camera_controller@ == scene_before.camera_controller@
    &&& scene_after.clear_color == scene_before.clear_color
    &&& scene_after.ambient_light == scene_before.ambient_light
    &&& scene_after.lights == scene_before.lights
    &&& scene_after.models == scene_before.models
    &&& compositor_after.size == new_size
    &&& compositor_after.uniform == compositor_before.uniform
    &&& compositor_after.textures_bind_group_layout == compositor_before.textures_bind_group_layout
    &&& compositor_after.textures_bind_group.0 == camera_done.bind_groups.len()
    &&& compositor_after.depth_attachment_sampler == compositor_before.depth_attachment_sampler
    &&& compositor_after.render_pipeline == compositor_before.render_pipeline
}

/// Passes a new size of the surface on to the context, the scene and the
/// compositor, in that order. The context adopts the size only if both
/// sides are positive; the scene and the compositor take it either way,
/// create the camera's attachments again from the context's configuration
/// and bind them anew. Says whether the surface has to be configured anew.
pub fn resize<V, C, L, I, K>(
    gpu_state: &mut GpuState,
    scene: &mut Scene<V, C, L, I>,
    compositor: &mut Compositor<K>,
    new_size: PhysicalSize,
) -> (reconfigure: bool)
    ensures
        reconfigure == GpuState::is_presentable(new_size),
        is_resized(
            *old(gpu_state),
            *old(scene),
            *old(compositor),
            *final(gpu_state),
            *final(scene),
            *final(compositor),
            new_size,
        ),
{
    let reconfigure = gpu_state.resize(new_size);
    scene.resize(gpu_state, new_size);
    let buffers = scene.camera.render_buffers();
    compositor.resize(gpu_state, &buffers, new_size);
    reconfigure
}

/// Takes mouse motion, which comes apart from the window's events: the
/// scene looks at it, and if the scene does not take it the compositor
/// does, which takes none.
pub fn mouse_motion<V, C, L, I, K>(
    scene: &mut Scene<V, C, L, I>,
    compositor: &mut Compositor<K>,
) -> (outcome: InputOutcome)
    ensures
        outcome == input_outcome(old(scene).mouse_pressed, None, true),
        *final(compositor) == *old(compositor),
        final(scene).mouse_pressed == old(scene).mouse_pressed,
        final(scene).camera_controller@ == old(scene).camera_controller@,
        final(scene).size == old(scene).size,
        final(scene).clear_color == old(scene).clear_color,
        final(scene).ambient_light == old(scene).ambient_light,
        final(scene).camera == old(scene).camera,
        final(scene).lights == old(scene).lights,
        final(scene).models == old(scene).models,
{
    let outcome = scene.input(None, true);
    if !outcome.handled {
        compositor.input(None, true);
    }
    outcome
}

/// Takes an event of the window. The scene looks at it first. What the
/// scene does not take may end the event loop, if it is a request to
/// close or the escape key, or bring a new size, which is passed on to
/// the context, the scene and the compositor.
pub fn window_event<V, C, L, I, K>(
    gpu_state: &mut GpuState,
    scene: &mut Scene<V, C, L, I>,
    compositor: &mut Compositor<K>,
    event: &WindowEvent,
) -> (outcome: EventOutcome)
    ensures
        outcome.input == input_outcome(old(scene).mouse_pressed, Some(*event), false),
        outcome.control_flow == (if !outcome.input.handled && asks_to_exit(*event) {
            ControlFlow::Exit
        } else {
            ControlFlow::Poll
        }),
        match new_size_of(*event) {
            None => {
                &&& !outcome.reconfigure
                &&& *final(gpu_state) == *old(gpu_state)
                &&& *final(compositor) == *old(compositor)
                &&& final(scene).mouse_pressed == pressed_after(
                    old(scene).mouse_pressed,
                    Some(*event),
                )
                &&& final(scene).camera_controller@ == controller_after(
                    old(scene).camera_controller@,
                    Some(*event),
                )
                &&& final(scene).size == old(scene).size
                &&& final(scene).clear_color == old(scene).clear_color
                &&& final(scene).ambient_light == old(scene).ambient_light
                &&& final(scene).camera == old(scene).camera
                &&& final(scene).lights == old(scene).lights
                &&& final(scene).models == old(scene).models
            },
            Some(new_size) => {
                &&& outcome.reconfigure == GpuState::is_presentable(new_size)
                &&& is_resized(
                    *old(gpu_state),
                    *old(scene),
                    *old(compositor),
                    *final(gpu_state),
                    *final(scene),
                    *final(compositor),
                    new_size,
                )
            },
        },
{
    let input = scene.input(Some(event), false);
    let mut control_flow = ControlFlow::Poll;
    let mut reconfigure = false;
    if !input.handled {
        match event {
            WindowEvent::CloseRequested => {
                control_flow = ControlFlow::Exit;
            },
            WindowEvent::KeyboardInput { key: Some(VirtualKeyCode::Escape), state: _ } => {
                control_flow = ControlFlow::Exit;
            },
            WindowEvent::Resized(physical_size) => {
                reconfigure = resize(gpu_state, scene, compositor, *physical_size);
            },
            WindowEvent::ScaleFactorChanged(new_inner_size) => {
                reconfigure = resize(gpu_state, scene, compositor, *new_inner_size);
            },
            _ => {},
        }
    }
    EventOutcome { control_flow, input, reconfigure }
}

/// Brings the device up to date before a frame is drawn: the scene
/// uploads what changed, then the compositor reads the camera and uploads
/// its uniform block, which it does every frame.
pub fn update<V, C, L, I, K, P: FnOnce(&V, PhysicalSize) -> C, R: FnOnce(&V, PhysicalSize) -> K>(
    gpu_state: &mut GpuState,
    scene: &mut Scene<V, C, L, I>,
    compositor: &mut Compositor<K>,
    project: P,
    read: R,
)
    requires
        old(scene).camera.dirty() ==> call_requires(
            project,
            (&old(scene).camera.view_state(), old(scene).camera.viewport()),
        ),
        call_requires(read, (&old(scene).camera.view_state(), old(compositor).size)),
    ensures
        final(gpu_state).queue@ == old(gpu_state).queue@ + old(scene).camera.pending() + old(
            scene,
        ).ambient_light.pending() + lights_pending(walk(&old(scene).lights)) + models_pending(
            walk(&old(scene).models),
        ) + seq![
            QueueWrite::Buffer {
                buffer: old(compositor).uniform.buffer_id(),
                offset: 0,
                size: old(compositor).uniform.size(),
            },
        ],
        !final(scene).camera.dirty(),
        final(scene).camera.view_state() == old(scene).camera.view_state(),
        final(scene).camera.viewport() == old(scene).camera.viewport(),
        final(scene).camera.buffers() == old(scene).camera.buffers(),
        !old(scene).camera.dirty() ==> final(scene).camera.holder() == old(scene).camera.holder(),
        old(scene).camera.dirty() ==> {
            &&& call_ensures(
                project,
                (&old(scene).camera.view_state(), old(scene).camera.viewport()),
                final(scene).camera.holder().value(),
            )
            &&& final(scene).camera.holder() == old(scene).camera.holder().with_value(
                final(scene).camera.holder().value(),
            ).with_dirty(false)
        },
        final(scene).ambient_light == old(scene).ambient_light.flushed(),
        final(scene).lights@.dom() == old(scene).lights@.dom(),
        forall|key: usize| #[trigger]
            old(scene).lights@.contains_key(key) ==> final(scene).lights@[key] == old(
                scene,
            ).lights@[key].flushed(),
        final(scene).models@.dom() == old(scene).models@.dom(),
        forall|key: usize| #[trigger]
            old(scene).models@.contains_key(key) ==> final(scene).models@[key] == old(
                scene,
            ).models@[key].uploaded(),
        final(scene).size == old(scene).size,
        final(scene).mouse_pressed == old(scene).mouse_pressed,
        final(scene).camera_controller == old(scene).camera_controller,
        final(scene).clear_color == old(scene).clear_color,
        call_ensures(
            read,
            (&old(scene).camera.view_state(), old(compositor).size),
            final(compositor).uniform.value(),
        ),
        final(compositor).uniform == old(compositor).uniform.with_value(
            final(compositor).uniform.value(),
        ).with_dirty(false),
        final(compositor).size == old(compositor).size,
        final(compositor).textures_bind_group_layout == old(compositor).textures_bind_group_layout,
        final(compositor).textures_bind_group == old(compositor).textures_bind_group,
        final(compositor).depth_attachment_sampler == old(compositor).depth_attachment_sampler,
        final(compositor).render_pipeline == old(compositor).render_pipeline,
        final(gpu_state).device == old(gpu_state).device,
        final(gpu_state).config == old(gpu_state).config,
        final(gpu_state).size == old(gpu_state).size,
        final(gpu_state).pipeline_vendor == old(gpu_state).pipeline_vendor,
        final(gpu_state).depth_attachment == old(gpu_state).depth_attachment,
        final(gpu_state).color_attachment == old(gpu_state).color_attachment,
{
    scene.update(gpu_state, project);
    compositor.read_camera_properties(&scene.camera, read);
    proof {
        lemma_change_is_written(old(compositor).uniform, compositor.uniform.value());
        lemma_write_economy(compositor.uniform);
    }
    compositor.update(gpu_state);
}

/// The passes of one frame: the scene's, then the compositor's.
pub open spec fn frame_passes<V, C, L, I, K>(
    gpu_state: GpuState,
    scene: Scene<V, C, L, I>,
    compositor: Compositor<K>,
) -> Seq<RenderPassView> {
    seq![
        RenderPassView {
            color: scene_color_attachment(scene.camera, scene.clear_color),
            depth: scene_depth_attachment(scene.camera),
            commands: scene.frame_commands(gpu_state.pipeline_vendor@),
        },
        RenderPassView {
            color: Some(
                ColorAttachment {
                    target: ColorTarget::Surface,
                    load: ColorLoad::Load,
                    store: true,
                },
            ),
            depth: None,
            commands: compositor_commands(
                compositor.render_pipeline,
                compositor.textures_bind_group,
                compositor.uniform.group_id(),
            ),
        },
    ]
}

/// Goes on with a frame once the surface was asked for its next image.
/// With an image, the scene's pass and the compositor's pass are recorded,
/// for the caller to submit and present. A lost surface has the current
/// size passed on to context, scene and compositor anew, and the frame is
/// dropped. Without memory the event loop ends. Any other failure drops
/// the frame; the next one asks again.
pub fn frame<V, C, L, I, K>(
    gpu_state: &mut GpuState,
    scene: &mut Scene<V, C, L, I>,
    compositor: &mut Compositor<K>,
    encoder: &mut CommandEncoder,
    acquired: Result<(), SurfaceError>,
) -> (outcome: FrameOutcome)
    ensures
        outcome.recorded == (acquired is Ok),
        outcome.control_flow == (if acquired == Err::<(), SurfaceError>(SurfaceError::OutOfMemory) {
            ControlFlow::Exit
        } else {
            ControlFlow::Poll
        }),
        acquired is Ok ==> {
            &&& final(encoder)@ == old(encoder)@ + frame_passes(
                *old(gpu_state),
                *old(scene),
                *old(compositor),
            )
            &&& outcome.skipped@ == old(scene).frame_skipped(old(gpu_state).pipeline_vendor@)
        },
        !(acquired is Ok) ==> final(encoder)@ == old(encoder)@ && outcome.skipped@.len() == 0,
        acquired != Err::<(), SurfaceError>(SurfaceError::Lost) ==> {
            &&& !outcome.reconfigure
            &&& *final(gpu_state) == *old(gpu_state)
            &&& *final(scene) == *old(scene)
            &&& *final(compositor) == *old(compositor)
        },
        acquired == Err::<(), SurfaceError>(SurfaceError::Lost) ==> {
            &&& outcome.reconfigure == GpuState::is_presentable(old(gpu_state).size)
            &&& is_resized(
                *old(gpu_state),
                *old(scene),
                *old(compositor),
                *final(gpu_state),
                *final(scene),
                *final(compositor),
                old(gpu_state).size,
            )
        },
{
    match acquired {
        Ok(()) => {
            let skipped = scene.render(gpu_state, encoder);
            compositor.render(encoder);
            assert(encoder@ =~= old(encoder)@ + frame_passes(*gpu_state, *scene, *compositor));
            FrameOutcome {
                control_flow: ControlFlow::Poll,
                recorded: true,
                reconfigure: false,
                skipped,
            }
        },
        Err(SurfaceError::Lost) => {
            let size = gpu_state.size();
            let reconfigure = resize(gpu_state, scene, compositor, size);
            FrameOutcome {
                control_flow: ControlFlow::Poll,
                recorded: false,
                reconfigure,
                skipped: Vec::new(),
            }
        },
        Err(SurfaceError::OutOfMemory) => FrameOutcome {
            control_flow: ControlFlow::Exit,
            recorded: false,
            reconfigure: false,
            skipped: Vec::new(),
        },
        Err(_) => FrameOutcome {
            control_flow: ControlFlow::Poll,
            recorded: false,
            reconfigure: false,
            skipped: Vec::new(),
        },
    }
}

} // verus!
