//! The scene: a camera, lights and models, the per-frame upload of what
//! changed, and the render pass that draws the models once for the ambient
//! term and once more for each light.

use crate::camera::{buffers_again, Camera, device_with_buffers_again};
use crate::camera_controller::{after_key, CameraController, ControllerView, ElementState, is_bound};
use crate::command::{
    Color, ColorAttachment, ColorLoad, ColorTarget, CommandEncoder, DepthAttachment, LoadOp,
    QueueWrite, RenderCommand, RenderPass, RenderPassView,
};
use crate::device::RenderPipelineId;
use crate::event::{Forward, InputOutcome, MouseButton, WindowEvent};
use crate::gpu_state::{GpuState, PhysicalSize};
use crate::keyed::{is_walk_of, keys_of, value_mut, walk};
use crate::light::{Light, LightType};
use crate::material::Pipelines;
use crate::model::{
    binds_only, draw_context, draw_model, drawn, is_consistent, lemma_binds_only_concat,
    lemma_drawn_binds_its_pass, prepared_all, undrawn, Model,
};
use crate::render_pipeline::Pass;
use crate::util::device_with_uniform;
use std::collections::HashMap;
use vstd::layout::size_of;
use vstd::prelude::*;

verus! {

/// The cache and device after the pipelines of all the given models were
/// seen to, one model after the other.
pub open spec fn models_prepared<I>(models: Seq<(usize, Model<I>)>, before: Pipelines) -> Pipelines
    decreases models.len(),
{
    if models.len() == 0 {
        before
    } else {
        prepared_all(
            models.last().1.material_list(),
            models_prepared(models.drop_last(), before),
        )
    }
}

/// The uploads that updating the given lights in order issues.
pub open spec fn lights_pending<L>(lights: Seq<(usize, Light<L>)>) -> Seq<QueueWrite>
    decreases lights.len(),
{
    if lights.len() == 0 {
        Seq::empty()
    } else {
        lights_pending(lights.drop_last()) + lights.last().1.pending()
    }
}

/// The uploads that updating the given models in order issues.
pub open spec fn models_pending<I>(models: Seq<(usize, Model<I>)>) -> Seq<QueueWrite>
    decreases models.len(),
{
    if models.len() == 0 {
        Seq::empty()
    } else {
        models_pending(models.drop_last()) + models.last().1.pending()
    }
}

/// The commands that draw the given models in order, in one pass and with
/// one light.
pub open spec fn models_drawn<V, C, L, I>(
    models: Seq<(usize, Model<I>)>,
    cache: Map<Seq<char>, RenderPipelineId>,
    camera: Camera<V, C>,
    light: Light<L>,
    pass: Pass,
) -> Seq<RenderCommand>
    decreases models.len(),
{
    if models.len() == 0 {
        Seq::empty()
    } else {
        models_drawn(models.drop_last(), cache, camera, light, pass) + drawn(
            models.last().1.mesh_list(),
            models.last().1.material_list(),
            draw_context(cache, models.last().1, camera, light, pass),
        )
    }
}

/// The commands of the lit passes: for each light that is not ambient, in
/// order, all models drawn with that light.
pub open spec fn lights_drawn<V, C, L, I>(
    lights: Seq<(usize, Light<L>)>,
    models: Seq<(usize, Model<I>)>,
    cache: Map<Seq<char>, RenderPipelineId>,
    camera: Camera<V, C>,
) -> Seq<RenderCommand>
    decreases lights.len(),
{
    if lights.len() == 0 {
        Seq::empty()
    } else {
        lights_drawn(lights.drop_last(), models, cache, camera) + (if lights.last().1.kind()
            != LightType::Ambient {
            models_drawn(models, cache, camera, lights.last().1, Pass::Lit)
        } else {
            Seq::empty()
        })
    }
}

/// A draw that a frame left out because the pipeline for it is missing:
/// the model by its key, the mesh by its place in the model, and the pass.
#[derive(Clone, Copy, Debug, PartialEq, Eq, Structural)]
pub struct SkippedDraw {
    pub model: usize,
    pub mesh: usize,
    pub pass: Pass,
}

/// The draws of one model that are left out, given the places of its
/// meshes without pipeline.
pub open spec fn skipped_of(model: usize, meshes: Seq<usize>, pass: Pass) -> Seq<SkippedDraw> {
    meshes.map_values(|mesh: usize| SkippedDraw { model, mesh, pass })
}

/// The draws that are left out when the given models are drawn in one
/// pass.
pub open spec fn models_skipped<V, C, L, I>(
    models: Seq<(usize, Model<I>)>,
    cache: Map<Seq<char>, RenderPipelineId>,
    camera: Camera<V, C>,
    light: Light<L>,
    pass: Pass,
) -> Seq<SkippedDraw>
    decreases models.len(),
{
    if models.len() == 0 {
        Seq::empty()
    } else {
        models_skipped(models.drop_last(), cache, camera, light, pass) + skipped_of(
            models.last().0,
            undrawn(
                models.last().1.mesh_list(),
                models.last().1.material_list(),
                draw_context(cache, models.last().1, camera, light, pass),
            ),
            pass,
        )
    }
}

/// The draws that are left out in the lit passes.
pub open spec fn lights_skipped<V, C, L, I>(
    lights: Seq<(usize, Light<L>)>,
    models: Seq<(usize, Model<I>)>,
    cache: Map<Seq<char>, RenderPipelineId>,
    camera: Camera<V, C>,
) -> Seq<SkippedDraw>
    decreases lights.len(),
{
    if lights.len() == 0 {
        Seq::empty()
    } else {
        lights_skipped(lights.drop_last(), models, cache, camera) + (if lights.last().1.kind()
            != LightType::Ambient {
            models_skipped(models, cache, camera, lights.last().1, Pass::Lit)
        } else {
            Seq::empty()
        })
    }
}

/// The colour attachment of the scene's render pass: the camera's, where
/// it has one, cleared to the scene's clear colour at the start and kept
/// at the end.
pub open spec fn scene_color_attachment<V, C>(
    camera: Camera<V, C>,
    clear_color: Color,
) -> Option<ColorAttachment> {
    match camera.buffers().color {
        Some(color) => Some(
            ColorAttachment {
                target: ColorTarget::Texture(color.texture),
                load: ColorLoad::Clear(clear_color),
                store: true,
            },
        ),
        None => None,
    }
}

/// The depth attachment of the scene's render pass: the camera's, where
/// it has one, cleared to the far plane at the start and kept at the end.
pub open spec fn scene_depth_attachment<V, C>(camera: Camera<V, C>) -> Option<DepthAttachment> {
    match camera.buffers().depth {
        Some(depth) => Some(
            DepthAttachment { texture: depth.texture, load: LoadOp::Clear, store: true },
        ),
        None => None,
    }
}

/// A scene. Lights and models are kept with the keys they are known by,
/// no key twice, in the order in which they are updated and drawn. The
/// ambient light stands for the ambient terms of all lights together, and
/// the clear colour is what the colour attachment holds where nothing is
/// drawn.
pub struct Scene<V, C, L, I> {
    pub size: PhysicalSize,
    pub mouse_pressed: bool,
    pub camera_controller: CameraController,
    pub clear_color: Color,
    pub ambient_light: Light<L>,
    pub camera: Camera<V, C>,
    pub lights: HashMap<usize, Light<L>>,
    pub models: HashMap<usize, Model<I>>,
}

impl<V, C, L, I> Scene<V, C, L, I> {
    /// The commands of one frame: all models drawn in the ambient pass
    /// with the ambient light, then the lit passes.
    pub open spec fn frame_commands(&self, cache: Map<Seq<char>, RenderPipelineId>) -> Seq<
        RenderCommand,
    > {
        models_drawn(walk(&self.models), cache, self.camera, self.ambient_light, Pass::Ambient)
            + lights_drawn(walk(&self.lights), walk(&self.models), cache, self.camera)
    }

    /// The draws that one frame leaves out for want of a pipeline.
    pub open spec fn frame_skipped(&self, cache: Map<Seq<char>, RenderPipelineId>) -> Seq<
        SkippedDraw,
    > {
        models_skipped(walk(&self.models), cache, self.camera, self.ambient_light, Pass::Ambient)
            + lights_skipped(walk(&self.lights), walk(&self.models), cache, self.camera)
    }

    /// Makes a scene with the given clear colour: sees to the pipelines of
    /// all models, then makes the ambient light with the given uniform
    /// block.
    pub fn new(
        gpu_state: &mut GpuState,
        camera: Camera<V, C>,
        lights: HashMap<usize, Light<L>>,
        models: HashMap<usize, Model<I>>,
        ambient: L,
        clear_color: Color,
    ) -> (scene: Self) where L: Default
        ensures
            scene.size == old(gpu_state).size,
            scene.clear_color == clear_color,
            !scene.mouse_pressed,
            scene.camera_controller@ == (ControllerView {
                horizontal: 0,
                forward: 0,
                vertical: 0,
                yaw: 0,
                pitch: 0,
                shift_down: false,
            }),
            scene.camera == camera,
            scene.lights == lights,
            scene.models == models,
            scene.ambient_light.kind() == LightType::Ambient,
            scene.ambient_light.holder().value() == ambient,
            scene.ambient_light.holder().is_dirty(),
            ({
                let prepared = models_prepared(
                    walk(&models),
                    Pipelines {
                        cache: old(gpu_state).pipeline_vendor@,
                        device: old(gpu_state).device@,
                    },
                );
                &&& final(gpu_state).pipeline_vendor@ == prepared.cache
                &&& final(gpu_state).device@ == device_with_uniform(
                    prepared.device,
                    scene.ambient_light.holder().size(),
                )
                &&& scene.ambient_light.holder().buffer_id().0 == prepared.device.buffers.len()
                &&& scene.ambient_light.holder().group_id().0 == prepared.device.bind_groups.len()
            }),
            scene.ambient_light.holder().size() as nat == size_of::<L>(),
            final(gpu_state).queue == old(gpu_state).queue,
            final(gpu_state).config == old(gpu_state).config,
            final(gpu_state).size == old(gpu_state).size,
            final(gpu_state).depth_attachment == old(gpu_state).depth_attachment,
            final(gpu_state).color_attachment == old(gpu_state).color_attachment,
    {
        broadcast use vstd::std_specs::hash::group_hash_axioms;

        let ghost before = Pipelines {
            cache: gpu_state.pipeline_vendor@,
            device: gpu_state.device@,
        };
        let keys = keys_of(&models);
        let ghost order = walk(&models);
        let mut i: usize = 0;
        while i < keys.len()
            invariant
                i <= keys.len(),
                keys@.len() == order.len(),
                forall|k: int| 0 <= k < keys@.len() ==> #[trigger] keys@[k] == order[k].0,
                is_walk_of(order, models@),
                (Pipelines { cache: gpu_state.pipeline_vendor@, device: gpu_state.device@ })
                    == models_prepared(order.take(i as int), before),
                gpu_state.queue == old(gpu_state).queue,
                gpu_state.config == old(gpu_state).config,
                gpu_state.size == old(gpu_state).size,
                gpu_state.depth_attachment == old(gpu_state).depth_attachment,
                gpu_state.color_attachment == old(gpu_state).color_attachment,
            decreases keys.len() - i,
        {
            assert(order.take(i + 1).drop_last() =~= order.take(i as int));
            match models.get(&keys[i]) {
                Some(model) => {
                    model.prepare_pipelines(gpu_state);
                },
                None => {},
            }
            i = i + 1;
        }
        assert(order.take(i as int) =~= order);
        let ambient_light = Light::new(&mut gpu_state.device, LightType::Ambient, ambient);
        Scene {
            size: gpu_state.size,
            mouse_pressed: false,
            camera_controller: CameraController::new(),
            clear_color,
            ambient_light,
            camera,
            lights,
            models,
        }
    }

    /// The size of the surface the scene is drawn for.
    pub fn size(&self) -> (size: PhysicalSize)
        ensures
            size == self.size,
    {
        self.size
    }

    /// Takes the new size of the surface, after the context took it.
    pub fn resize(&mut self, gpu_state: &mut GpuState, new_size: PhysicalSize)
        ensures
            final(self).size == new_size,
            final(self).camera.viewport() == new_size,
            final(self).camera.dirty(),
            final(self).camera.view_state() == old(self).camera.view_state(),
            final(self).camera.holder() == old(self).camera.holder(),
            final(self).camera.buffers() == buffers_again(
                old(gpu_state).device@,
                old(self).camera.buffers(),
            ),
            final(gpu_state).device@ == device_with_buffers_again(
                old(gpu_state).device@,
                old(gpu_state).config,
                old(self).camera.buffers(),
            ),
            final(self).mouse_pressed == old(self).mouse_pressed,
            final(self).camera_controller == old(self).camera_controller,
            final(self).clear_color == old(self).clear_color,
            final(self).ambient_light == old(self).ambient_light,
            final(self).lights == old(self).lights,
            final(self).models == old(self).models,
            final(gpu_state).queue == old(gpu_state).queue,
            final(gpu_state).config == old(gpu_state).config,
            final(gpu_state).size == old(gpu_state).size,
            final(gpu_state).pipeline_vendor == old(gpu_state).pipeline_vendor,
            final(gpu_state).depth_attachment == old(gpu_state).depth_attachment,
            final(gpu_state).color_attachment == old(gpu_state).color_attachment,
    {
        self.size = new_size;
        self.camera.resize(gpu_state, new_size);
    }
}

impl<V, C, L, I> Scene<V, C, L, I> {
    /// Uploads what changed since the last frame: the camera's uniform
    /// block, worked out anew if the camera is dirty, then the ambient
    /// light, then each light, then the instances of each model.
    /// Afterwards everything is clean.
    pub fn update<F: FnOnce(&V, PhysicalSize) -> C>(&mut self, gpu_state: &mut GpuState, project: F)
        requires
            old(self).camera.dirty() ==> call_requires(
                project,
                (&old(self).camera.view_state(), old(self).camera.viewport()),
            ),
        ensures
            final(gpu_state).queue@ == old(gpu_state).queue@ + old(self).camera.pending() + old(
                self,
            ).ambient_light.pending() + lights_pending(walk(&old(self).lights))
                + models_pending(walk(&old(self).models)),
            !final(self).camera.dirty(),
            final(self).camera.view_state() == old(self).camera.view_state(),
            final(self).camera.viewport() == old(self).camera.viewport(),
            final(self).camera.buffers() == old(self).camera.buffers(),
            !old(self).camera.dirty() ==> final(self).camera.holder() == old(self).camera.holder(),
            old(self).camera.dirty() ==> {
                &&& call_ensures(
                    project,
                    (&old(self).camera.view_state(), old(self).camera.viewport()),
                    final(self).camera.holder().value(),
                )
                &&& final(self).camera.holder() == old(self).camera.holder().with_value(
                    final(self).camera.holder().value(),
                ).with_dirty(false)
            },
            final(self).ambient_light == old(self).ambient_light.flushed(),
            final(self).lights@.dom() == old(self).lights@.dom(),
            forall|key: usize| #[trigger]
                old(self).lights@.contains_key(key) ==> final(self).lights@[key] == old(
                    self,
                ).lights@[key].flushed(),
            final(self).models@.dom() == old(self).models@.dom(),
            forall|key: usize| #[trigger]
                old(self).models@.contains_key(key) ==> final(self).models@[key] == old(
                    self,
                ).models@[key].uploaded(),
            final(self).size == old(self).size,
            final(self).mouse_pressed == old(self).mouse_pressed,
            final(self).camera_controller == old(self).camera_controller,
            final(self).clear_color == old(self).clear_color,
            final(gpu_state).device == old(gpu_state).device,
            final(gpu_state).config == old(gpu_state).config,
            final(gpu_state).size == old(gpu_state).size,
            final(gpu_state).pipeline_vendor == old(gpu_state).pipeline_vendor,
            final(gpu_state).depth_attachment == old(gpu_state).depth_attachment,
            final(gpu_state).color_attachment == old(gpu_state).color_attachment,
    {
        broadcast use vstd::std_specs::hash::group_hash_axioms;

        self.camera.update(&mut gpu_state.queue, project);
        self.ambient_light.update(&mut gpu_state.queue);
        let ghost start = gpu_state.queue@;
        let ghost final_camera = self.camera;
        let light_keys = keys_of(&self.lights);
        let ghost light_order = walk(&self.lights);
        let mut i: usize = 0;
        while i < light_keys.len()
            invariant
                i <= light_keys.len(),
                light_order == walk(&old(self).lights),
                is_walk_of(light_order, old(self).lights@),
                light_keys@.len() == light_order.len(),
                forall|k: int|
                    0 <= k < light_keys@.len() ==> #[trigger] light_keys@[k] == light_order[k].0,
                gpu_state.queue@ == start + lights_pending(light_order.take(i as int)),
                self.lights@.dom() == old(self).lights@.dom(),
                forall|k: int|
                    0 <= k < i ==> self.lights@[#[trigger] light_keys@[k]] == old(
                        self,
                    ).lights@[light_keys@[k]].flushed(),
                forall|key: usize|
                    old(self).lights@.contains_key(key) && (forall|k: int|
                        0 <= k < i ==> light_keys@[k] != key) ==> #[trigger] self.lights@[key]
                        == old(self).lights@[key],
                self.camera == final_camera,
                self.ambient_light == old(self).ambient_light.flushed(),
                self.models == old(self).models,
                self.size == old(self).size,
                self.mouse_pressed == old(self).mouse_pressed,
                self.camera_controller == old(self).camera_controller,
                self.clear_color == old(self).clear_color,
                gpu_state.device == old(gpu_state).device,
                gpu_state.config == old(gpu_state).config,
                gpu_state.size == old(gpu_state).size,
                gpu_state.pipeline_vendor == old(gpu_state).pipeline_vendor,
                gpu_state.depth_attachment == old(gpu_state).depth_attachment,
                gpu_state.color_attachment == old(gpu_state).color_attachment,
            decreases light_keys.len() - i,
        {
            assert(light_order.take(i + 1).drop_last() =~= light_order.take(i as int));
            match value_mut(&mut self.lights, light_keys[i]) {
                Some(light) => {
                    light.update(&mut gpu_state.queue);
                },
                None => {},
            }
            i = i + 1;
        }
        assert(light_order.take(i as int) =~= light_order);
        assert forall|key: usize| #[trigger]
            old(self).lights@.contains_key(key) implies self.lights@[key] == old(
            self,
        ).lights@[key].flushed() by {
            let k = choose|k: int|
                0 <= k < light_order.len() && (#[trigger] light_order[k]).0 == key;
            assert(light_keys@[k] == key);
        }
        let ghost lit = gpu_state.queue@;
        let ghost final_lights = self.lights;
        let model_keys = keys_of(&self.models);
        let ghost model_order = walk(&self.models);
        let mut j: usize = 0;
        while j < model_keys.len()
            invariant
                j <= model_keys.len(),
                model_order == walk(&old(self).models),
                is_walk_of(model_order, old(self).models@),
                model_keys@.len() == model_order.len(),
                forall|k: int|
                    0 <= k < model_keys@.len() ==> #[trigger] model_keys@[k] == model_order[k].0,
                gpu_state.queue@ == lit + models_pending(model_order.take(j as int)),
                self.models@.dom() == old(self).models@.dom(),
                forall|k: int|
                    0 <= k < j ==> self.models@[#[trigger] model_keys@[k]] == old(
                        self,
                    ).models@[model_keys@[k]].uploaded(),
                forall|key: usize|
                    old(self).models@.contains_key(key) && (forall|k: int|
                        0 <= k < j ==> model_keys@[k] != key) ==> #[trigger] self.models@[key]
                        == old(self).models@[key],
                self.camera == final_camera,
                self.ambient_light == old(self).ambient_light.flushed(),
                self.lights == final_lights,
                self.size == old(self).size,
                self.mouse_pressed == old(self).mouse_pressed,
                self.camera_controller == old(self).camera_controller,
                self.clear_color == old(self).clear_color,
                gpu_state.device == old(gpu_state).device,
                gpu_state.config == old(gpu_state).config,
                gpu_state.size == old(gpu_state).size,
                gpu_state.pipeline_vendor == old(gpu_state).pipeline_vendor,
                gpu_state.depth_attachment == old(gpu_state).depth_attachment,
                gpu_state.color_attachment == old(gpu_state).color_attachment,
            decreases model_keys.len() - j,
        {
            assert(model_order.take(j + 1).drop_last() =~= model_order.take(j as int));
            match value_mut(&mut self.models, model_keys[j]) {
                Some(model) => {
                    model.update(&mut gpu_state.queue);
                },
                None => {},
            }
            j = j + 1;
        }
        assert(model_order.take(j as int) =~= model_order);
        assert forall|key: usize| #[trigger]
            old(self).models@.contains_key(key) implies self.models@[key] == old(
            self,
        ).models@[key].uploaded() by {
            let k = choose|k: int|
                0 <= k < model_order.len() && (#[trigger] model_order[k]).0 == key;
            assert(model_keys@[k] == key);
        }
    }
}

/// Records the draws of the given models, in the order in which their map
/// is walked, with one light in one pass, and notes the draws that were
/// left out.
pub fn draw_models<V, C, L, I>(
    render_pass: &mut RenderPass,
    skipped: &mut Vec<SkippedDraw>,
    gpu_state: &GpuState,
    models: &HashMap<usize, Model<I>>,
    camera: &Camera<V, C>,
    light: &Light<L>,
    pass: Pass,
)
    ensures
        final(render_pass)@ == (RenderPassView {
            commands: old(render_pass)@.commands + models_drawn(
                walk(models),
                gpu_state.pipeline_vendor@,
                *camera,
                *light,
                pass,
            ),
            ..old(render_pass)@
        }),
        final(skipped)@ == old(skipped)@ + models_skipped(
            walk(models),
            gpu_state.pipeline_vendor@,
            *camera,
            *light,
            pass,
        ),
{
    broadcast use vstd::std_specs::hash::group_hash_axioms;

    let ghost cache = gpu_state.pipeline_vendor@;
    let keys = keys_of(models);
    let ghost order = walk(models);
    let mut i: usize = 0;
    while i < keys.len()
        invariant
            i <= keys.len(),
            order == walk(models),
            is_walk_of(order, models@),
            keys@.len() == order.len(),
            forall|k: int| 0 <= k < keys@.len() ==> #[trigger] keys@[k] == order[k].0,
            cache == gpu_state.pipeline_vendor@,
            render_pass@ == (RenderPassView {
                commands: old(render_pass)@.commands + models_drawn(
                    order.take(i as int),
                    cache,
                    *camera,
                    *light,
                    pass,
                ),
                ..old(render_pass)@
            }),
            skipped@ == old(skipped)@ + models_skipped(
                order.take(i as int),
                cache,
                *camera,
                *light,
                pass,
            ),
        decreases keys.len() - i,
    {
        assert(order.take(i + 1).drop_last() =~= order.take(i as int));
        assert(order.take(i + 1).last() == order[i as int]);
        let key = keys[i];
        match models.get(&key) {
            Some(model) => {
                let left_out = draw_model(
                    render_pass,
                    &gpu_state.pipeline_vendor,
                    model,
                    camera,
                    light,
                    &pass,
                );
                let ghost noted = skipped@;
                let mut k: usize = 0;
                while k < left_out.len()
                    invariant
                        k <= left_out.len(),
                        skipped@ == noted + skipped_of(key, left_out@.take(k as int), pass),
                    decreases left_out.len() - k,
                {
                    skipped.push(SkippedDraw { model: key, mesh: left_out[k], pass });
                    assert(skipped@ =~= noted + skipped_of(key, left_out@.take(k + 1), pass));
                    k = k + 1;
                }
                assert(left_out@.take(k as int) =~= left_out@);
                assert(render_pass@.commands =~= old(render_pass)@.commands + models_drawn(
                    order.take(i + 1),
                    cache,
                    *camera,
                    *light,
                    pass,
                ));
                assert(skipped@ =~= old(skipped)@ + models_skipped(
                    order.take(i + 1),
                    cache,
                    *camera,
                    *light,
                    pass,
                ));
            },
            None => {},
        }
        i = i + 1;
    }
    assert(order.take(i as int) =~= order);
}

impl<V, C, L, I> Scene<V, C, L, I> {
    /// Records the scene's render pass of one frame and ends it on the
    /// encoder. The pass clears the camera's attachments, draws every model
    /// with the ambient light in the ambient pass, and then, for each
    /// light that is not ambient, draws every model with that light in the
    /// lit pass. Returns the draws left out because a pipeline is missing.
    pub fn render(&self, gpu_state: &GpuState, encoder: &mut CommandEncoder) -> (skipped: Vec<
        SkippedDraw,
    >)
        ensures
            final(encoder)@ == old(encoder)@.push(
                RenderPassView {
                    color: scene_color_attachment(self.camera, self.clear_color),
                    depth: scene_depth_attachment(self.camera),
                    commands: self.frame_commands(gpu_state.pipeline_vendor@),
                },
            ),
            skipped@ == self.frame_skipped(gpu_state.pipeline_vendor@),
    {
        broadcast use vstd::std_specs::hash::group_hash_axioms;

        let buffers = self.camera.render_buffers();
        let color_attachment = match buffers.color {
            Some(color) => Some(
                ColorAttachment {
                    target: ColorTarget::Texture(color.texture),
                    load: ColorLoad::Clear(self.clear_color),
                    store: true,
                },
            ),
            None => None,
        };
        let depth_stencil_attachment = match buffers.depth {
            Some(depth) => Some(
                DepthAttachment { texture: depth.texture, load: LoadOp::Clear, store: true },
            ),
            None => None,
        };
        let mut render_pass = encoder.begin_render_pass(color_attachment, depth_stencil_attachment);
        let mut skipped: Vec<SkippedDraw> = Vec::new();
        let ghost cache = gpu_state.pipeline_vendor@;
        draw_models(
            &mut render_pass,
            &mut skipped,
            gpu_state,
            &self.models,
            &self.camera,
            &self.ambient_light,
            Pass::Ambient,
        );
        let ghost ambient_commands = render_pass@.commands;
        let ghost ambient_skipped = skipped@;
        let keys = keys_of(&self.lights);
        let ghost order = walk(&self.lights);
        let ghost models = walk(&self.models);
        let mut i: usize = 0;
        while i < keys.len()
            invariant
                i <= keys.len(),
                order == walk(&self.lights),
                models == walk(&self.models),
                is_walk_of(order, self.lights@),
                keys@.len() == order.len(),
                forall|k: int| 0 <= k < keys@.len() ==> #[trigger] keys@[k] == order[k].0,
                cache == gpu_state.pipeline_vendor@,
                render_pass@ == (RenderPassView {
                    color: color_attachment,
                    depth: depth_stencil_attachment,
                    commands: ambient_commands + lights_drawn(
                        order.take(i as int),
                        models,
                        cache,
                        self.camera,
                    ),
                }),
                skipped@ == ambient_skipped + lights_skipped(
                    order.take(i as int),
                    models,
                    cache,
                    self.camera,
                ),
            decreases keys.len() - i,
        {
            assert(order.take(i + 1).drop_last() =~= order.take(i as int));
            assert(order.take(i + 1).last() == order[i as int]);
            match self.lights.get(&keys[i]) {
                Some(light) => {
                    match light.light_type() {
                        LightType::Ambient => {},
                        _ => {
                            draw_models(
                                &mut render_pass,
                                &mut skipped,
                                gpu_state,
                                &self.models,
                                &self.camera,
                                light,
                                Pass::Lit,
                            );
                        },
                    }
                },
                None => {},
            }
            assert(render_pass@.commands =~= ambient_commands + lights_drawn(
                order.take(i + 1),
                models,
                cache,
                self.camera,
            ));
            assert(skipped@ =~= ambient_skipped + lights_skipped(
                order.take(i + 1),
                models,
                cache,
                self.camera,
            ));
            i = i + 1;
        }
        assert(order.take(i as int) =~= order);
        assert(render_pass@.commands =~= self.frame_commands(cache));
        assert(skipped@ =~= self.frame_skipped(cache));
        encoder.end_render_pass(render_pass);
        skipped
    }
}

/// What the scene makes of an input, given whether the left button is
/// down. A key goes to the camera controller, which says whether it is
/// one of its keys. The wheel is taken, and its turn goes to the zoom. The
/// left button is taken. Mouse motion is taken while the left button is
/// down, and then turns the camera. Motion that comes along with an event
/// is looked at only if the event is none of the above.
pub open spec fn input_outcome(
    mouse_pressed: bool,
    event: Option<WindowEvent>,
    mouse_motion: bool,
) -> InputOutcome {
    match event {
        Some(WindowEvent::KeyboardInput { key: Some(key), state }) => InputOutcome {
            handled: is_bound(key),
            forward: Forward::Nothing,
        },
        Some(WindowEvent::MouseWheel) => InputOutcome { handled: true, forward: Forward::Scroll },
        Some(WindowEvent::MouseInput { button: MouseButton::Left, state }) => InputOutcome {
            handled: true,
            forward: Forward::Nothing,
        },
        _ => if mouse_motion && mouse_pressed {
            InputOutcome { handled: true, forward: Forward::MouseMotion }
        } else {
            InputOutcome { handled: false, forward: Forward::Nothing }
        },
    }
}

/// Whether the left button is down after an input.
pub open spec fn pressed_after(mouse_pressed: bool, event: Option<WindowEvent>) -> bool {
    match event {
        Some(WindowEvent::MouseInput { button: MouseButton::Left, state }) => state
            == ElementState::Pressed,
        _ => mouse_pressed,
    }
}

/// The camera controller after an input.
pub open spec fn controller_after(
    before: ControllerView,
    event: Option<WindowEvent>,
) -> ControllerView {
    match event {
        Some(WindowEvent::KeyboardInput { key: Some(key), state }) => after_key(before, key, state),
        _ => before,
    }
}

impl<V, C, L, I> Scene<V, C, L, I> {
    /// Takes an input: a window event, mouse motion, or both. Says
    /// whether the scene took it and what is left for the caller to pass
    /// on.
    pub fn input(&mut self, event: Option<&WindowEvent>, mouse_motion: bool) -> (outcome:
        InputOutcome)
        ensures
            outcome == input_outcome(
                old(self).mouse_pressed,
                match event {
                    Some(e) => Some(*e),
                    None => None,
                },
                mouse_motion,
            ),
            final(self).mouse_pressed == pressed_after(
                old(self).mouse_pressed,
                match event {
                    Some(e) => Some(*e),
                    None => None,
                },
            ),
            final(self).camera_controller@ == controller_after(
                old(self).camera_controller@,
                match event {
                    Some(e) => Some(*e),
                    None => None,
                },
            ),
            final(self).size == old(self).size,
            final(self).clear_color == old(self).clear_color,
            final(self).ambient_light == old(self).ambient_light,
            final(self).camera == old(self).camera,
            final(self).lights == old(self).lights,
            final(self).models == old(self).models,
    {
        if let Some(event) = event {
            match event {
                WindowEvent::KeyboardInput { key: Some(key), state } => {
                    let handled = self.camera_controller.process_keyboard(*key, *state);
                    return InputOutcome { handled, forward: Forward::Nothing };
                },
                WindowEvent::MouseWheel => {
                    return InputOutcome { handled: true, forward: Forward::Scroll };
                },
                WindowEvent::MouseInput { button: MouseButton::Left, state } => {
                    self.mouse_pressed = match state {
                        ElementState::Pressed => true,
                        ElementState::Released => false,
                    };
                    return InputOutcome { handled: true, forward: Forward::Nothing };
                },
                _ => {},
            }
        }
        if mouse_motion {
            if self.mouse_pressed {
                return InputOutcome { handled: true, forward: Forward::MouseMotion };
            }
        }
        InputOutcome { handled: false, forward: Forward::Nothing }
    }
}

/// Whether every model is consistent: its meshes name its materials, and
/// its materials are named after their signatures.
pub open spec fn models_are_consistent<I>(models: Seq<(usize, Model<I>)>) -> bool {
    forall|m: int|
        0 <= m < models.len() ==> is_consistent(
            (#[trigger] models[m]).1.mesh_list(),
            models[m].1.material_list(),
        )
}

/// The draws of all models in a pass bind only pipelines that are cached
/// for that pass.
pub proof fn lemma_models_drawn_bind_their_pass<V, C, L, I>(
    models: Seq<(usize, Model<I>)>,
    cache: Map<Seq<char>, RenderPipelineId>,
    camera: Camera<V, C>,
    light: Light<L>,
    pass: Pass,
)
    requires
        models_are_consistent(models),
    ensures
        binds_only(models_drawn(models, cache, camera, light, pass), cache, pass),
    decreases models.len(),
{
    if models.len() > 0 {
        assert forall|m: int| 0 <= m < models.drop_last().len() implies is_consistent(
            (#[trigger] models.drop_last()[m]).1.mesh_list(),
            models.drop_last()[m].1.material_list(),
        ) by {
            assert(models.drop_last()[m] == models[m]);
        }
        lemma_models_drawn_bind_their_pass(models.drop_last(), cache, camera, light, pass);
        let model = models.last().1;
        assert(models[models.len() - 1] == models.last());
        lemma_drawn_binds_its_pass(
            model.mesh_list(),
            model.material_list(),
            draw_context(cache, model, camera, light, pass),
        );
        lemma_binds_only_concat(
            models_drawn(models.drop_last(), cache, camera, light, pass),
            drawn(
                model.mesh_list(),
                model.material_list(),
                draw_context(cache, model, camera, light, pass),
            ),
            cache,
            pass,
        );
    }
}

/// The lit passes bind only pipelines that are cached for the lit pass.
pub proof fn lemma_lights_drawn_bind_lit<V, C, L, I>(
    lights: Seq<(usize, Light<L>)>,
    models: Seq<(usize, Model<I>)>,
    cache: Map<Seq<char>, RenderPipelineId>,
    camera: Camera<V, C>,
)
    requires
        models_are_consistent(models),
    ensures
        binds_only(lights_drawn(lights, models, cache, camera), cache, Pass::Lit),
    decreases lights.len(),
{
    if lights.len() > 0 {
        lemma_lights_drawn_bind_lit(lights.drop_last(), models, cache, camera);
        let last = if lights.last().1.kind() != LightType::Ambient {
            models_drawn(models, cache, camera, lights.last().1, Pass::Lit)
        } else {
            Seq::empty()
        };
        if lights.last().1.kind() != LightType::Ambient {
            lemma_models_drawn_bind_their_pass(models, cache, camera, lights.last().1, Pass::Lit);
        }
        lemma_binds_only_concat(
            lights_drawn(lights.drop_last(), models, cache, camera),
            last,
            cache,
            Pass::Lit,
        );
    }
}

/// In the commands of a frame every bind of an ambient-pass pipeline comes
/// before every bind of a lit-pass pipeline: the frame is the ambient
/// draws, which bind only pipelines of the ambient pass, followed by the
/// lit draws, which bind only pipelines of the lit pass.
pub proof fn lemma_ambient_precedes_lit<V, C, L, I>(
    scene: Scene<V, C, L, I>,
    cache: Map<Seq<char>, RenderPipelineId>,
)
    requires
        models_are_consistent(walk(&scene.models)),
    ensures
        ({
            let ambient = models_drawn(
                walk(&scene.models),
                cache,
                scene.camera,
                scene.ambient_light,
                Pass::Ambient,
            );
            let lit = lights_drawn(
                walk(&scene.lights),
                walk(&scene.models),
                cache,
                scene.camera,
            );
            let frame = scene.frame_commands(cache);
            &&& frame == ambient + lit
            &&& binds_only(ambient, cache, Pass::Ambient)
            &&& binds_only(lit, cache, Pass::Lit)
            &&& forall|i: int| 0 <= i < ambient.len() ==> #[trigger] frame[i] == ambient[i]
            &&& forall|i: int|
                ambient.len() <= i < frame.len() ==> #[trigger] frame[i] == lit[i - ambient.len()]
        }),
{
    lemma_models_drawn_bind_their_pass(
        walk(&scene.models),
        cache,
        scene.camera,
        scene.ambient_light,
        Pass::Ambient,
    );
    lemma_lights_drawn_bind_lit(
        walk(&scene.lights),
        walk(&scene.models),
        cache,
        scene.camera,
    );
}

} // verus!
