//! Meshes and instanced models, and the draw loop that turns a model into
//! render commands.

use crate::camera::Camera;
use crate::command::{IndexFormat, Queue, QueueWrite, RenderCommand, RenderPass, RenderPassView};
use crate::device::{
    BindGroupId, BufferDescriptor, BufferId, BufferUsages, Device, RenderPipelineId,
};
use crate::gpu_state::GpuState;
use crate::light::Light;
use crate::material::{
    is_pass_pipeline, lemma_prepare_is_idempotent, pipeline_name, signature, Material, Pipelines,
};
use crate::pipeline_state::VertexBufferLayout;
use crate::render_pipeline::{Pass, RenderPipelineVendor};
use crate::vertex::{
    instance_formats, lemma_model_strides, model_vertex_layout, packed_size, vertex_layout,
};
use std::collections::HashMap;
use vstd::prelude::*;

verus! {

/// One mesh of a model: its buffers on the device, the number of indices
/// to draw, and the material it is drawn with, by its place among the
/// model's materials.
#[derive(Debug)]
pub struct Mesh {
    pub name: String,
    pub vertex_buffer: BufferId,
    pub index_buffer: BufferId,
    pub num_elements: u32,
    pub material: usize,
}

/// The size in bytes of one instance in the instance buffer: a model
/// matrix of sixteen floats and a normal matrix of nine.
pub const INSTANCE_STRIDE: u64 = 100;

/// The stride of the instance buffer is the size of the attributes that
/// the instance layout packs.
pub proof fn lemma_instance_stride()
    ensures
        packed_size(instance_formats()) == INSTANCE_STRIDE,
{
    lemma_model_strides();
}

/// The usage of an instance buffer: bound as vertex buffer, written by
/// copies.
pub open spec fn instance_usage() -> BufferUsages {
    BufferUsages { uniform: false, vertex: true, index: false, copy_dst: true }
}

/// A model: meshes, the materials they are drawn with, and the instances
/// that every mesh is drawn for. `I` is what places one instance in the
/// world.
pub struct Model<I> {
    meshes: Vec<Mesh>,
    materials: Vec<Material>,
    instances: Vec<I>,
    is_dirty: bool,
    instance_buffer: BufferId,
}

impl<I> Model<I> {
    #[verifier::type_invariant]
    spec fn well_formed(self) -> bool {
        &&& self.instances.len() <= u32::MAX
        &&& forall|i: int|
            0 <= i < self.meshes.len() ==> (#[trigger] self.meshes[i]).material
                < self.materials.len()
    }

    /// The meshes.
    pub closed spec fn mesh_list(&self) -> Seq<Mesh> {
        self.meshes@
    }

    /// The materials.
    pub closed spec fn material_list(&self) -> Seq<Material> {
        self.materials@
    }

    /// The instances.
    pub closed spec fn instance_list(&self) -> Seq<I> {
        self.instances@
    }

    /// Whether the instances changed since they were last uploaded.
    pub closed spec fn dirty(&self) -> bool {
        self.is_dirty
    }

    /// The buffer that holds the instances on the device.
    pub closed spec fn instance_buffer_id(&self) -> BufferId {
        self.instance_buffer
    }

    /// The model after its instances were uploaded: the same model, clean.
    pub closed spec fn uploaded(self) -> Self {
        Model { is_dirty: false, ..self }
    }

    /// The upload that the next update issues: all instances if the model
    /// is dirty, nothing otherwise.
    pub open spec fn pending(&self) -> Seq<QueueWrite> {
        if self.dirty() {
            seq![
                QueueWrite::Buffer {
                    buffer: self.instance_buffer_id(),
                    offset: 0,
                    size: (self.instance_list().len() * INSTANCE_STRIDE) as u64,
                },
            ]
        } else {
            Seq::empty()
        }
    }

    /// Makes a model and the buffer for its instances. The instances are
    /// uploaded by the first update.
    pub fn new(
        device: &mut Device,
        meshes: Vec<Mesh>,
        materials: Vec<Material>,
        instances: Vec<I>,
    ) -> (model: Self)
        requires
            instances.len() <= u32::MAX,
            forall|i: int|
                0 <= i < meshes.len() ==> (#[trigger] meshes[i]).material < materials.len(),
        ensures
            model.mesh_list() == meshes@,
            model.material_list() == materials@,
            model.instance_list() == instances@,
            model.dirty(),
            model.instance_buffer_id().0 == old(device)@.buffers.len(),
            final(device)@ == old(device)@.with_buffer(
                BufferDescriptor {
                    size: (instances.len() * INSTANCE_STRIDE) as u64,
                    usage: instance_usage(),
                },
            ),
    {
        let size = (instances.len() as u64) * INSTANCE_STRIDE;
        let instance_buffer = device.create_buffer(
            BufferDescriptor {
                size,
                usage: BufferUsages { uniform: false, vertex: true, index: false, copy_dst: true },
            },
        );
        Model { meshes, materials, instances, is_dirty: true, instance_buffer }
    }

    /// The meshes. Each names one of the model's materials.
    pub fn meshes(&self) -> (meshes: &Vec<Mesh>)
        ensures
            meshes@ == self.mesh_list(),
            forall|i: int|
                0 <= i < meshes.len() ==> (#[trigger] meshes[i]).material
                    < self.material_list().len(),
    {
        proof {
            use_type_invariant(self);
        }
        &self.meshes
    }

    /// The materials.
    pub fn materials(&self) -> (materials: &Vec<Material>)
        ensures
            materials@ == self.material_list(),
    {
        &self.materials
    }

    /// The instances.
    pub fn instances(&self) -> (instances: &Vec<I>)
        ensures
            instances@ == self.instance_list(),
            instances.len() <= u32::MAX,
    {
        proof {
            use_type_invariant(self);
        }
        &self.instances
    }

    /// The number of instances.
    pub fn instance_count(&self) -> (count: u32)
        ensures
            count == self.instance_list().len(),
    {
        proof {
            use_type_invariant(self);
        }
        self.instances.len() as u32
    }

    /// The buffer that holds the instances on the device.
    pub fn instance_buffer(&self) -> (buffer: BufferId)
        ensures
            buffer == self.instance_buffer_id(),
    {
        self.instance_buffer
    }

    /// Whether the next update will upload the instances.
    pub fn is_dirty(&self) -> (dirty: bool)
        ensures
            dirty == self.dirty(),
    {
        self.is_dirty
    }

    /// Replaces the instance at `at`. An index out of range is ignored,
    /// and the model is dirty only if an instance was replaced.
    pub fn update_instance(&mut self, at: usize, to: I)
        ensures
            final(self).mesh_list() == old(self).mesh_list(),
            final(self).material_list() == old(self).material_list(),
            final(self).instance_buffer_id() == old(self).instance_buffer_id(),
            at < old(self).instance_list().len() ==> {
                &&& final(self).instance_list() == old(self).instance_list().update(at as int, to)
                &&& final(self).dirty()
            },
            at >= old(self).instance_list().len() ==> {
                &&& final(self).instance_list() == old(self).instance_list()
                &&& final(self).dirty() == old(self).dirty()
            },
    {
        proof {
            use_type_invariant(&*self);
        }
        if at < self.instances.len() {
            let mut instances: Vec<I> = Vec::new();
            std::mem::swap(&mut self.instances, &mut instances);
            instances.set(at, to);
            std::mem::swap(&mut self.instances, &mut instances);
            self.is_dirty = true;
        }
    }

    /// Uploads all instances if any changed since the last update.
    /// Afterwards the model is clean.
    pub fn update(&mut self, queue: &mut Queue)
        ensures
            final(queue)@ == old(queue)@ + old(self).pending(),
            *final(self) == old(self).uploaded(),
    {
        proof {
            use_type_invariant(&*self);
        }
        if self.is_dirty {
            let size = (self.instances.len() as u64) * INSTANCE_STRIDE;
            queue.write_buffer(self.instance_buffer, 0, size);
            self.is_dirty = false;
        }
        assert(queue@ =~= old(queue)@ + old(self).pending());
    }

    /// The two vertex buffers of a model pipeline: vertices, then
    /// instances.
    pub fn vertex_layout() -> (layouts: Vec<VertexBufferLayout>)
        ensures
            layouts@.map_values(|l: VertexBufferLayout| l@) == model_vertex_layout(),
    {
        vertex_layout()
    }
}

impl<I: Copy> Model<I> {
    /// The instance at a place after a batch of updates: the value that
    /// the batch has for the place, or the instance as it was.
    pub open spec fn updated(before: I, updates: Map<usize, I>, place: int) -> I {
        if updates.contains_key(place as usize) {
            updates[place as usize]
        } else {
            before
        }
    }

    /// Replaces each instance whose index is a key of the map by the
    /// key's value. Keys out of range are ignored, and the model is dirty
    /// only if an instance was replaced.
    pub fn update_instances(&mut self, updated_instances: &HashMap<usize, I>)
        ensures
            final(self).mesh_list() == old(self).mesh_list(),
            final(self).material_list() == old(self).material_list(),
            final(self).instance_buffer_id() == old(self).instance_buffer_id(),
            final(self).instance_list().len() == old(self).instance_list().len(),
            forall|i: int|
                0 <= i < old(self).instance_list().len()
                    ==> #[trigger] final(self).instance_list()[i] == Self::updated(
                    old(self).instance_list()[i],
                    updated_instances@,
                    i,
                ),
            final(self).dirty() == (old(self).dirty() || exists|k: usize|
                updated_instances@.contains_key(k) && k < old(self).instance_list().len()),
    {
        broadcast use vstd::std_specs::hash::group_hash_axioms;

        proof {
            use_type_invariant(&*self);
        }
        let mut instances: Vec<I> = Vec::new();
        std::mem::swap(&mut self.instances, &mut instances);
        let mut did_mutate = false;
        let ghost before = instances@;
        for pair in iter: updated_instances.iter()
            invariant
                instances@.len() == before.len(),
                forall|i: int|
                    0 <= i < before.len() ==> #[trigger] instances@[i] == (if exists|k: int|
                        0 <= k < iter.index() && *(#[trigger] iter.seq()[k]).0 == i {
                        updated_instances@[i as usize]
                    } else {
                        before[i]
                    }),
                did_mutate == exists|k: int|
                    0 <= k < iter.index() && *(#[trigger] iter.seq()[k]).0 < before.len(),
                forall|k: int|
                    0 <= k < iter.seq().len() ==> updated_instances@.contains_key(
                        *(#[trigger] iter.seq()[k]).0,
                    ) && updated_instances@[*iter.seq()[k].0] == *iter.seq()[k].1,
                forall|key: usize| #[trigger]
                    updated_instances@.contains_key(key) ==> exists|k: int|
                        0 <= k < iter.seq().len() && *(#[trigger] iter.seq()[k]).0 == key,
        {
            let (idx, value) = pair;
            if *idx < instances.len() {
                instances.set(*idx, *value);
                did_mutate = true;
            }
        }
        std::mem::swap(&mut self.instances, &mut instances);
        if did_mutate {
            self.is_dirty = true;
        }
    }
}

/// An uploaded model is the same model, clean: its next update issues
/// nothing, so of two updates in a row only the first can upload.
pub proof fn lemma_model_uploaded<I>(model: Model<I>)
    ensures
        !model.uploaded().dirty(),
        model.uploaded().mesh_list() == model.mesh_list(),
        model.uploaded().material_list() == model.material_list(),
        model.uploaded().instance_list() == model.instance_list(),
        model.uploaded().instance_buffer_id() == model.instance_buffer_id(),
        model.uploaded().pending() == Seq::<QueueWrite>::empty(),
        model.uploaded().uploaded() == model.uploaded(),
        model.pending().len() <= 1,
{
}

/// The cache and device after the pipelines of all the given materials
/// were seen to, one material after the other.
pub open spec fn prepared_all(materials: Seq<Material>, before: Pipelines) -> Pipelines
    decreases materials.len(),
{
    if materials.len() == 0 {
        before
    } else {
        materials.last().prepared(prepared_all(materials.drop_last(), before))
    }
}

/// Whether the cache holds both pipelines of every one of the materials.
pub open spec fn all_prepared(materials: Seq<Material>, state: Pipelines) -> bool {
    forall|k: int, pass: Pass|
        0 <= k < materials.len() ==> state.cache.contains_key(
            #[trigger] materials[k].pipeline_name(pass),
        )
}

/// Whether the second cache holds all that the first one holds, under the
/// same names.
pub open spec fn cache_extends(first: Pipelines, second: Pipelines) -> bool {
    forall|name: Seq<char>| #[trigger]
        first.cache.contains_key(name) ==> second.cache.contains_key(name) && second.cache[name]
            == first.cache[name]
}

/// Preparing materials keeps what the cache holds and leaves it holding
/// both pipelines of each of them.
pub proof fn lemma_prepared_all_holds_all(materials: Seq<Material>, before: Pipelines)
    ensures
        cache_extends(before, prepared_all(materials, before)),
        all_prepared(materials, prepared_all(materials, before)),
    decreases materials.len(),
{
    if materials.len() > 0 {
        let rest = materials.drop_last();
        let middle = prepared_all(rest, before);
        lemma_prepared_all_holds_all(rest, before);
        lemma_prepare_is_idempotent(materials.last(), middle);
        let after = prepared_all(materials, before);
        assert forall|k: int, pass: Pass| 0 <= k < materials.len() implies after.cache.contains_key(
            #[trigger] materials[k].pipeline_name(pass),
        ) by {
            if k < rest.len() {
                assert(rest[k] == materials[k]);
                assert(middle.cache.contains_key(rest[k].pipeline_name(pass)));
            } else {
                assert(materials[k] == materials.last());
                assert(pass == Pass::Ambient || pass == Pass::Lit);
            }
        }
    }
}

/// Where the cache holds both pipelines of every material, preparing the
/// materials changes nothing.
pub proof fn lemma_prepared_all_is_idle(materials: Seq<Material>, before: Pipelines)
    requires
        all_prepared(materials, before),
    ensures
        prepared_all(materials, before) == before,
    decreases materials.len(),
{
    if materials.len() > 0 {
        let rest = materials.drop_last();
        assert forall|k: int, pass: Pass| 0 <= k < rest.len() implies before.cache.contains_key(
            #[trigger] rest[k].pipeline_name(pass),
        ) by {
            assert(rest[k] == materials[k]);
        }
        lemma_prepared_all_is_idle(rest, before);
        assert(materials[materials.len() - 1] == materials.last());
        assert(before.cache.contains_key(materials.last().pipeline_name(Pass::Ambient)));
        assert(before.cache.contains_key(materials.last().pipeline_name(Pass::Lit)));
    }
}

/// Preparing the pipelines of a model a second time changes nothing: no
/// pipeline is built and the cache hands out the same pipelines as before.
pub proof fn lemma_prepare_model_is_idempotent(materials: Seq<Material>, before: Pipelines)
    ensures
        prepared_all(materials, prepared_all(materials, before)) == prepared_all(
            materials,
            before,
        ),
{
    lemma_prepared_all_holds_all(materials, before);
    lemma_prepared_all_is_idle(materials, prepared_all(materials, before));
}

impl<I> Model<I> {
    /// Sees to it that the cache holds the pipelines of all the model's
    /// materials.
    pub fn prepare_pipelines(&self, gpu_state: &mut GpuState)
        ensures
            (Pipelines {
                cache: final(gpu_state).pipeline_vendor@,
                device: final(gpu_state).device@,
            }) == prepared_all(
                self.material_list(),
                Pipelines {
                    cache: old(gpu_state).pipeline_vendor@,
                    device: old(gpu_state).device@,
                },
            ),
            final(gpu_state).queue == old(gpu_state).queue,
            final(gpu_state).config == old(gpu_state).config,
            final(gpu_state).size == old(gpu_state).size,
            final(gpu_state).depth_attachment == old(gpu_state).depth_attachment,
            final(gpu_state).color_attachment == old(gpu_state).color_attachment,
    {
        let ghost before = Pipelines {
            cache: gpu_state.pipeline_vendor@,
            device: gpu_state.device@,
        };
        let mut i: usize = 0;
        while i < self.materials.len()
            invariant
                i <= self.materials.len(),
                (Pipelines { cache: gpu_state.pipeline_vendor@, device: gpu_state.device@ })
                    == prepared_all(self.materials@.take(i as int), before),
                gpu_state.queue == old(gpu_state).queue,
                gpu_state.config == old(gpu_state).config,
                gpu_state.size == old(gpu_state).size,
                gpu_state.depth_attachment == old(gpu_state).depth_attachment,
                gpu_state.color_attachment == old(gpu_state).color_attachment,
            decreases self.materials.len() - i,
        {
            assert(self.materials@.take(i + 1).drop_last() =~= self.materials@.take(i as int));
            self.materials[i].prepare_pipelines(gpu_state);
            i = i + 1;
        }
        assert(self.materials@.take(i as int) =~= self.materials@);
    }
}

/// What the draws of one model in one pass share: the pipeline cache, the
/// model's instances, and the bind groups of the camera and of the light.
pub ghost struct DrawContext {
    pub cache: Map<Seq<char>, RenderPipelineId>,
    pub instance_buffer: BufferId,
    pub instance_count: u32,
    pub camera: BindGroupId,
    pub light: BindGroupId,
    pub pass: Pass,
}

/// The commands that draw one mesh: its pipeline; its vertices in slot 0
/// and the instances in slot 1; its indices, 32 bits wide; the bind groups
/// of material, camera and light at 0, 1 and 2; and one indexed draw of
/// all its indices for all instances.
pub open spec fn mesh_commands(
    pipeline: RenderPipelineId,
    mesh: Mesh,
    material: BindGroupId,
    context: DrawContext,
) -> Seq<RenderCommand> {
    seq![
        RenderCommand::SetPipeline { pipeline },
        RenderCommand::SetVertexBuffer { slot: 0, buffer: mesh.vertex_buffer },
        RenderCommand::SetVertexBuffer { slot: 1, buffer: context.instance_buffer },
        RenderCommand::SetIndexBuffer { buffer: mesh.index_buffer, format: IndexFormat::Uint32 },
        RenderCommand::SetBindGroup { index: 0, group: material },
        RenderCommand::SetBindGroup { index: 1, group: context.camera },
        RenderCommand::SetBindGroup { index: 2, group: context.light },
        RenderCommand::DrawIndexed {
            index_count: mesh.num_elements,
            base_vertex: 0,
            instance_count: context.instance_count,
        },
    ]
}

/// Whether the cache has the pipeline that a mesh needs in the pass.
pub open spec fn mesh_is_drawable(
    mesh: Mesh,
    materials: Seq<Material>,
    context: DrawContext,
) -> bool {
    context.cache.contains_key(materials[mesh.material as int].pipeline_name(context.pass))
}

/// The commands that draw the given meshes in order. A mesh whose
/// pipeline the cache lacks is left out.
pub open spec fn drawn(meshes: Seq<Mesh>, materials: Seq<Material>, context: DrawContext) -> Seq<
    RenderCommand,
>
    decreases meshes.len(),
{
    if meshes.len() == 0 {
        Seq::empty()
    } else {
        let mesh = meshes.last();
        let material = materials[mesh.material as int];
        drawn(meshes.drop_last(), materials, context) + (if mesh_is_drawable(
            mesh,
            materials,
            context,
        ) {
            mesh_commands(
                context.cache[material.pipeline_name(context.pass)],
                mesh,
                material.bind_group,
                context,
            )
        } else {
            Seq::empty()
        })
    }
}

/// The places of the meshes that are left out for want of a pipeline.
pub open spec fn undrawn(meshes: Seq<Mesh>, materials: Seq<Material>, context: DrawContext) -> Seq<
    usize,
>
    decreases meshes.len(),
{
    if meshes.len() == 0 {
        Seq::empty()
    } else if mesh_is_drawable(meshes.last(), materials, context) {
        undrawn(meshes.drop_last(), materials, context)
    } else {
        undrawn(meshes.drop_last(), materials, context).push((meshes.len() - 1) as usize)
    }
}

/// What the draws of a model share when it is drawn with the given cache,
/// camera and light in the given pass.
pub open spec fn draw_context<V, C, L, I>(
    cache: Map<Seq<char>, RenderPipelineId>,
    model: Model<I>,
    camera: Camera<V, C>,
    light: Light<L>,
    pass: Pass,
) -> DrawContext {
    DrawContext {
        cache,
        instance_buffer: model.instance_buffer_id(),
        instance_count: model.instance_list().len() as u32,
        camera: camera.holder().group_id(),
        light: light.holder().group_id(),
        pass,
    }
}

/// Records the draws of a model into a render pass: one indexed draw of
/// all instances for each mesh whose material has its pipeline for the
/// pass in the cache. Returns the places of the meshes that were left out
/// because the pipeline is missing.
pub fn draw_model<V, C, L, I>(
    render_pass: &mut RenderPass,
    pipeline_vendor: &RenderPipelineVendor,
    model: &Model<I>,
    camera: &Camera<V, C>,
    light: &Light<L>,
    pass: &Pass,
) -> (skipped: Vec<usize>)
    ensures
        final(render_pass)@ == (RenderPassView {
            commands: old(render_pass)@.commands + drawn(
                model.mesh_list(),
                model.material_list(),
                draw_context(pipeline_vendor@, *model, *camera, *light, *pass),
            ),
            ..old(render_pass)@
        }),
        skipped@ == undrawn(
            model.mesh_list(),
            model.material_list(),
            draw_context(pipeline_vendor@, *model, *camera, *light, *pass),
        ),
{
    let ghost context = draw_context(pipeline_vendor@, *model, *camera, *light, *pass);
    let instances = model.instance_count();
    let meshes = model.meshes();
    let materials = model.materials();
    let mut skipped: Vec<usize> = Vec::new();
    let mut i: usize = 0;
    while i < meshes.len()
        invariant
            i <= meshes.len(),
            meshes@ == model.mesh_list(),
            materials@ == model.material_list(),
            instances == context.instance_count,
            context == draw_context(pipeline_vendor@, *model, *camera, *light, *pass),
            forall|k: int|
                0 <= k < meshes.len() ==> (#[trigger] meshes[k]).material < materials.len(),
            render_pass@ == (RenderPassView {
                commands: old(render_pass)@.commands + drawn(
                    meshes@.take(i as int),
                    materials@,
                    context,
                ),
                ..old(render_pass)@
            }),
            skipped@ == undrawn(meshes@.take(i as int), materials@, context),
        decreases meshes.len() - i,
    {
        let mesh = &meshes[i];
        let material = &materials[mesh.material];
        assert(meshes@.take(i + 1).drop_last() =~= meshes@.take(i as int));
        assert(meshes@.take(i + 1).last() == meshes@[i as int]);
        match pipeline_vendor.get_pipeline(material.pipeline_id(pass)) {
            Some(pipeline) => {
                render_pass.set_pipeline(pipeline);
                render_pass.set_vertex_buffer(0, mesh.vertex_buffer);
                render_pass.set_vertex_buffer(1, model.instance_buffer());
                render_pass.set_index_buffer(mesh.index_buffer, IndexFormat::Uint32);
                render_pass.set_bind_group(0, material.bind_group);
                render_pass.set_bind_group(1, camera.bind_group());
                render_pass.set_bind_group(2, light.bind_group());
                render_pass.draw_indexed(mesh.num_elements, 0, instances);
                assert(render_pass@.commands =~= old(render_pass)@.commands + drawn(
                    meshes@.take(i + 1),
                    materials@,
                    context,
                ));
            },
            None => {
                skipped.push(i);
                assert(render_pass@.commands =~= old(render_pass)@.commands + drawn(
                    meshes@.take(i + 1),
                    materials@,
                    context,
                ));
            },
        }
        i = i + 1;
    }
    assert(meshes@.take(i as int) =~= meshes@);
    skipped
}

/// Whether every pipeline that the commands bind is one cached for the
/// pass.
pub open spec fn binds_only(
    commands: Seq<RenderCommand>,
    cache: Map<Seq<char>, RenderPipelineId>,
    pass: Pass,
) -> bool {
    forall|i: int|
        0 <= i < commands.len() ==> match #[trigger] commands[i] {
            RenderCommand::SetPipeline { pipeline } => is_pass_pipeline(cache, pass, pipeline),
            _ => true,
        }
}

/// Whether every mesh names one of the materials, and every material is
/// named after its signature.
pub open spec fn is_consistent(meshes: Seq<Mesh>, materials: Seq<Material>) -> bool {
    &&& forall|i: int| 0 <= i < meshes.len() ==> (#[trigger] meshes[i]).material < materials.len()
    &&& forall|k: int| 0 <= k < materials.len() ==> (#[trigger] materials[k]).has_pipeline_names()
}

/// Commands that bind only pipelines of a pass, one run after the other,
/// bind only pipelines of that pass.
pub proof fn lemma_binds_only_concat(
    first: Seq<RenderCommand>,
    second: Seq<RenderCommand>,
    cache: Map<Seq<char>, RenderPipelineId>,
    pass: Pass,
)
    requires
        binds_only(first, cache, pass),
        binds_only(second, cache, pass),
    ensures
        binds_only(first + second, cache, pass),
{
    assert forall|i: int| 0 <= i < (first + second).len() implies match #[trigger] (first
        + second)[i] {
        RenderCommand::SetPipeline { pipeline } => is_pass_pipeline(cache, pass, pipeline),
        _ => true,
    } by {
        if i < first.len() {
            assert((first + second)[i] == first[i]);
        } else {
            assert((first + second)[i] == second[i - first.len()]);
        }
    }
}

/// The draws of a model in a pass bind only pipelines that are cached for
/// that pass.
pub proof fn lemma_drawn_binds_its_pass(
    meshes: Seq<Mesh>,
    materials: Seq<Material>,
    context: DrawContext,
)
    requires
        is_consistent(meshes, materials),
    ensures
        binds_only(drawn(meshes, materials, context), context.cache, context.pass),
    decreases meshes.len(),
{
    if meshes.len() > 0 {
        let mesh = meshes.last();
        let material = materials[mesh.material as int];
        lemma_drawn_binds_its_pass(meshes.drop_last(), materials, context);
        let last = if mesh_is_drawable(mesh, materials, context) {
            mesh_commands(
                context.cache[material.pipeline_name(context.pass)],
                mesh,
                material.bind_group,
                context,
            )
        } else {
            Seq::empty()
        };
        assert(binds_only(last, context.cache, context.pass)) by {
            if mesh_is_drawable(mesh, materials, context) {
                assert(material.has_pipeline_names());
                assert(material.pipeline_name(context.pass) == pipeline_name(
                    context.pass,
                    signature(),
                ));
                assert(is_pass_pipeline(
                    context.cache,
                    context.pass,
                    context.cache[material.pipeline_name(context.pass)],
                ));
            }
        }
        lemma_binds_only_concat(
            drawn(meshes.drop_last(), materials, context),
            last,
            context.cache,
            context.pass,
        );
    }
}

} // verus!
