//! The compositor: a fullscreen pass that samples the camera's colour and
//! depth attachments and writes to the image of the presentation surface.

use crate::block::{
    aligned, block_size, field_offset, fields_end, lemma_fields_end_push, FieldType,
};
use crate::camera::{Camera, RenderBuffers};
use crate::command::{
    ColorAttachment, ColorLoad, ColorTarget, CommandEncoder, RenderCommand, RenderPassView,
};
use crate::device::{
    AddressMode, BindGroupDescriptor, BindGroupEntry, BindGroupId, BindGroupLayoutEntry,
    BindGroupLayoutId, BindGroupView, BindingResource, BindingType, Device, FilterMode,
    RenderPipelineId, SamplerDescriptor, SamplerId, ShaderStages, TextureFormat,
    TextureViewDimension,
};
use crate::event::WindowEvent;
use crate::gpu_state::{GpuState, PhysicalSize};
use crate::pipeline_state::{
    blend_component_replace, BlendComponent, BlendFactor, BlendOperation, BlendState,
    ColorTargetState, EntryPoint, FrontFace, MultisampleState, PolygonMode, PrimitiveState,
    PrimitiveTopology, RenderPipelineDescriptor, RenderPipelineView, ShaderSource,
    VertexBufferLayoutView,
};
use crate::render_pipeline::single_sample;
use crate::texture::color_sampler;
use crate::util::{device_with_uniform, lemma_change_is_written, UniformWrapper};
use vstd::layout::size_of;
use vstd::prelude::*;

verus! {

/// The size in bytes of the uniform block of the compositor.
pub const COMPOSITOR_UNIFORM_SIZE: u64 = 16;

/// The fields of the uniform block of the compositor: four floats, the
/// camera's near and far depth and the width and height of the surface.
pub open spec fn compositor_fields() -> Seq<FieldType> {
    seq![FieldType::Vec4]
}

/// The fields of the uniform block of the compositor.
pub fn uniform_fields() -> (fields: Vec<FieldType>)
    ensures
        fields@ == compositor_fields(),
{
    let mut fields: Vec<FieldType> = Vec::new();
    fields.push(FieldType::Vec4);
    assert(fields@ =~= compositor_fields());
    fields
}

/// The uniform block of the compositor is one vector of four floats.
pub proof fn lemma_compositor_block_layout()
    ensures
        field_offset(compositor_fields(), 0) == 0,
        block_size(compositor_fields()) == COMPOSITOR_UNIFORM_SIZE,
{
    let f = compositor_fields();
    assert(fields_end(f.take(0)) == 0);
    lemma_fields_end_push(f.take(0), f[0]);
    assert(f.take(0).push(f[0]) =~= f);
    assert(aligned(0, 16) == 0);
    assert(fields_end(f) == 16);
    assert(aligned(16, 16) == 16);
}

/// The layout of the compositor's attachment bind group: colour view and
/// sampler at bindings 0 and 1, depth view and sampler at 2 and 3, all for
/// the fragment stage.
pub open spec fn compositor_layout() -> Seq<BindGroupLayoutEntry> {
    Seq::new(
        4,
        |i: int|
            BindGroupLayoutEntry {
                binding: i as u32,
                visibility: ShaderStages { vertex: false, fragment: true },
                ty: if i % 2 == 0 {
                    BindingType::Texture { view_dimension: TextureViewDimension::D2 }
                } else {
                    BindingType::Sampler
                },
            },
    )
}

/// What the compositor binds for the given attachments. The colour
/// attachment comes with its own sampler, the depth attachment with the
/// compositor's. Bindings are numbered as the entries come, so without a
/// colour attachment the depth attachment starts at binding 0.
pub open spec fn compositor_bindings(buffers: RenderBuffers, depth_sampler: SamplerId) -> Seq<
    BindGroupEntry,
> {
    let color_part = match buffers.color {
        Some(color) => seq![
            BindGroupEntry { binding: 0, resource: BindingResource::TextureView(color.texture) },
            BindGroupEntry { binding: 1, resource: BindingResource::Sampler(color.sampler) },
        ],
        None => Seq::empty(),
    };
    let depth_part = match buffers.depth {
        Some(depth) => seq![
            BindGroupEntry {
                binding: color_part.len() as u32,
                resource: BindingResource::TextureView(depth.texture),
            },
            BindGroupEntry {
                binding: (color_part.len() + 1) as u32,
                resource: BindingResource::Sampler(depth_sampler),
            },
        ],
        None => Seq::empty(),
    };
    color_part + depth_part
}

/// The compositor's pipeline: no vertex buffers, whole triangles without
/// culling, no depth test, and the fragment overwriting the surface image.
pub open spec fn compositor_pipeline(
    textures: BindGroupLayoutId,
    uniform: BindGroupLayoutId,
    format: TextureFormat,
) -> RenderPipelineView {
    RenderPipelineView {
        layout: seq![textures, uniform],
        shader: ShaderSource::Compositor,
        vertex_entry: EntryPoint::CompositorVsMain,
        fragment_entry: EntryPoint::CompositorFsMain,
        vertex_buffers: Seq::empty(),
        target: ColorTargetState {
            format,
            blend: Some(
                BlendState { color: blend_component_replace(), alpha: blend_component_replace() },
            ),
        },
        primitive: PrimitiveState {
            topology: PrimitiveTopology::TriangleList,
            front_face: FrontFace::Ccw,
            cull_mode: None,
            polygon_mode: PolygonMode::Fill,
        },
        depth_stencil: None,
        multisample: single_sample(),
    }
}

/// The commands of the compositor's pass: its pipeline, the attachments
/// at bind group 0, its uniform block at 1, and one triangle of three
/// vertices that covers the screen.
pub open spec fn compositor_commands(
    pipeline: RenderPipelineId,
    textures: BindGroupId,
    uniform: BindGroupId,
) -> Seq<RenderCommand> {
    seq![
        RenderCommand::SetPipeline { pipeline },
        RenderCommand::SetBindGroup { index: 0, group: textures },
        RenderCommand::SetBindGroup { index: 1, group: uniform },
        RenderCommand::Draw { vertex_count: 3, instance_count: 1 },
    ]
}

/// The compositor. `K` is its uniform block: the camera's depth range and
/// the size of the surface.
pub struct Compositor<K> {
    pub size: PhysicalSize,
    pub uniform: UniformWrapper<K>,
    pub textures_bind_group_layout: BindGroupLayoutId,
    pub textures_bind_group: BindGroupId,
    pub depth_attachment_sampler: SamplerId,
    pub render_pipeline: RenderPipelineId,
}

impl<K> Compositor<K> {
    fn create_textures_bind_group(
        device: &mut Device,
        render_buffers: &RenderBuffers,
        texture_layout: BindGroupLayoutId,
        depth_attachment_sampler: SamplerId,
    ) -> (group: BindGroupId)
        ensures
            group.0 == old(device)@.bind_groups.len(),
            final(device)@ == old(device)@.with_bind_group(
                BindGroupView {
                    layout: texture_layout,
                    entries: compositor_bindings(*render_buffers, depth_attachment_sampler),
                },
            ),
    {
        let mut bind_group_entries: Vec<BindGroupEntry> = Vec::new();
        let mut binding: u32 = 0;
        if let Some(color_attachment) = &render_buffers.color {
            bind_group_entries.push(
                BindGroupEntry {
                    binding,
                    resource: BindingResource::TextureView(color_attachment.texture),
                },
            );
            bind_group_entries.push(
                BindGroupEntry {
                    binding: binding + 1,
                    resource: BindingResource::Sampler(color_attachment.sampler),
                },
            );
            binding = binding + 2;
        }
        if let Some(depth_attachment) = &render_buffers.depth {
            bind_group_entries.push(
                BindGroupEntry {
                    binding,
                    resource: BindingResource::TextureView(depth_attachment.texture),
                },
            );
            bind_group_entries.push(
                BindGroupEntry {
                    binding: binding + 1,
                    resource: BindingResource::Sampler(depth_attachment_sampler),
                },
            );
        }
        assert(bind_group_entries@ =~= compositor_bindings(
            *render_buffers,
            depth_attachment_sampler,
        ));
        device.create_bind_group(
            BindGroupDescriptor { layout: texture_layout, entries: bind_group_entries },
        )
    }

    /// Makes the compositor for the given attachments: its uniform holder,
    /// the layout of the attachment bind group, the sampler for the depth
    /// attachment, the attachment bind group, and its pipeline, which
    /// writes in the format of the surface.
    pub fn new(gpu_state: &mut GpuState, render_buffers: &RenderBuffers) -> (compositor: Self) where
        K: Default,

        ensures
            compositor.size == old(gpu_state).size,
            call_ensures(K::default, (), compositor.uniform.value()),
            compositor.uniform.is_dirty(),
            compositor.uniform.size() as nat == size_of::<K>(),
            compositor.uniform.buffer_id().0 == old(gpu_state).device@.buffers.len(),
            compositor.uniform.layout_id().0 == old(gpu_state).device@.bind_group_layouts.len(),
            compositor.uniform.group_id().0 == old(gpu_state).device@.bind_groups.len(),
            compositor.textures_bind_group_layout.0 == old(
                gpu_state,
            ).device@.bind_group_layouts.len() + 1,
            compositor.textures_bind_group.0 == old(gpu_state).device@.bind_groups.len() + 1,
            compositor.depth_attachment_sampler.0 == old(gpu_state).device@.samplers.len(),
            compositor.render_pipeline.0 == old(gpu_state).device@.render_pipelines.len(),
            final(gpu_state).device@ == device_with_uniform(
                old(gpu_state).device@,
                compositor.uniform.size(),
            ).with_bind_group_layout(compositor_layout()).with_sampler(
                color_sampler(),
            ).with_bind_group(
                BindGroupView {
                    layout: compositor.textures_bind_group_layout,
                    entries: compositor_bindings(
                        *render_buffers,
                        compositor.depth_attachment_sampler,
                    ),
                },
            ).with_render_pipeline(
                compositor_pipeline(
                    compositor.textures_bind_group_layout,
                    compositor.uniform.layout_id(),
                    old(gpu_state).config.format,
                ),
            ),
            final(gpu_state).queue == old(gpu_state).queue,
            final(gpu_state).config == old(gpu_state).config,
            final(gpu_state).size == old(gpu_state).size,
            final(gpu_state).pipeline_vendor == old(gpu_state).pipeline_vendor,
            final(gpu_state).depth_attachment == old(gpu_state).depth_attachment,
            final(gpu_state).color_attachment == old(gpu_state).color_attachment,
    {
        let uniform = UniformWrapper::<K>::new(&mut gpu_state.device);
        let mut layout_entries: Vec<BindGroupLayoutEntry> = Vec::new();
        let mut binding: u32 = 0;
        while binding < 4
            invariant
                binding <= 4,
                binding % 2 == 0,
                layout_entries@ == compositor_layout().take(binding as int),
            decreases 4 - binding,
        {
            layout_entries.push(
                BindGroupLayoutEntry {
                    binding,
                    visibility: ShaderStages { vertex: false, fragment: true },
                    ty: BindingType::Texture { view_dimension: TextureViewDimension::D2 },
                },
            );
            layout_entries.push(
                BindGroupLayoutEntry {
                    binding: binding + 1,
                    visibility: ShaderStages { vertex: false, fragment: true },
                    ty: BindingType::Sampler,
                },
            );
            assert(layout_entries@ =~= compositor_layout().take(binding + 2));
            binding = binding + 2;
        }
        assert(layout_entries@ =~= compositor_layout());
        let textures_bind_group_layout = gpu_state.device.create_bind_group_layout(layout_entries);
        let depth_attachment_sampler = gpu_state.device.create_sampler(
            SamplerDescriptor {
                address_mode: AddressMode::ClampToEdge,
                mag_filter: FilterMode::Linear,
                min_filter: FilterMode::Linear,
                mipmap_filter: FilterMode::Nearest,
                compare: None,
                lod_clamp: None,
            },
        );
        let textures_bind_group = Self::create_textures_bind_group(
            &mut gpu_state.device,
            render_buffers,
            textures_bind_group_layout,
            depth_attachment_sampler,
        );
        let mut layout: Vec<BindGroupLayoutId> = Vec::new();
        layout.push(textures_bind_group_layout);
        layout.push(uniform.layout());
        let replace = BlendComponent {
            src_factor: BlendFactor::One,
            dst_factor: BlendFactor::Zero,
            operation: BlendOperation::Add,
        };
        let desc = RenderPipelineDescriptor {
            layout,
            shader: ShaderSource::Compositor,
            vertex_entry: EntryPoint::CompositorVsMain,
            fragment_entry: EntryPoint::CompositorFsMain,
            vertex_buffers: Vec::new(),
            target: ColorTargetState {
                format: gpu_state.config.format,
                blend: Some(BlendState { color: replace, alpha: replace }),
            },
            primitive: PrimitiveState {
                topology: PrimitiveTopology::TriangleList,
                front_face: FrontFace::Ccw,
                cull_mode: None,
                polygon_mode: PolygonMode::Fill,
            },
            depth_stencil: None,
            multisample: MultisampleState {
                count: 1,
                mask_all: true,
                alpha_to_coverage_enabled: false,
            },
        };
        assert(desc@.layout =~= seq![textures_bind_group_layout, uniform.layout_id()]);
        assert(desc@.vertex_buffers =~= Seq::<VertexBufferLayoutView>::empty());
        assert(desc@ == compositor_pipeline(
            textures_bind_group_layout,
            uniform.layout_id(),
            gpu_state.config.format,
        ));
        let render_pipeline = gpu_state.device.create_render_pipeline(desc);
        Compositor {
            size: gpu_state.size,
            uniform,
            textures_bind_group_layout,
            textures_bind_group,
            depth_attachment_sampler,
            render_pipeline,
        }
    }

    /// Reads what the compositor's uniform block holds of the camera: the
    /// block is worked out from the camera's viewpoint and the size of the
    /// surface, and uploaded by the next update.
    pub fn read_camera_properties<V, C, F: FnOnce(&V, PhysicalSize) -> K>(
        &mut self,
        camera: &Camera<V, C>,
        read: F,
    )
        requires
            call_requires(read, (&camera.view_state(), old(self).size)),
        ensures
            call_ensures(read, (&camera.view_state(), old(self).size), final(self).uniform.value()),
            final(self).uniform == old(self).uniform.with_value(final(self).uniform.value()),
            final(self).size == old(self).size,
            final(self).textures_bind_group_layout == old(self).textures_bind_group_layout,
            final(self).textures_bind_group == old(self).textures_bind_group,
            final(self).depth_attachment_sampler == old(self).depth_attachment_sampler,
            final(self).render_pipeline == old(self).render_pipeline,
    {
        let data = read(camera.view(), self.size);
        proof {
            lemma_change_is_written(self.uniform, data);
        }
        *self.uniform.get_mut() = data;
    }

    /// Takes the new size of the surface and the attachments as they are
    /// now: the attachment bind group is made anew.
    pub fn resize(
        &mut self,
        gpu_state: &mut GpuState,
        render_buffers: &RenderBuffers,
        new_size: PhysicalSize,
    )
        ensures
            final(self).size == new_size,
            final(self).textures_bind_group.0 == old(gpu_state).device@.bind_groups.len(),
            final(gpu_state).device@ == old(gpu_state).device@.with_bind_group(
                BindGroupView {
                    layout: old(self).textures_bind_group_layout,
                    entries: compositor_bindings(
                        *render_buffers,
                        old(self).depth_attachment_sampler,
                    ),
                },
            ),
            final(self).uniform == old(self).uniform,
            final(self).textures_bind_group_layout == old(self).textures_bind_group_layout,
            final(self).depth_attachment_sampler == old(self).depth_attachment_sampler,
            final(self).render_pipeline == old(self).render_pipeline,
            final(gpu_state).queue == old(gpu_state).queue,
            final(gpu_state).config == old(gpu_state).config,
            final(gpu_state).size == old(gpu_state).size,
            final(gpu_state).pipeline_vendor == old(gpu_state).pipeline_vendor,
            final(gpu_state).depth_attachment == old(gpu_state).depth_attachment,
            final(gpu_state).color_attachment == old(gpu_state).color_attachment,
    {
        self.size = new_size;
        self.textures_bind_group = Self::create_textures_bind_group(
            &mut gpu_state.device,
            render_buffers,
            self.textures_bind_group_layout,
            self.depth_attachment_sampler,
        );
    }

    /// The size of the surface the compositor writes to.
    pub fn size(&self) -> (size: PhysicalSize)
        ensures
            size == self.size,
    {
        self.size
    }

    /// Takes an input. The compositor takes none.
    pub fn input(&mut self, _event: Option<&WindowEvent>, _mouse_motion: bool) -> (handled: bool)
        ensures
            !handled,
            *final(self) == *old(self),
    {
        false
    }

    /// Uploads the uniform block if it changed since the last update.
    pub fn update(&mut self, gpu_state: &mut GpuState)
        ensures
            final(gpu_state).queue@ == old(gpu_state).queue@ + old(self).uniform.pending(),
            final(self).uniform == old(self).uniform.with_dirty(false),
            final(self).size == old(self).size,
            final(self).textures_bind_group_layout == old(self).textures_bind_group_layout,
            final(self).textures_bind_group == old(self).textures_bind_group,
            final(self).depth_attachment_sampler == old(self).depth_attachment_sampler,
            final(self).render_pipeline == old(self).render_pipeline,
            final(gpu_state).device == old(gpu_state).device,
            final(gpu_state).config == old(gpu_state).config,
            final(gpu_state).size == old(gpu_state).size,
            final(gpu_state).pipeline_vendor == old(gpu_state).pipeline_vendor,
            final(gpu_state).depth_attachment == old(gpu_state).depth_attachment,
            final(gpu_state).color_attachment == old(gpu_state).color_attachment,
    {
        self.uniform.write(&mut gpu_state.queue);
    }

    /// Records the compositor's pass of one frame and ends it on the
    /// encoder. The pass writes to the surface image, which it does not
    /// clear, and has no depth attachment.
    pub fn render(&self, encoder: &mut CommandEncoder)
        ensures
            final(encoder)@ == old(encoder)@.push(
                RenderPassView {
                    color: Some(
                        ColorAttachment {
                            target: ColorTarget::Surface,
                            load: ColorLoad::Load,
                            store: true,
                        },
                    ),
                    depth: None,
                    commands: compositor_commands(
                        self.render_pipeline,
                        self.textures_bind_group,
                        self.uniform.group_id(),
                    ),
                },
            ),
    {
        let mut render_pass = encoder.begin_render_pass(
            Some(
                ColorAttachment {
                    target: ColorTarget::Surface,
                    load: ColorLoad::Load,
                    store: true,
                },
            ),
            None,
        );
        render_pass.set_pipeline(self.render_pipeline);
        render_pass.set_bind_group(0, self.textures_bind_group);
        render_pass.set_bind_group(1, self.uniform.bind_group());
        render_pass.draw(3, 1);
        assert(render_pass@.commands =~= compositor_commands(
            self.render_pipeline,
            self.textures_bind_group,
            self.uniform.group_id(),
        ));
        encoder.end_render_pass(render_pass);
    }
}

} // verus!
