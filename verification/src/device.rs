//! The resources a renderer asks its graphics device for, kept as plain
//! descriptions. Every resource is named by its position in the list of its
//! kind, so a backend can create the real objects in the same order.

use crate::pipeline_state::{RenderPipelineDescriptor, RenderPipelineView};
use vstd::prelude::*;

verus! {

/// Names a buffer of a [`Device`].
#[derive(Clone, Copy, Debug, PartialEq, Eq, Structural)]
pub struct BufferId(pub usize);

/// Names a texture, together with its default view.
#[derive(Clone, Copy, Debug, PartialEq, Eq, Structural)]
pub struct TextureId(pub usize);

/// Names a sampler.
#[derive(Clone, Copy, Debug, PartialEq, Eq, Structural)]
pub struct SamplerId(pub usize);

/// Names a bind group layout.
#[derive(Clone, Copy, Debug, PartialEq, Eq, Structural)]
pub struct BindGroupLayoutId(pub usize);

/// Names a bind group.
#[derive(Clone, Copy, Debug, PartialEq, Eq, Structural)]
pub struct BindGroupId(pub usize);

/// Names a render pipeline.
#[derive(Clone, Copy, Debug, PartialEq, Eq, Structural)]
pub struct RenderPipelineId(pub usize);

/// What a buffer may be used for.
#[derive(Clone, Copy, Debug, PartialEq, Eq, Structural)]
pub struct BufferUsages {
    pub uniform: bool,
    pub vertex: bool,
    pub index: bool,
    pub copy_dst: bool,
}

/// A buffer of `size` bytes. Its first contents come from whoever owns it.
#[derive(Clone, Copy, Debug, PartialEq, Eq, Structural)]
pub struct BufferDescriptor {
    pub size: u64,
    pub usage: BufferUsages,
}

/// The pixel formats the renderer uses.
#[derive(Clone, Copy, Debug, PartialEq, Eq, Structural)]
pub enum TextureFormat {
    /// 8-bit BGRA, sRGB encoded: offscreen colour and environment maps.
    Bgra8UnormSrgb,
    /// 8-bit RGBA, sRGB encoded: colour textures.
    Rgba8UnormSrgb,
    /// 8-bit RGBA, linear: normal maps.
    Rgba8Unorm,
    /// 32-bit float depth.
    Depth32Float,
    /// The format the presentation surface reported, by its position in the
    /// surface's list of supported formats.
    Surface(u32),
}

/// How a texture's view is addressed by shaders.
#[derive(Clone, Copy, Debug, PartialEq, Eq, Structural)]
pub enum TextureViewDimension {
    D2,
    Cube,
}

/// What a texture may be used for.
#[derive(Clone, Copy, Debug, PartialEq, Eq, Structural)]
pub struct TextureUsages {
    pub render_attachment: bool,
    pub texture_binding: bool,
    pub copy_dst: bool,
}

/// A two-dimensional texture (or a stack of layers) and its default view.
#[derive(Clone, Copy, Debug, PartialEq, Eq, Structural)]
pub struct TextureDescriptor {
    pub width: u32,
    pub height: u32,
    pub depth_or_array_layers: u32,
    pub mip_level_count: u32,
    pub sample_count: u32,
    pub format: TextureFormat,
    pub usage: TextureUsages,
    pub view_dimension: TextureViewDimension,
}

/// How texture coordinates outside the unit square are treated.
#[derive(Clone, Copy, Debug, PartialEq, Eq, Structural)]
pub enum AddressMode {
    ClampToEdge,
    Repeat,
}

/// How texels are combined when sampling.
#[derive(Clone, Copy, Debug, PartialEq, Eq, Structural)]
pub enum FilterMode {
    Nearest,
    Linear,
}

/// Comparison used by depth tests and comparison samplers.
#[derive(Clone, Copy, Debug, PartialEq, Eq, Structural)]
pub enum CompareFunction {
    Less,
    LessEqual,
}

/// Whole-number bounds on the level of detail a sampler may pick.
#[derive(Clone, Copy, Debug, PartialEq, Eq, Structural)]
pub struct LodClamp {
    pub min: i32,
    pub max: i32,
}

/// A sampler. The one address mode holds for all three axes. `lod_clamp`
/// is set where the sampler narrows the level of detail.
#[derive(Clone, Copy, Debug, PartialEq, Eq, Structural)]
pub struct SamplerDescriptor {
    pub address_mode: AddressMode,
    pub mag_filter: FilterMode,
    pub min_filter: FilterMode,
    pub mipmap_filter: FilterMode,
    pub compare: Option<CompareFunction>,
    pub lod_clamp: Option<LodClamp>,
}

/// Shader stages that can see a binding.
#[derive(Clone, Copy, Debug, PartialEq, Eq, Structural)]
pub struct ShaderStages {
    pub vertex: bool,
    pub fragment: bool,
}

/// The kind of resource a binding slot takes.
#[derive(Clone, Copy, Debug, PartialEq, Eq, Structural)]
pub enum BindingType {
    /// A uniform buffer without dynamic offset.
    UniformBuffer,
    /// A filterable float texture, not multisampled.
    Texture { view_dimension: TextureViewDimension },
    /// A filtering sampler.
    Sampler,
}

/// One slot of a bind group layout.
#[derive(Clone, Copy, Debug, PartialEq, Eq, Structural)]
pub struct BindGroupLayoutEntry {
    pub binding: u32,
    pub visibility: ShaderStages,
    pub ty: BindingType,
}

/// The resource bound to a slot.
#[derive(Clone, Copy, Debug, PartialEq, Eq, Structural)]
pub enum BindingResource {
    /// A whole buffer.
    Buffer(BufferId),
    /// The default view of a texture.
    TextureView(TextureId),
    Sampler(SamplerId),
}

/// One slot of a bind group.
#[derive(Clone, Copy, Debug, PartialEq, Eq, Structural)]
pub struct BindGroupEntry {
    pub binding: u32,
    pub resource: BindingResource,
}

/// A bind group: the layout it follows and the resources in its slots.
#[derive(Debug)]
pub struct BindGroupDescriptor {
    pub layout: BindGroupLayoutId,
    pub entries: Vec<BindGroupEntry>,
}

/// A bind group as a mathematical value.
pub ghost struct BindGroupView {
    pub layout: BindGroupLayoutId,
    pub entries: Seq<BindGroupEntry>,
}

impl View for BindGroupDescriptor {
    type V = BindGroupView;

    open spec fn view(&self) -> BindGroupView {
        BindGroupView { layout: self.layout, entries: self.entries@ }
    }
}

/// Everything a device was asked to create, kind by kind, oldest first.
pub ghost struct DeviceView {
    pub buffers: Seq<BufferDescriptor>,
    pub textures: Seq<TextureDescriptor>,
    pub samplers: Seq<SamplerDescriptor>,
    pub bind_group_layouts: Seq<Seq<BindGroupLayoutEntry>>,
    pub bind_groups: Seq<BindGroupView>,
    pub render_pipelines: Seq<RenderPipelineView>,
}

impl DeviceView {
    /// The device after one more buffer.
    pub open spec fn with_buffer(self, desc: BufferDescriptor) -> DeviceView {
        DeviceView { buffers: self.buffers.push(desc), ..self }
    }

    /// The device after one more texture.
    pub open spec fn with_texture(self, desc: TextureDescriptor) -> DeviceView {
        DeviceView { textures: self.textures.push(desc), ..self }
    }

    /// The device after one more sampler.
    pub open spec fn with_sampler(self, desc: SamplerDescriptor) -> DeviceView {
        DeviceView { samplers: self.samplers.push(desc), ..self }
    }

    /// The device after one more bind group layout.
    pub open spec fn with_bind_group_layout(
        self,
        entries: Seq<BindGroupLayoutEntry>,
    ) -> DeviceView {
        DeviceView { bind_group_layouts: self.bind_group_layouts.push(entries), ..self }
    }

    /// The device after one more bind group.
    pub open spec fn with_bind_group(self, group: BindGroupView) -> DeviceView {
        DeviceView { bind_groups: self.bind_groups.push(group), ..self }
    }

    /// The device after one more render pipeline.
    pub open spec fn with_render_pipeline(self, pipeline: RenderPipelineView) -> DeviceView {
        DeviceView { render_pipelines: self.render_pipelines.push(pipeline), ..self }
    }
}

/// Records the resources a renderer creates. Nothing is ever removed, so an
/// id stays valid for the life of the device.
pub struct Device {
    buffers: Vec<BufferDescriptor>,
    textures: Vec<TextureDescriptor>,
    samplers: Vec<SamplerDescriptor>,
    bind_group_layouts: Vec<Vec<BindGroupLayoutEntry>>,
    bind_groups: Vec<BindGroupDescriptor>,
    render_pipelines: Vec<RenderPipelineDescriptor>,
}

impl View for Device {
    type V = DeviceView;

    closed spec fn view(&self) -> DeviceView {
        DeviceView {
            buffers: self.buffers@,
            textures: self.textures@,
            samplers: self.samplers@,
            bind_group_layouts: self.bind_group_layouts@.map_values(
                |l: Vec<BindGroupLayoutEntry>| l@,
            ),
            bind_groups: self.bind_groups@.map_values(|g: BindGroupDescriptor| g@),
            render_pipelines: self.render_pipelines@.map_values(|p: RenderPipelineDescriptor| p@),
        }
    }
}

impl Device {
    /// A device that has created nothing yet.
    pub fn new() -> (device: Device)
        ensures
            device@.buffers.len() == 0,
            device@.textures.len() == 0,
            device@.samplers.len() == 0,
            device@.bind_group_layouts.len() == 0,
            device@.bind_groups.len() == 0,
            device@.render_pipelines.len() == 0,
    {
        Device {
            buffers: Vec::new(),
            textures: Vec::new(),
            samplers: Vec::new(),
            bind_group_layouts: Vec::new(),
            bind_groups: Vec::new(),
            render_pipelines: Vec::new(),
        }
    }

    /// Creates a buffer and returns its id, the number of buffers before.
    pub fn create_buffer(&mut self, desc: BufferDescriptor) -> (id: BufferId)
        ensures
            id.0 == old(self)@.buffers.len(),
            final(self)@ == old(self)@.with_buffer(desc),
    {
        let id = BufferId(self.buffers.len());
        self.buffers.push(desc);
        assert(self@ =~~= old(self)@.with_buffer(desc));
        id
    }

    /// Creates a texture and returns its id, the number of textures before.
    pub fn create_texture(&mut self, desc: TextureDescriptor) -> (id: TextureId)
        ensures
            id.0 == old(self)@.textures.len(),
            final(self)@ == old(self)@.with_texture(desc),
    {
        let id = TextureId(self.textures.len());
        self.textures.push(desc);
        assert(self@ =~~= old(self)@.with_texture(desc));
        id
    }

    /// Creates a sampler and returns its id, the number of samplers before.
    pub fn create_sampler(&mut self, desc: SamplerDescriptor) -> (id: SamplerId)
        ensures
            id.0 == old(self)@.samplers.len(),
            final(self)@ == old(self)@.with_sampler(desc),
    {
        let id = SamplerId(self.samplers.len());
        self.samplers.push(desc);
        assert(self@ =~~= old(self)@.with_sampler(desc));
        id
    }

    /// Creates a bind group layout and returns its id, the number of
    /// layouts before.
    pub fn create_bind_group_layout(&mut self, entries: Vec<BindGroupLayoutEntry>) -> (id:
        BindGroupLayoutId)
        ensures
            id.0 == old(self)@.bind_group_layouts.len(),
            final(self)@ == old(self)@.with_bind_group_layout(entries@),
    {
        let id = BindGroupLayoutId(self.bind_group_layouts.len());
        self.bind_group_layouts.push(entries);
        assert(self@.bind_group_layouts =~= old(self)@.bind_group_layouts.push(entries@));
        id
    }

    /// Creates a bind group and returns its id, the number of bind groups
    /// before.
    pub fn create_bind_group(&mut self, desc: BindGroupDescriptor) -> (id: BindGroupId)
        ensures
            id.0 == old(self)@.bind_groups.len(),
            final(self)@ == old(self)@.with_bind_group(desc@),
    {
        let id = BindGroupId(self.bind_groups.len());
        let ghost group = desc@;
        self.bind_groups.push(desc);
        assert(self@.bind_groups =~= old(self)@.bind_groups.push(group));
        id
    }

    /// Creates a render pipeline and returns its id, the number of
    /// pipelines before.
    pub fn create_render_pipeline(&mut self, desc: RenderPipelineDescriptor) -> (id:
        RenderPipelineId)
        ensures
            id.0 == old(self)@.render_pipelines.len(),
            final(self)@ == old(self)@.with_render_pipeline(desc@),
    {
        let id = RenderPipelineId(self.render_pipelines.len());
        let ghost pipeline = desc@;
        self.render_pipelines.push(desc);
        assert(self@.render_pipelines =~= old(self)@.render_pipelines.push(pipeline));
        id
    }

    /// The buffers created so far.
    pub fn buffers(&self) -> (list: &Vec<BufferDescriptor>)
        ensures
            list@ == self@.buffers,
    {
        &self.buffers
    }

    /// The textures created so far.
    pub fn textures(&self) -> (list: &Vec<TextureDescriptor>)
        ensures
            list@ == self@.textures,
    {
        &self.textures
    }

    /// The samplers created so far.
    pub fn samplers(&self) -> (list: &Vec<SamplerDescriptor>)
        ensures
            list@ == self@.samplers,
    {
        &self.samplers
    }

    /// The bind group layouts created so far.
    pub fn bind_group_layouts(&self) -> (list: &Vec<Vec<BindGroupLayoutEntry>>)
        ensures
            list@.map_values(|l: Vec<BindGroupLayoutEntry>| l@) == self@.bind_group_layouts,
    {
        &self.bind_group_layouts
    }

    /// The bind groups created so far.
    pub fn bind_groups(&self) -> (list: &Vec<BindGroupDescriptor>)
        ensures
            list@.map_values(|g: BindGroupDescriptor| g@) == self@.bind_groups,
    {
        &self.bind_groups
    }

    /// The render pipelines created so far.
    pub fn render_pipelines(&self) -> (list: &Vec<RenderPipelineDescriptor>)
        ensures
            list@.map_values(|p: RenderPipelineDescriptor| p@) == self@.render_pipelines,
    {
        &self.render_pipelines
    }
}

} // verus!
