//! Materials: the textures and the uniform block that a mesh is shaded
//! with, the bind group that holds them, and the pipelines that draw them.

use crate::block::{
    aligned, block_size, field_offset, fields_end, lemma_fields_end_push, FieldType,
};
use crate::command::{Queue, QueueWrite};
use crate::device::{
    BindGroupDescriptor, BindGroupEntry, BindGroupId, BindGroupLayoutEntry, BindGroupLayoutId,
    BindGroupView, BindingResource, BindingType, BufferDescriptor, BufferId, BufferUsages, Device,
    DeviceView, RenderPipelineId, ShaderStages, TextureId, TextureViewDimension,
};
use crate::gpu_state::GpuState;
use crate::pipeline_state::{EntryPoint, ShaderSource};
use crate::render_pipeline::{
    pass_blend, pass_depth, pipeline_for, Pass, Properties, PropertiesView,
};
use crate::texture::{
    color_format, cubemap_descriptor, cubemap_sampler, depth_format, face_writes,
    image_descriptor, image_sampler, mip_writes, Texture,
};
use crate::util::{uniform_bind_group_layout, uniform_layout, uniform_usage};
use crate::vertex::{model_vertex_layout, vertex_layout};
use vstd::prelude::*;
use vstd::string::StringExecFns;

verus! {

/// The character of a decimal digit.
pub open spec fn digit_char(digit: nat) -> char {
    if digit == 0 {
        '0'
    } else if digit == 1 {
        '1'
    } else if digit == 2 {
        '2'
    } else if digit == 3 {
        '3'
    } else if digit == 4 {
        '4'
    } else if digit == 5 {
        '5'
    } else if digit == 6 {
        '6'
    } else if digit == 7 {
        '7'
    } else if digit == 8 {
        '8'
    } else {
        '9'
    }
}

/// A number written in decimal, without leading zeros.
pub open spec fn decimal(n: nat) -> Seq<char>
    decreases n,
{
    if n < 10 {
        seq![digit_char(n)]
    } else {
        decimal(n / 10).push(digit_char(n % 10))
    }
}

/// The part of a pipeline name that stands for one bound texture: its
/// kind and the binding of its view, in parentheses.
pub open spec fn texture_token(kind: Seq<char>, binding: nat) -> Seq<char> {
    "("@ + kind + "-"@ + decimal(binding) + ")"@
}

/// The part of a pipeline name that says what a material binds: one token
/// for each of its four textures, in binding order. Every material binds
/// all four, so every material has this signature.
pub open spec fn signature() -> Seq<char> {
    texture_token("env-map"@, 1) + texture_token("diffuse"@, 3) + texture_token("normal"@, 5)
        + texture_token("glossiness"@, 7)
}

/// The name under which the pipeline for a pass and a signature is cached.
pub open spec fn pipeline_name(pass: Pass, signature: Seq<char>) -> Seq<char> {
    (match pass {
        Pass::Ambient => "model_ambient_["@,
        Pass::Lit => "model_lit_["@,
    }) + signature + "]"@
}

fn digit_text(digit: u32) -> (text: &'static str)
    requires
        digit < 10,
    ensures
        text@ == seq![digit_char(digit as nat)],
{
    proof {
        reveal_strlit("0");
        reveal_strlit("1");
        reveal_strlit("2");
        reveal_strlit("3");
        reveal_strlit("4");
        reveal_strlit("5");
        reveal_strlit("6");
        reveal_strlit("7");
        reveal_strlit("8");
        reveal_strlit("9");
    }
    let text = if digit == 0 {
        "0"
    } else if digit == 1 {
        "1"
    } else if digit == 2 {
        "2"
    } else if digit == 3 {
        "3"
    } else if digit == 4 {
        "4"
    } else if digit == 5 {
        "5"
    } else if digit == 6 {
        "6"
    } else if digit == 7 {
        "7"
    } else if digit == 8 {
        "8"
    } else {
        "9"
    };
    assert(text@ =~= seq![digit_char(digit as nat)]);
    text
}

/// Appends a number in decimal to a text.
pub fn push_decimal(text: &mut String, n: u32)
    ensures
        final(text)@ == old(text)@ + decimal(n as nat),
    decreases n,
{
    if n >= 10 {
        push_decimal(text, n / 10);
    }
    text.append(digit_text(n % 10));
    assert(text@ =~= old(text)@ + decimal(n as nat));
}

/// Appends the token of one bound texture to a text.
pub fn push_token(text: &mut String, kind: &str, binding: u32)
    ensures
        final(text)@ == old(text)@ + texture_token(kind@, binding as nat),
{
    text.append("(");
    text.append(kind);
    text.append("-");
    push_decimal(text, binding);
    text.append(")");
    assert(text@ =~= old(text)@ + texture_token(kind@, binding as nat));
}

/// Builds the name under which the pipeline for a pass and a signature is
/// cached.
pub fn name_pipeline(pass: Pass, signature: &str) -> (name: String)
    ensures
        name@ == pipeline_name(pass, signature@),
{
    let mut name = String::new();
    match pass {
        Pass::Ambient => name.append("model_ambient_["),
        Pass::Lit => name.append("model_lit_["),
    }
    name.append(signature);
    name.append("]");
    assert(name@ =~= pipeline_name(pass, signature@));
    name
}

/// The size in bytes of a material's uniform block: three colours of four
/// floats, the glossiness padded to four floats, and four texture flags.
pub const MATERIAL_UNIFORM_SIZE: u64 = 80;

/// The fields of the uniform block of a material: the ambient, diffuse
/// and specular colours, of four floats each; the glossiness; and four
/// floats that say, by one or zero, whether the material was given a
/// diffuse, a normal and a glossiness texture, the fourth being zero.
pub open spec fn material_fields() -> Seq<FieldType> {
    seq![FieldType::Vec4, FieldType::Vec4, FieldType::Vec4, FieldType::Float, FieldType::Vec4]
}

/// The fields of the uniform block of a material.
pub fn uniform_fields() -> (fields: Vec<FieldType>)
    ensures
        fields@ == material_fields(),
{
    let mut fields: Vec<FieldType> = Vec::new();
    fields.push(FieldType::Vec4);
    fields.push(FieldType::Vec4);
    fields.push(FieldType::Vec4);
    fields.push(FieldType::Float);
    fields.push(FieldType::Vec4);
    assert(fields@ =~= material_fields());
    fields
}

/// In the uniform block of a material the glossiness is followed by
/// three floats of padding, and the block takes eighty bytes.
pub proof fn lemma_material_block_layout()
    ensures
        field_offset(material_fields(), 0) == 0,
        field_offset(material_fields(), 1) == 16,
        field_offset(material_fields(), 2) == 32,
        field_offset(material_fields(), 3) == 48,
        field_offset(material_fields(), 4) == 64,
        block_size(material_fields()) == MATERIAL_UNIFORM_SIZE,
{
    let f = material_fields();
    assert(fields_end(f.take(0)) == 0);
    lemma_fields_end_push(f.take(0), f[0]);
    assert(f.take(0).push(f[0]) =~= f.take(1));
    assert(aligned(0, 16) == 0);
    assert(fields_end(f.take(1)) == 16);
    lemma_fields_end_push(f.take(1), f[1]);
    assert(f.take(1).push(f[1]) =~= f.take(2));
    assert(aligned(16, 16) == 16);
    assert(fields_end(f.take(2)) == 32);
    lemma_fields_end_push(f.take(2), f[2]);
    assert(f.take(2).push(f[2]) =~= f.take(3));
    assert(aligned(32, 16) == 32);
    assert(fields_end(f.take(3)) == 48);
    lemma_fields_end_push(f.take(3), f[3]);
    assert(f.take(3).push(f[3]) =~= f.take(4));
    assert(48nat % 4nat == 0);
    assert(aligned(48, 4) == 48);
    assert(fields_end(f.take(4)) == 52);
    lemma_fields_end_push(f.take(4), f[4]);
    assert(f.take(4).push(f[4]) =~= f);
    assert(aligned(52, 16) == 64);
    assert(fields_end(f) == 80);
    assert(aligned(80, 16) == 80);
}

/// What a material is made from. A texture that is not given is replaced
/// by a placeholder, the environment map too.
#[derive(Debug)]
pub struct MaterialProperties {
    pub name: String,
    pub environment_map: Option<Texture>,
    pub diffuse_texture: Option<Texture>,
    pub normal_texture: Option<Texture>,
    pub glossiness_texture: Option<Texture>,
}

/// Which of its textures a material was given, as its shader needs to
/// know: where one is missing the shader falls back to a constant.
#[derive(Clone, Copy, Debug, PartialEq, Eq, Structural)]
pub struct TextureFlags {
    pub diffuse: bool,
    pub normal: bool,
    pub glossiness: bool,
}

/// A material: its textures, its uniform buffer, the bind group that puts
/// them before the fragment shader, and the names of its two pipelines.
#[derive(Debug)]
pub struct Material {
    pub name: String,
    pub environment_map: Texture,
    pub diffuse_texture: Texture,
    pub normal_texture: Texture,
    pub glossiness_texture: Texture,
    pub texture_flags: TextureFlags,
    pub material_uniform_buffer: BufferId,
    pub bind_group_layout: BindGroupLayoutId,
    pub bind_group: BindGroupId,
    pub ambient_pipeline_id: String,
    pub lit_pipeline_id: String,
}

/// The textures a material binds, in binding order: environment map,
/// diffuse, normal and glossiness.
pub open spec fn bound_textures(
    environment_map: Texture,
    diffuse: Texture,
    normal: Texture,
    glossiness: Texture,
) -> Seq<Texture> {
    seq![environment_map, diffuse, normal, glossiness]
}

/// Only the fragment stage sees a material.
pub open spec fn fragment_only() -> ShaderStages {
    ShaderStages { vertex: false, fragment: true }
}

/// The layout of a material's bind group: the uniform block at binding 0,
/// then for each texture its view and, at the binding after, its sampler.
pub open spec fn material_layout(textures: Seq<Texture>) -> Seq<BindGroupLayoutEntry> {
    Seq::new(
        1 + 2 * textures.len(),
        |i: int|
            BindGroupLayoutEntry {
                binding: i as u32,
                visibility: fragment_only(),
                ty: if i == 0 {
                    BindingType::UniformBuffer
                } else if i % 2 == 1 {
                    BindingType::Texture { view_dimension: textures[(i - 1) / 2].view_dimension }
                } else {
                    BindingType::Sampler
                },
            },
    )
}

/// What a material's bind group binds, slot for slot as its layout says.
pub open spec fn material_bindings(buffer: BufferId, textures: Seq<Texture>) -> Seq<
    BindGroupEntry,
> {
    Seq::new(
        1 + 2 * textures.len(),
        |i: int|
            BindGroupEntry {
                binding: i as u32,
                resource: if i == 0 {
                    BindingResource::Buffer(buffer)
                } else if i % 2 == 1 {
                    BindingResource::TextureView(textures[(i - 1) / 2].texture)
                } else {
                    BindingResource::Sampler(textures[(i - 1) / 2].sampler)
                },
            },
    )
}

/// A material binds nine slots whatever textures it was given: the
/// uniform block at binding 0, the views of environment map, diffuse,
/// normal and glossiness at 1, 3, 5 and 7, and the sampler of each at the
/// binding after its view, all for the fragment stage only.
pub proof fn lemma_material_binds_nine_slots(buffer: BufferId, textures: Seq<Texture>, i: int)
    requires
        textures.len() == 4,
        0 <= i < 9,
    ensures
        material_layout(textures).len() == 9,
        material_bindings(buffer, textures).len() == 9,
        material_layout(textures)[i].binding == i,
        material_bindings(buffer, textures)[i].binding == i,
        material_layout(textures)[i].visibility == fragment_only(),
        material_layout(textures)[0].ty == BindingType::UniformBuffer,
        material_bindings(buffer, textures)[0].resource == BindingResource::Buffer(buffer),
        forall|k: int|
            0 <= k < 4 ==> {
                &&& (#[trigger] material_layout(textures)[1 + 2 * k]).ty == (BindingType::Texture {
                    view_dimension: textures[k].view_dimension,
                })
                &&& material_layout(textures)[2 + 2 * k].ty == BindingType::Sampler
                &&& material_bindings(buffer, textures)[1 + 2 * k].resource
                    == BindingResource::TextureView(textures[k].texture)
                &&& material_bindings(buffer, textures)[2 + 2 * k].resource
                    == BindingResource::Sampler(textures[k].sampler)
            },
{
}

/// A device and a queue as mathematical values.
pub ghost struct GpuView {
    pub device: DeviceView,
    pub queue: Seq<QueueWrite>,
}

/// The texture used where `given` was asked for: `given` itself if there
/// is one, else the placeholder that the device makes next, a cube map
/// for `cube` and a flat texture else.
pub open spec fn texture_or_next(gpu: GpuView, given: Option<Texture>, cube: bool) -> Texture {
    match given {
        Some(texture) => texture,
        None => Texture::next(
            gpu.device,
            if cube {
                TextureViewDimension::Cube
            } else {
                TextureViewDimension::D2
            },
        ),
    }
}

/// The device and queue after the texture for `given` was settled: as
/// before if there is one, else with a placeholder made and uploaded, a
/// cube map of one texel a face for `cube` and a flat texture of one
/// texel else.
pub open spec fn with_placeholder_for(gpu: GpuView, given: Option<Texture>, cube: bool) -> GpuView {
    match given {
        Some(_) => gpu,
        None => if cube {
            GpuView {
                device: gpu.device.with_texture(cubemap_descriptor(1, 1, 1)).with_sampler(
                    cubemap_sampler(),
                ),
                queue: gpu.queue + face_writes(TextureId(gpu.device.textures.len() as usize), 6),
            }
        } else {
            GpuView {
                device: gpu.device.with_texture(image_descriptor(1, 1, false, 1)).with_sampler(
                    image_sampler(false),
                ),
                queue: gpu.queue + mip_writes(
                    TextureId(gpu.device.textures.len() as usize),
                    1,
                    1,
                    1,
                ),
            }
        },
    }
}

fn texture_or_placeholder(
    device: &mut Device,
    queue: &mut Queue,
    given: Option<Texture>,
    cube: bool,
) -> (used: Texture)
    ensures
        used == texture_or_next(GpuView { device: old(device)@, queue: old(queue)@ }, given, cube),
        (GpuView { device: final(device)@, queue: final(queue)@ }) == with_placeholder_for(
            GpuView { device: old(device)@, queue: old(queue)@ },
            given,
            cube,
        ),
{
    match given {
        Some(texture) => texture,
        None => if cube {
            Texture::new_cube_placeholder(device, queue)
        } else {
            Texture::new_placeholder(device, queue)
        },
    }
}

impl Material {
    /// Whether the material's two pipeline names are those of the
    /// signature.
    pub open spec fn has_pipeline_names(&self) -> bool {
        &&& self.ambient_pipeline_id@ == pipeline_name(Pass::Ambient, signature())
        &&& self.lit_pipeline_id@ == pipeline_name(Pass::Lit, signature())
    }

    /// The textures the material binds, in binding order.
    pub open spec fn textures(&self) -> Seq<Texture> {
        bound_textures(
            self.environment_map,
            self.diffuse_texture,
            self.normal_texture,
            self.glossiness_texture,
        )
    }

    /// Makes a material. Its uniform buffer comes first; then a placeholder
    /// is made and uploaded for each of environment map, diffuse, normal
    /// and glossiness that is not given; then come the layout and the bind
    /// group over the uniform block and the four textures, nine slots
    /// whatever was given.
    pub fn new(device: &mut Device, queue: &mut Queue, properties: MaterialProperties) -> (material:
        Material)
        ensures
            ({
                let start = GpuView {
                    device: old(device)@.with_buffer(
                        BufferDescriptor { size: MATERIAL_UNIFORM_SIZE, usage: uniform_usage() },
                    ),
                    queue: old(queue)@,
                };
                let map_done = with_placeholder_for(start, properties.environment_map, true);
                let diffuse_done = with_placeholder_for(
                    map_done,
                    properties.diffuse_texture,
                    false,
                );
                let normal_done = with_placeholder_for(
                    diffuse_done,
                    properties.normal_texture,
                    false,
                );
                let all_done = with_placeholder_for(
                    normal_done,
                    properties.glossiness_texture,
                    false,
                );
                &&& material.name@ == properties.name@
                &&& material.environment_map == texture_or_next(
                    start,
                    properties.environment_map,
                    true,
                )
                &&& material.diffuse_texture == texture_or_next(
                    map_done,
                    properties.diffuse_texture,
                    false,
                )
                &&& material.normal_texture == texture_or_next(
                    diffuse_done,
                    properties.normal_texture,
                    false,
                )
                &&& material.glossiness_texture == texture_or_next(
                    normal_done,
                    properties.glossiness_texture,
                    false,
                )
                &&& material.texture_flags == (TextureFlags {
                    diffuse: properties.diffuse_texture is Some,
                    normal: properties.normal_texture is Some,
                    glossiness: properties.glossiness_texture is Some,
                })
                &&& material.material_uniform_buffer.0 == old(device)@.buffers.len()
                &&& material.bind_group_layout.0 == old(device)@.bind_group_layouts.len()
                &&& material.bind_group.0 == old(device)@.bind_groups.len()
                &&& final(device)@ == all_done.device.with_bind_group_layout(
                    material_layout(material.textures()),
                ).with_bind_group(
                    BindGroupView {
                        layout: material.bind_group_layout,
                        entries: material_bindings(
                            material.material_uniform_buffer,
                            material.textures(),
                        ),
                    },
                )
                &&& final(queue)@ == all_done.queue
                &&& material.has_pipeline_names()
            }),
    {
        let mut bind_group_layout_entries: Vec<BindGroupLayoutEntry> = Vec::new();
        let mut bind_group_entries: Vec<BindGroupEntry> = Vec::new();
        let mut base_id = String::new();
        let texture_flags = TextureFlags {
            diffuse: properties.diffuse_texture.is_some(),
            normal: properties.normal_texture.is_some(),
            glossiness: properties.glossiness_texture.is_some(),
        };
        let material_uniform_buffer = device.create_buffer(
            BufferDescriptor {
                size: MATERIAL_UNIFORM_SIZE,
                usage: BufferUsages { uniform: true, vertex: false, index: false, copy_dst: true },
            },
        );
        bind_group_layout_entries.push(
            BindGroupLayoutEntry {
                binding: 0,
                visibility: ShaderStages { vertex: false, fragment: true },
                ty: BindingType::UniformBuffer,
            },
        );
        bind_group_entries.push(
            BindGroupEntry {
                binding: 0,
                resource: BindingResource::Buffer(material_uniform_buffer),
            },
        );
        let mut offset: u32 = 1;
        let environment_map = texture_or_placeholder(
            device,
            queue,
            properties.environment_map,
            true,
        );
        push_token(&mut base_id, "env-map", offset);
        offset = offset + Self::create_bind_groups_for(
            &environment_map,
            offset,
            &mut bind_group_layout_entries,
            &mut bind_group_entries,
        );
        let diffuse_texture = texture_or_placeholder(
            device,
            queue,
            properties.diffuse_texture,
            false,
        );
        push_token(&mut base_id, "diffuse", offset);
        offset = offset + Self::create_bind_groups_for(
            &diffuse_texture,
            offset,
            &mut bind_group_layout_entries,
            &mut bind_group_entries,
        );
        let normal_texture = texture_or_placeholder(
            device,
            queue,
            properties.normal_texture,
            false,
        );
        push_token(&mut base_id, "normal", offset);
        offset = offset + Self::create_bind_groups_for(
            &normal_texture,
            offset,
            &mut bind_group_layout_entries,
            &mut bind_group_entries,
        );
        let glossiness_texture = texture_or_placeholder(
            device,
            queue,
            properties.glossiness_texture,
            false,
        );
        push_token(&mut base_id, "glossiness", offset);
        Self::create_bind_groups_for(
            &glossiness_texture,
            offset,
            &mut bind_group_layout_entries,
            &mut bind_group_entries,
        );
        let ghost textures = bound_textures(
            environment_map,
            diffuse_texture,
            normal_texture,
            glossiness_texture,
        );
        assert(bind_group_layout_entries@ =~= material_layout(textures));
        assert(bind_group_entries@ =~= material_bindings(material_uniform_buffer, textures));
        assert(base_id@ =~= signature());
        let bind_group_layout = device.create_bind_group_layout(bind_group_layout_entries);
        let bind_group = device.create_bind_group(
            BindGroupDescriptor { layout: bind_group_layout, entries: bind_group_entries },
        );
        let ambient_pipeline_id = name_pipeline(Pass::Ambient, base_id.as_str());
        let lit_pipeline_id = name_pipeline(Pass::Lit, base_id.as_str());
        Material {
            name: properties.name,
            environment_map,
            diffuse_texture,
            normal_texture,
            glossiness_texture,
            texture_flags,
            material_uniform_buffer,
            bind_group_layout,
            bind_group,
            ambient_pipeline_id,
            lit_pipeline_id,
        }
    }

    /// The name of the material's pipeline for a pass.
    pub fn pipeline_id(&self, pass: &Pass) -> (id: &str)
        ensures
            id@ == (match *pass {
                Pass::Ambient => self.ambient_pipeline_id@,
                Pass::Lit => self.lit_pipeline_id@,
            }),
    {
        match pass {
            Pass::Ambient => self.ambient_pipeline_id.as_str(),
            Pass::Lit => self.lit_pipeline_id.as_str(),
        }
    }

    /// The vertex entry point for a pass: the same for both.
    pub fn vertex_main(&self, _pass: &Pass) -> (entry: EntryPoint)
        ensures
            entry == EntryPoint::VsMain,
    {
        EntryPoint::VsMain
    }

    /// The fragment entry point for a pass.
    pub fn fragment_main(&self, pass: &Pass) -> (entry: EntryPoint)
        ensures
            entry == (match *pass {
                Pass::Ambient => EntryPoint::FsMainAmbient,
                Pass::Lit => EntryPoint::FsMainLit,
            }),
    {
        match pass {
            Pass::Ambient => EntryPoint::FsMainAmbient,
            Pass::Lit => EntryPoint::FsMainLit,
        }
    }

    /// The shader program for a pass: the same for both.
    pub fn shader(&self, _pass: &Pass) -> (shader: ShaderSource)
        ensures
            shader == ShaderSource::Model,
    {
        ShaderSource::Model
    }

    /// Adds the two slots of one texture, its view at `offset` and its
    /// sampler behind it, to a layout and to a bind group in the making.
    /// Returns the number of slots taken.
    fn create_bind_groups_for(
        texture: &Texture,
        offset: u32,
        bind_group_layout_entries: &mut Vec<BindGroupLayoutEntry>,
        bind_group_entries: &mut Vec<BindGroupEntry>,
    ) -> (taken: u32)
        requires
            offset < u32::MAX,
        ensures
            taken == 2,
            final(bind_group_layout_entries)@ == old(bind_group_layout_entries)@.push(
                BindGroupLayoutEntry {
                    binding: offset,
                    visibility: fragment_only(),
                    ty: BindingType::Texture { view_dimension: texture.view_dimension },
                },
            ).push(
                BindGroupLayoutEntry {
                    binding: (offset + 1) as u32,
                    visibility: fragment_only(),
                    ty: BindingType::Sampler,
                },
            ),
            final(bind_group_entries)@ == old(bind_group_entries)@.push(
                BindGroupEntry {
                    binding: offset,
                    resource: BindingResource::TextureView(texture.texture),
                },
            ).push(
                BindGroupEntry {
                    binding: (offset + 1) as u32,
                    resource: BindingResource::Sampler(texture.sampler),
                },
            ),
    {
        bind_group_layout_entries.push(
            BindGroupLayoutEntry {
                binding: offset,
                visibility: ShaderStages { vertex: false, fragment: true },
                ty: BindingType::Texture { view_dimension: texture.view_dimension },
            },
        );
        bind_group_entries.push(
            BindGroupEntry {
                binding: offset,
                resource: BindingResource::TextureView(texture.texture),
            },
        );
        bind_group_layout_entries.push(
            BindGroupLayoutEntry {
                binding: offset + 1,
                visibility: ShaderStages { vertex: false, fragment: true },
                ty: BindingType::Sampler,
            },
        );
        bind_group_entries.push(
            BindGroupEntry {
                binding: offset + 1,
                resource: BindingResource::Sampler(texture.sampler),
            },
        );
        2
    }
}

/// Every material binds the same four kinds of texture, so any two
/// materials have the same pipeline names, pass for pass, and share their
/// pipelines in a cache.
pub proof fn lemma_equal_signatures_share_pipelines(a: Material, b: Material)
    requires
        a.has_pipeline_names(),
        b.has_pipeline_names(),
    ensures
        a.ambient_pipeline_id@ == b.ambient_pipeline_id@,
        a.lit_pipeline_id@ == b.lit_pipeline_id@,
        material_layout(a.textures()).len() == 9,
        material_layout(a.textures()).len() == material_layout(b.textures()).len(),
        forall|i: int|
            0 <= i < 9 ==> (#[trigger] material_layout(a.textures())[i]).binding
                == material_layout(b.textures())[i].binding,
{
}

/// A pipeline cache and the device behind it, as mathematical values.
pub ghost struct Pipelines {
    pub cache: Map<Seq<char>, RenderPipelineId>,
    pub device: DeviceView,
}

impl Material {
    /// The name of the material's pipeline for a pass.
    pub open spec fn pipeline_name(&self, pass: Pass) -> Seq<char> {
        match pass {
            Pass::Ambient => self.ambient_pipeline_id@,
            Pass::Lit => self.lit_pipeline_id@,
        }
    }

    /// What the material's pipeline for a pass is built from, on a device
    /// in the given state: the bind groups are the material's, the
    /// camera's and the light's, in that order, the latter two with fresh
    /// uniform layouts; it renders meshes with instances into the offscreen
    /// colour and depth formats.
    pub open spec fn pipeline_properties(&self, pass: Pass, device: DeviceView) -> PropertiesView {
        PropertiesView {
            vs_main: EntryPoint::VsMain,
            fs_main: match pass {
                Pass::Ambient => EntryPoint::FsMainAmbient,
                Pass::Lit => EntryPoint::FsMainLit,
            },
            layout: seq![
                self.bind_group_layout,
                BindGroupLayoutId(device.bind_group_layouts.len() as usize),
                BindGroupLayoutId((device.bind_group_layouts.len() + 1) as usize),
            ],
            color_format: color_format(),
            depth_format: Some(depth_format()),
            vertex_layouts: model_vertex_layout(),
            shader: ShaderSource::Model,
            pass,
        }
    }

    /// The cache and device after the material's pipeline for one pass was
    /// seen to: unchanged if the cache has the name, else with the pipeline
    /// built and cached.
    pub open spec fn prepared_for(&self, pass: Pass, before: Pipelines) -> Pipelines {
        if before.cache.contains_key(self.pipeline_name(pass)) {
            before
        } else {
            Pipelines {
                cache: before.cache.insert(
                    self.pipeline_name(pass),
                    RenderPipelineId(before.device.render_pipelines.len() as usize),
                ),
                device: before.device.with_bind_group_layout(
                    uniform_layout(),
                ).with_bind_group_layout(uniform_layout()).with_render_pipeline(
                    pipeline_for(self.pipeline_properties(pass, before.device)),
                ),
            }
        }
    }

    /// The cache and device after both of the material's pipelines were
    /// seen to, the ambient one first.
    pub open spec fn prepared(&self, before: Pipelines) -> Pipelines {
        self.prepared_for(Pass::Lit, self.prepared_for(Pass::Ambient, before))
    }

    fn prepare_pipeline(&self, gpu_state: &mut GpuState, pass: Pass)
        ensures
            (Pipelines {
                cache: final(gpu_state).pipeline_vendor@,
                device: final(gpu_state).device@,
            }) == self.prepared_for(
                pass,
                Pipelines {
                    cache: old(gpu_state).pipeline_vendor@,
                    device: old(gpu_state).device@,
                },
            ),
            final(gpu_state).queue == old(gpu_state).queue,
            final(gpu_state).config == old(gpu_state).config,
            final(gpu_state).size == old(gpu_state).size,
            final(gpu_state).depth_attachment == old(gpu_state).depth_attachment,
            final(gpu_state).color_attachment == old(gpu_state).color_attachment,
    {
        if !gpu_state.pipeline_vendor.has_pipeline(self.pipeline_id(&pass)) {
            let mut layout: Vec<BindGroupLayoutId> = Vec::new();
            layout.push(self.bind_group_layout);
            layout.push(uniform_bind_group_layout(&mut gpu_state.device));
            layout.push(uniform_bind_group_layout(&mut gpu_state.device));
            let properties = Properties {
                vs_main: self.vertex_main(&pass),
                fs_main: self.fragment_main(&pass),
                layout,
                color_format: Texture::color_format(),
                depth_format: Some(Texture::depth_format()),
                vertex_layouts: vertex_layout(),
                shader: self.shader(&pass),
                pass,
            };
            assert(properties@.layout =~= self.pipeline_properties(
                pass,
                old(gpu_state).device@,
            ).layout);
            gpu_state.pipeline_vendor.create_render_pipeline(
                self.pipeline_id(&pass),
                &mut gpu_state.device,
                properties,
            );
        }
    }

    /// Sees to it that the cache holds the material's pipelines for both
    /// passes: what is cached stays, what is missing is built.
    pub fn prepare_pipelines(&self, gpu_state: &mut GpuState)
        ensures
            (Pipelines {
                cache: final(gpu_state).pipeline_vendor@,
                device: final(gpu_state).device@,
            }) == self.prepared(
                Pipelines {
                    cache: old(gpu_state).pipeline_vendor@,
                    device: old(gpu_state).device@,
                },
            ),
            final(gpu_state).queue == old(gpu_state).queue,
            final(gpu_state).config == old(gpu_state).config,
            final(gpu_state).size == old(gpu_state).size,
            final(gpu_state).depth_attachment == old(gpu_state).depth_attachment,
            final(gpu_state).color_attachment == old(gpu_state).color_attachment,
    {
        self.prepare_pipeline(gpu_state, Pass::Ambient);
        self.prepare_pipeline(gpu_state, Pass::Lit);
    }
}

/// Preparing a material's pipelines a second time changes nothing: both
/// names are cached by then, so nothing is built and nothing is inserted.
pub proof fn lemma_prepare_is_idempotent(material: Material, before: Pipelines)
    ensures
        material.prepared(material.prepared(before)) == material.prepared(before),
        material.prepared(before).cache.contains_key(material.pipeline_name(Pass::Ambient)),
        material.prepared(before).cache.contains_key(material.pipeline_name(Pass::Lit)),
        forall|name: Seq<char>| #[trigger]
            before.cache.contains_key(name) ==> material.prepared(before).cache[name]
                == before.cache[name],
{
}

/// Whether a pipeline is the one cached for a pass under the name of the
/// signature.
pub open spec fn is_pass_pipeline(
    cache: Map<Seq<char>, RenderPipelineId>,
    pass: Pass,
    pipeline: RenderPipelineId,
) -> bool {
    cache.contains_key(pipeline_name(pass, signature())) && cache[pipeline_name(
        pass,
        signature(),
    )] == pipeline
}

/// A pipeline that preparing a material had to build serves its pass: the
/// one cached under the ambient name writes depth and overwrites colour,
/// the one cached under the lit name only tests depth and adds colour.
pub proof fn lemma_prepared_pipeline_serves_its_pass(
    material: Material,
    before: Pipelines,
    pass: Pass,
)
    requires
        !before.cache.contains_key(material.pipeline_name(pass)),
        material.pipeline_name(Pass::Ambient) != material.pipeline_name(Pass::Lit),
        before.device.render_pipelines.len() + 2 <= usize::MAX,
    ensures
        ({
            let after = material.prepared(before);
            let id = after.cache[material.pipeline_name(pass)];
            &&& after.cache.contains_key(material.pipeline_name(pass))
            &&& before.device.render_pipelines.len() <= id.0 < after.device.render_pipelines.len()
            &&& after.device.render_pipelines[id.0 as int].depth_stencil == Some(
                pass_depth(pass, depth_format()),
            )
            &&& after.device.render_pipelines[id.0 as int].target.blend == Some(pass_blend(pass))
        }),
{
}

} // verus!
