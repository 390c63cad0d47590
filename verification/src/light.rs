//! Light sources: a kind and a uniform block that the shaders read.

use crate::block::{
    aligned, block_size, field_offset, fields_end, lemma_fields_end_push, FieldType,
};
use crate::command::{Queue, QueueWrite};
use crate::device::{BindGroupId, BindGroupLayoutId, BufferId, Device};
use crate::util::{
    device_with_uniform, lemma_change_is_written, lemma_write_economy, uniform_bind_group_layout,
    uniform_layout, UniformWrapper,
};
use vstd::layout::size_of;
use vstd::prelude::*;
use vstd::std_specs::convert::FromSpecImpl;

verus! {

/// The kinds of light source.
#[derive(Clone, Copy, Debug, PartialEq, Eq, Structural)]
pub enum LightType {
    Ambient,
    Point,
    Spot,
    Directional,
}

/// The number by which shaders know a kind of light.
pub open spec fn light_type_value(light_type: LightType) -> i32 {
    match light_type {
        LightType::Ambient => 0,
        LightType::Point => 1,
        LightType::Spot => 2,
        LightType::Directional => 3,
    }
}

impl LightType {
    /// The number by which shaders know this kind of light.
    pub fn value(&self) -> (value: i32)
        ensures
            value == light_type_value(*self),
    {
        match self {
            LightType::Ambient => 0,
            LightType::Point => 1,
            LightType::Spot => 2,
            LightType::Directional => 3,
        }
    }
}

impl From<LightType> for i32 {
    fn from(light_type: LightType) -> (value: i32) {
        light_type.value()
    }
}

impl FromSpecImpl<LightType> for i32 {
    open spec fn obeys_from_spec() -> bool {
        true
    }

    open spec fn from_spec(light_type: LightType) -> i32 {
        light_type_value(light_type)
    }
}

/// The size in bytes of the uniform block of a light.
pub const LIGHT_UNIFORM_SIZE: u64 = 96;

/// The fields of the uniform block of a light: position, direction,
/// ambient colour and colour, of three floats each; the attenuation, of
/// four floats: constant, linear, exponential, and the cosine of the spot
/// breadth; and the kind.
pub open spec fn light_fields() -> Seq<FieldType> {
    seq![
        FieldType::Vec3,
        FieldType::Vec3,
        FieldType::Vec3,
        FieldType::Vec3,
        FieldType::Vec4,
        FieldType::Int,
    ]
}

/// The fields of the uniform block of a light.
pub fn uniform_fields() -> (fields: Vec<FieldType>)
    ensures
        fields@ == light_fields(),
{
    let mut fields: Vec<FieldType> = Vec::new();
    fields.push(FieldType::Vec3);
    fields.push(FieldType::Vec3);
    fields.push(FieldType::Vec3);
    fields.push(FieldType::Vec3);
    fields.push(FieldType::Vec4);
    fields.push(FieldType::Int);
    assert(fields@ =~= light_fields());
    fields
}

/// In the uniform block of a light every field starts sixteen bytes
/// behind the one before, so each vector of three floats is followed by
/// one float of padding and the kind by three.
pub proof fn lemma_light_block_layout()
    ensures
        field_offset(light_fields(), 0) == 0,
        field_offset(light_fields(), 1) == 16,
        field_offset(light_fields(), 2) == 32,
        field_offset(light_fields(), 3) == 48,
        field_offset(light_fields(), 4) == 64,
        field_offset(light_fields(), 5) == 80,
        block_size(light_fields()) == LIGHT_UNIFORM_SIZE,
{
    let f = light_fields();
    assert(fields_end(f.take(0)) == 0);
    lemma_fields_end_push(f.take(0), f[0]);
    assert(f.take(0).push(f[0]) =~= f.take(1));
    assert(aligned(0, 16) == 0);
    assert(fields_end(f.take(1)) == 12);
    lemma_fields_end_push(f.take(1), f[1]);
    assert(f.take(1).push(f[1]) =~= f.take(2));
    assert(aligned(12, 16) == 16);
    assert(fields_end(f.take(2)) == 28);
    lemma_fields_end_push(f.take(2), f[2]);
    assert(f.take(2).push(f[2]) =~= f.take(3));
    assert(aligned(28, 16) == 32);
    assert(fields_end(f.take(3)) == 44);
    lemma_fields_end_push(f.take(3), f[3]);
    assert(f.take(3).push(f[3]) =~= f.take(4));
    assert(aligned(44, 16) == 48);
    assert(fields_end(f.take(4)) == 60);
    lemma_fields_end_push(f.take(4), f[4]);
    assert(f.take(4).push(f[4]) =~= f.take(5));
    assert(aligned(60, 16) == 64);
    assert(fields_end(f.take(5)) == 80);
    lemma_fields_end_push(f.take(5), f[5]);
    assert(f.take(5).push(f[5]) =~= f);
    assert(aligned(80, 4) == 80);
    assert(fields_end(f) == 84);
    assert(aligned(84, 16) == 96);
}

/// A light source. `L` is its uniform block: position, direction, colours,
/// attenuation and kind, laid out as the shaders expect.
pub struct Light<L> {
    light_type: LightType,
    uniform: UniformWrapper<L>,
}

impl<L> Light<L> {
    /// The kind of the light.
    pub closed spec fn kind(&self) -> LightType {
        self.light_type
    }

    /// The holder of the light's uniform block.
    pub closed spec fn holder(&self) -> UniformWrapper<L> {
        self.uniform
    }

    /// The light after its uniform block was uploaded: the same light,
    /// clean.
    pub closed spec fn flushed(self) -> Self {
        Light { uniform: self.uniform.with_dirty(false), ..self }
    }

    /// The upload that the next update issues.
    pub open spec fn pending(&self) -> Seq<QueueWrite> {
        self.holder().pending()
    }

    /// Makes a light of the given kind whose uniform block is `data`. The
    /// block is uploaded by the first update.
    pub fn new(device: &mut Device, light_type: LightType, data: L) -> (light: Self) where
        L: Default,

        ensures
            light.kind() == light_type,
            light.holder().value() == data,
            light.holder().is_dirty(),
            light.holder().size() as nat == size_of::<L>(),
            light.holder().buffer_id().0 == old(device)@.buffers.len(),
            light.holder().layout_id().0 == old(device)@.bind_group_layouts.len(),
            light.holder().group_id().0 == old(device)@.bind_groups.len(),
            final(device)@ == device_with_uniform(old(device)@, light.holder().size()),
    {
        let mut uniform = UniformWrapper::<L>::new(device);
        proof {
            lemma_change_is_written(uniform, data);
        }
        *uniform.get_mut() = data;
        Light { light_type, uniform }
    }

    /// The kind of the light.
    pub fn light_type(&self) -> (light_type: LightType)
        ensures
            light_type == self.kind(),
    {
        self.light_type
    }

    /// The light's uniform block.
    pub fn data(&self) -> (data: &L)
        ensures
            *data == self.holder().value(),
    {
        self.uniform.get()
    }

    /// The light's uniform block, for changing it. The next update
    /// uploads the block.
    pub fn data_mut(&mut self) -> (data: &mut L)
        ensures
            *data == old(self).holder().value(),
            final(self).kind() == old(self).kind(),
            final(self).holder() == old(self).holder().with_value(*final(data)),
    {
        self.uniform.get_mut()
    }

    /// Uploads the uniform block if it changed since the last update.
    pub fn update(&mut self, queue: &mut Queue)
        ensures
            final(queue)@ == old(queue)@ + old(self).pending(),
            *final(self) == old(self).flushed(),
    {
        self.uniform.write(queue);
    }

    /// Whether the next update will upload the uniform block.
    pub fn is_dirty(&self) -> (dirty: bool)
        ensures
            dirty == self.holder().is_dirty(),
    {
        self.uniform.dirty()
    }

    /// The buffer that holds the uniform block on the device.
    pub fn buffer(&self) -> (buffer: BufferId)
        ensures
            buffer == self.holder().buffer_id(),
    {
        self.uniform.buffer()
    }

    /// The bind group that puts the uniform block before the shaders.
    pub fn bind_group(&self) -> (group: BindGroupId)
        ensures
            group == self.holder().group_id(),
    {
        self.uniform.bind_group()
    }

    /// Creates the layout of a light's bind group.
    pub fn bind_group_layout(device: &mut Device) -> (id: BindGroupLayoutId)
        ensures
            id.0 == old(device)@.bind_group_layouts.len(),
            final(device)@ == old(device)@.with_bind_group_layout(uniform_layout()),
    {
        uniform_bind_group_layout(device)
    }
}

/// An uploaded light is the same light, clean: its next update issues
/// nothing, so of two updates in a row only the first can upload.
pub proof fn lemma_light_flushed<L>(light: Light<L>)
    ensures
        light.flushed().kind() == light.kind(),
        light.flushed().holder() == light.holder().with_dirty(false),
        light.flushed().pending() == Seq::<QueueWrite>::empty(),
        light.flushed().flushed() == light.flushed(),
        light.flushed().holder().group_id() == light.holder().group_id(),
        light.flushed().holder().value() == light.holder().value(),
        light.pending().len() <= 1,
{
    lemma_write_economy(light.holder());
    lemma_write_economy(light.holder().with_dirty(false));
}

} // verus!
