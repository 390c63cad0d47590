//! Vertex buffer layouts: attributes packed one after the other, and the
//! two layouts that model pipelines take.

use crate::pipeline_state::{
    vertex_format_size, VertexAttribute, VertexBufferLayout, VertexBufferLayoutView, VertexFormat,
    VertexStepMode,
};
use vstd::prelude::*;

verus! {

/// The number of bytes that the given formats take when packed one after
/// the other.
pub open spec fn packed_size(formats: Seq<VertexFormat>) -> nat
    decreases formats.len(),
{
    if formats.len() == 0 {
        0
    } else {
        packed_size(formats.drop_last()) + vertex_format_size(formats.last())
    }
}

/// Attributes of the given formats packed one after the other: the first
/// at offset 0 and at the given shader location, each further one behind
/// the one before and at the next location.
pub open spec fn packed_attributes(formats: Seq<VertexFormat>, first_location: u32) -> Seq<
    VertexAttribute,
> {
    Seq::new(
        formats.len(),
        |i: int|
            VertexAttribute {
                format: formats[i],
                offset: packed_size(formats.take(i)) as u64,
                shader_location: (first_location + i) as u32,
            },
    )
}

/// The layout of a buffer whose elements hold the given formats packed one
/// after the other.
pub open spec fn packed_layout(
    formats: Seq<VertexFormat>,
    first_location: u32,
    step_mode: VertexStepMode,
) -> VertexBufferLayoutView {
    VertexBufferLayoutView {
        array_stride: packed_size(formats) as u64,
        step_mode,
        attributes: packed_attributes(formats, first_location),
    }
}

/// What a vertex holds: position, texture coordinates, normal, tangent and
/// bitangent.
pub open spec fn vertex_formats() -> Seq<VertexFormat> {
    seq![
        VertexFormat::Float32x3,
        VertexFormat::Float32x2,
        VertexFormat::Float32x3,
        VertexFormat::Float32x3,
        VertexFormat::Float32x3,
    ]
}

/// What an instance holds: the four columns of its model matrix and the
/// three columns of its normal matrix.
pub open spec fn instance_formats() -> Seq<VertexFormat> {
    seq![
        VertexFormat::Float32x4,
        VertexFormat::Float32x4,
        VertexFormat::Float32x4,
        VertexFormat::Float32x4,
        VertexFormat::Float32x3,
        VertexFormat::Float32x3,
        VertexFormat::Float32x3,
    ]
}

/// The two vertex buffers of a model pipeline: vertices at locations 0 to
/// 4, stepping per vertex, and instances at locations 5 to 11, stepping per
/// instance.
pub open spec fn model_vertex_layout() -> Seq<VertexBufferLayoutView> {
    seq![
        packed_layout(vertex_formats(), 0, VertexStepMode::Vertex),
        packed_layout(instance_formats(), 5, VertexStepMode::Instance),
    ]
}

/// A packed size grows by the size of each format added.
pub proof fn lemma_packed_size_push(formats: Seq<VertexFormat>, format: VertexFormat)
    ensures
        packed_size(formats.push(format)) == packed_size(formats) + vertex_format_size(format),
        packed_size(formats) <= 16 * formats.len(),
    decreases formats.len(),
{
    assert(formats.push(format).drop_last() =~= formats);
    if formats.len() > 0 {
        lemma_packed_size_push(formats.drop_last(), formats.last());
        assert(formats.drop_last().push(formats.last()) =~= formats);
    }
}

/// Lays out a buffer whose elements hold the given formats packed one
/// after the other, the first at `first_location`.
pub fn pack_layout(
    formats: &Vec<VertexFormat>,
    first_location: u32,
    step_mode: VertexStepMode,
) -> (layout: VertexBufferLayout)
    requires
        first_location + formats.len() <= u32::MAX,
        16 * formats.len() <= u64::MAX,
    ensures
        layout@ == packed_layout(formats@, first_location, step_mode),
{
    let mut attributes: Vec<VertexAttribute> = Vec::new();
    let mut offset: u64 = 0;
    let mut location: u32 = first_location;
    let mut i: usize = 0;
    while i < formats.len()
        invariant
            i <= formats.len(),
            first_location + formats.len() <= u32::MAX,
            16 * formats.len() <= u64::MAX,
            location == first_location + i,
            offset == packed_size(formats@.take(i as int)),
            attributes@ == packed_attributes(formats@, first_location).take(i as int),
        decreases formats.len() - i,
    {
        let format = formats[i];
        proof {
            lemma_packed_size_push(formats@.take(i as int), format);
            assert(formats@.take(i as int).push(format) =~= formats@.take(i + 1));
        }
        attributes.push(VertexAttribute { format, offset, shader_location: location });
        assert(attributes@ =~= packed_attributes(formats@, first_location).take(i + 1));
        offset = offset + format.size();
        location = location + 1;
        i = i + 1;
    }
    assert(formats@.take(i as int) =~= formats@);
    assert(attributes@ =~= packed_attributes(formats@, first_location));
    VertexBufferLayout { array_stride: offset, step_mode, attributes }
}

/// The layout of the vertex buffer of a mesh.
pub fn vertex_buffer_layout() -> (layout: VertexBufferLayout)
    ensures
        layout@ == packed_layout(vertex_formats(), 0, VertexStepMode::Vertex),
{
    let mut formats: Vec<VertexFormat> = Vec::new();
    formats.push(VertexFormat::Float32x3);
    formats.push(VertexFormat::Float32x2);
    formats.push(VertexFormat::Float32x3);
    formats.push(VertexFormat::Float32x3);
    formats.push(VertexFormat::Float32x3);
    assert(formats@ =~= vertex_formats());
    pack_layout(&formats, 0, VertexStepMode::Vertex)
}

/// The layout of the instance buffer of a model.
pub fn instance_buffer_layout() -> (layout: VertexBufferLayout)
    ensures
        layout@ == packed_layout(instance_formats(), 5, VertexStepMode::Instance),
{
    let mut formats: Vec<VertexFormat> = Vec::new();
    formats.push(VertexFormat::Float32x4);
    formats.push(VertexFormat::Float32x4);
    formats.push(VertexFormat::Float32x4);
    formats.push(VertexFormat::Float32x4);
    formats.push(VertexFormat::Float32x3);
    formats.push(VertexFormat::Float32x3);
    formats.push(VertexFormat::Float32x3);
    assert(formats@ =~= instance_formats());
    pack_layout(&formats, 5, VertexStepMode::Instance)
}

/// The two vertex buffers of a model pipeline: vertices, then instances.
pub fn vertex_layout() -> (layouts: Vec<VertexBufferLayout>)
    ensures
        layouts@.map_values(|l: VertexBufferLayout| l@) == model_vertex_layout(),
{
    let mut layouts: Vec<VertexBufferLayout> = Vec::new();
    layouts.push(vertex_buffer_layout());
    layouts.push(instance_buffer_layout());
    assert(layouts@.map_values(|l: VertexBufferLayout| l@) =~= model_vertex_layout());
    layouts
}

/// The sizes that the packing comes to: a vertex takes 56 bytes, an
/// instance 100, with the model matrix in the first 64 of them.
pub proof fn lemma_model_strides()
    ensures
        packed_size(vertex_formats()) == 56,
        packed_size(instance_formats()) == 100,
        packed_size(instance_formats().take(4)) == 64,
{
    let v = vertex_formats();
    lemma_packed_size_push(v.take(0), v[0]);
    lemma_packed_size_push(v.take(1), v[1]);
    lemma_packed_size_push(v.take(2), v[2]);
    lemma_packed_size_push(v.take(3), v[3]);
    lemma_packed_size_push(v.take(4), v[4]);
    assert(v.take(0).push(v[0]) =~= v.take(1));
    assert(v.take(1).push(v[1]) =~= v.take(2));
    assert(v.take(2).push(v[2]) =~= v.take(3));
    assert(v.take(3).push(v[3]) =~= v.take(4));
    assert(v.take(4).push(v[4]) =~= v);
    let n = instance_formats();
    lemma_packed_size_push(n.take(0), n[0]);
    lemma_packed_size_push(n.take(1), n[1]);
    lemma_packed_size_push(n.take(2), n[2]);
    lemma_packed_size_push(n.take(3), n[3]);
    lemma_packed_size_push(n.take(4), n[4]);
    lemma_packed_size_push(n.take(5), n[5]);
    lemma_packed_size_push(n.take(6), n[6]);
    assert(n.take(0).push(n[0]) =~= n.take(1));
    assert(n.take(1).push(n[1]) =~= n.take(2));
    assert(n.take(2).push(n[2]) =~= n.take(3));
    assert(n.take(3).push(n[3]) =~= n.take(4));
    assert(n.take(4).push(n[4]) =~= n.take(5));
    assert(n.take(5).push(n[5]) =~= n.take(6));
    assert(n.take(6).push(n[6]) =~= n);
}

} // verus!
