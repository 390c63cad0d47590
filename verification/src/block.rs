//! How the fields of a uniform block are laid out in its buffer: each
//! field at the next offset that its alignment allows, and the block
//! padded to a whole number of sixteen bytes.

use vstd::arithmetic::div_mod::{lemma_fundamental_div_mod, lemma_mod_multiples_basic};
use vstd::prelude::*;

verus! {

/// The types a field of a uniform block can have.
#[derive(Clone, Copy, Debug, PartialEq, Eq, Structural)]
pub enum FieldType {
    /// One 32-bit float.
    Float,
    /// One 32-bit signed integer.
    Int,
    /// Three floats.
    Vec3,
    /// Four floats.
    Vec4,
    /// Four columns of four floats.
    Mat4,
}

/// The number of bytes a field takes.
pub open spec fn field_size(field: FieldType) -> nat {
    match field {
        FieldType::Float => 4,
        FieldType::Int => 4,
        FieldType::Vec3 => 12,
        FieldType::Vec4 => 16,
        FieldType::Mat4 => 64,
    }
}

/// The number of bytes that the offset of a field is a multiple of.
pub open spec fn field_align(field: FieldType) -> nat {
    match field {
        FieldType::Float => 4,
        FieldType::Int => 4,
        FieldType::Vec3 => 16,
        FieldType::Vec4 => 16,
        FieldType::Mat4 => 16,
    }
}

/// The least multiple of `align` that is not less than `offset`.
pub open spec fn aligned(offset: nat, align: nat) -> nat {
    if offset % align == 0 {
        offset
    } else {
        (offset + align - offset % align) as nat
    }
}

/// Where the fields end: the offset behind the last of them, before the
/// block is padded.
pub open spec fn fields_end(fields: Seq<FieldType>) -> nat
    decreases fields.len(),
{
    if fields.len() == 0 {
        0
    } else {
        aligned(fields_end(fields.drop_last()), field_align(fields.last())) + field_size(
            fields.last(),
        )
    }
}

/// The offset of field `i`: behind the fields before it, at the next
/// multiple of its alignment.
pub open spec fn field_offset(fields: Seq<FieldType>, i: int) -> nat {
    aligned(fields_end(fields.take(i)), field_align(fields[i]))
}

/// The size of the block: where the fields end, padded to a multiple of
/// sixteen bytes.
pub open spec fn block_size(fields: Seq<FieldType>) -> nat {
    aligned(fields_end(fields), 16)
}

impl FieldType {
    /// The number of bytes the field takes.
    pub fn size(&self) -> (bytes: u64)
        ensures
            bytes == field_size(*self),
    {
        match self {
            FieldType::Float => 4,
            FieldType::Int => 4,
            FieldType::Vec3 => 12,
            FieldType::Vec4 => 16,
            FieldType::Mat4 => 64,
        }
    }

    /// The number of bytes that the field's offset is a multiple of.
    pub fn align(&self) -> (bytes: u64)
        ensures
            bytes == field_align(*self),
    {
        match self {
            FieldType::Float => 4,
            FieldType::Int => 4,
            FieldType::Vec3 => 16,
            FieldType::Vec4 => 16,
            FieldType::Mat4 => 16,
        }
    }
}

/// Rounds an offset up to the next multiple of an alignment.
pub fn align_up(offset: u64, align: u64) -> (rounded: u64)
    requires
        align > 0,
        offset + align <= u64::MAX,
    ensures
        rounded == aligned(offset as nat, align as nat),
        rounded % align == 0,
        offset <= rounded < offset + align,
{
    let over = offset % align;
    if over == 0 {
        offset
    } else {
        proof {
            let whole = offset as int / align as int;
            lemma_fundamental_div_mod(offset as int, align as int);
            lemma_mod_multiples_basic(whole + 1, align as int);
            assert(offset + (align - over) == (whole + 1) * align) by (nonlinear_arith)
                requires
                    offset as int == align as int * whole + over as int,
            ;
        }
        offset + (align - over)
    }
}

/// The layout of a uniform block.
#[derive(Debug)]
pub struct BlockLayout {
    /// The offset of each field.
    pub offsets: Vec<u64>,
    /// The size of the whole block.
    pub size: u64,
}

/// The fields of a block end within 80 bytes of each field.
pub proof fn lemma_fields_end_bounded(fields: Seq<FieldType>)
    ensures
        fields_end(fields) <= 80 * fields.len(),
    decreases fields.len(),
{
    if fields.len() > 0 {
        lemma_fields_end_bounded(fields.drop_last());
    }
}

/// One more field comes at the next multiple of its alignment behind the
/// fields before it.
pub proof fn lemma_fields_end_push(fields: Seq<FieldType>, field: FieldType)
    ensures
        fields_end(fields.push(field)) == aligned(fields_end(fields), field_align(field))
            + field_size(field),
        field_offset(fields.push(field), fields.len() as int) == aligned(
            fields_end(fields),
            field_align(field),
        ),
{
    assert(fields.push(field).drop_last() =~= fields);
    assert(fields.push(field).take(fields.len() as int) =~= fields);
}

/// Lays out the fields of a uniform block.
pub fn block_layout(fields: &Vec<FieldType>) -> (layout: BlockLayout)
    requires
        80 * fields.len() + 16 <= u64::MAX,
    ensures
        layout.size == block_size(fields@),
        layout.offsets@.len() == fields@.len(),
        forall|i: int|
            0 <= i < fields@.len() ==> #[trigger] layout.offsets@[i] == field_offset(fields@, i),
{
    let mut offsets: Vec<u64> = Vec::new();
    let mut end: u64 = 0;
    let mut i: usize = 0;
    while i < fields.len()
        invariant
            i <= fields.len(),
            80 * fields.len() + 16 <= u64::MAX,
            end == fields_end(fields@.take(i as int)),
            offsets@.len() == i,
            forall|k: int| 0 <= k < i ==> #[trigger] offsets@[k] == field_offset(fields@, k),
        decreases fields.len() - i,
    {
        proof {
            lemma_fields_end_bounded(fields@.take(i as int));
            assert(fields@.take(i + 1).drop_last() =~= fields@.take(i as int));
        }
        let field = fields[i];
        let offset = align_up(end, field.align());
        offsets.push(offset);
        end = offset + field.size();
        i = i + 1;
    }
    proof {
        assert(fields@.take(i as int) =~= fields@);
        lemma_fields_end_bounded(fields@);
    }
    BlockLayout { offsets, size: align_up(end, 16) }
}

} // verus!
