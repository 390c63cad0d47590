//! The uniform holder: a value, the buffer that mirrors it on the device,
//! and the flag that says whether the two differ.

use crate::command::{Queue, QueueWrite};
use crate::device::{
    BindGroupDescriptor, BindGroupEntry, BindGroupId, BindGroupLayoutEntry, BindGroupLayoutId,
    BindGroupView, BindingResource, BindingType, BufferDescriptor, BufferId, BufferUsages, Device,
    DeviceView, ShaderStages,
};
use vstd::layout::size_of;
use vstd::prelude::*;

verus! {

/// The layout every uniform holder binds with: one uniform buffer at
/// binding 0, visible to the vertex and the fragment stage.
pub open spec fn uniform_layout() -> Seq<BindGroupLayoutEntry> {
    seq![
        BindGroupLayoutEntry {
            binding: 0,
            visibility: ShaderStages { vertex: true, fragment: true },
            ty: BindingType::UniformBuffer,
        },
    ]
}

/// The usage of a uniform buffer: bound as uniform, written by copies.
pub open spec fn uniform_usage() -> BufferUsages {
    BufferUsages { uniform: true, vertex: false, index: false, copy_dst: true }
}

/// The device after a uniform holder of `size` bytes was created on it: one
/// more buffer, one more layout and one more bind group that puts the
/// buffer at binding 0.
pub open spec fn device_with_uniform(device: DeviceView, size: u64) -> DeviceView {
    device.with_buffer(BufferDescriptor { size, usage: uniform_usage() }).with_bind_group_layout(
        uniform_layout(),
    ).with_bind_group(
        BindGroupView {
            layout: BindGroupLayoutId(device.bind_group_layouts.len() as usize),
            entries: seq![
                BindGroupEntry {
                    binding: 0,
                    resource: BindingResource::Buffer(BufferId(device.buffers.len() as usize)),
                },
            ],
        },
    )
}

/// Creates the layout that every uniform holder binds with.
pub fn uniform_bind_group_layout(device: &mut Device) -> (id: BindGroupLayoutId)
    ensures
        id.0 == old(device)@.bind_group_layouts.len(),
        final(device)@ == old(device)@.with_bind_group_layout(uniform_layout()),
{
    let mut entries: Vec<BindGroupLayoutEntry> = Vec::new();
    entries.push(
        BindGroupLayoutEntry {
            binding: 0,
            visibility: ShaderStages { vertex: true, fragment: true },
            ty: BindingType::UniformBuffer,
        },
    );
    assert(entries@ =~= uniform_layout());
    device.create_bind_group_layout(entries)
}

/// Holds a value of `D` together with a uniform buffer, and remembers
/// whether the value changed since it was last written to the buffer.
pub struct UniformWrapper<D> {
    data: D,
    dirty: bool,
    size: u64,
    buffer: BufferId,
    bind_group_layout: BindGroupLayoutId,
    bind_group: BindGroupId,
}

impl<D> UniformWrapper<D> {
    /// The value held.
    pub closed spec fn value(&self) -> D {
        self.data
    }

    /// Whether the value has to be written to the buffer.
    pub closed spec fn is_dirty(&self) -> bool {
        self.dirty
    }

    /// The size of the buffer in bytes.
    pub closed spec fn size(&self) -> u64 {
        self.size
    }

    /// The buffer that mirrors the value.
    pub closed spec fn buffer_id(&self) -> BufferId {
        self.buffer
    }

    /// The layout of the holder's bind group.
    pub closed spec fn layout_id(&self) -> BindGroupLayoutId {
        self.bind_group_layout
    }

    /// The bind group that binds the buffer.
    pub closed spec fn group_id(&self) -> BindGroupId {
        self.bind_group
    }

    /// The upload that the next [`UniformWrapper::write`] issues: the whole
    /// value at offset 0 if the holder is dirty, nothing otherwise.
    pub open spec fn pending(&self) -> Seq<QueueWrite> {
        if self.is_dirty() {
            seq![QueueWrite::Buffer { buffer: self.buffer_id(), offset: 0, size: self.size() }]
        } else {
            Seq::empty()
        }
    }

    /// The holder with the same value and the given flag.
    pub closed spec fn with_dirty(self, dirty: bool) -> Self {
        UniformWrapper { dirty, ..self }
    }

    /// The holder with the given value, marked dirty.
    pub closed spec fn with_value(self, value: D) -> Self {
        UniformWrapper { data: value, dirty: true, ..self }
    }

    /// Creates the holder with the default value of `D`, a buffer of the
    /// size of `D`, and the layout and bind group for it. The holder starts
    /// dirty, so the first write uploads the value.
    pub fn new(device: &mut Device) -> (holder: Self) where D: Default
        ensures
            call_ensures(D::default, (), holder.value()),
            holder.is_dirty(),
            holder.size() as nat == size_of::<D>(),
            holder.buffer_id().0 == old(device)@.buffers.len(),
            holder.layout_id().0 == old(device)@.bind_group_layouts.len(),
            holder.group_id().0 == old(device)@.bind_groups.len(),
            final(device)@ == device_with_uniform(old(device)@, holder.size()),
    {
        let data = D::default();
        let size = core::mem::size_of::<D>() as u64;
        let buffer = device.create_buffer(
            BufferDescriptor {
                size,
                usage: BufferUsages { uniform: true, vertex: false, index: false, copy_dst: true },
            },
        );
        let bind_group_layout = Self::bind_group_layout(device);
        let mut entries: Vec<BindGroupEntry> = Vec::new();
        entries.push(BindGroupEntry { binding: 0, resource: BindingResource::Buffer(buffer) });
        let bind_group = device.create_bind_group(
            BindGroupDescriptor { layout: bind_group_layout, entries },
        );
        UniformWrapper { data, dirty: true, size, buffer, bind_group_layout, bind_group }
    }

    /// Creates the layout that every uniform holder binds with.
    pub fn bind_group_layout(device: &mut Device) -> (id: BindGroupLayoutId)
        ensures
            id.0 == old(device)@.bind_group_layouts.len(),
            final(device)@ == old(device)@.with_bind_group_layout(uniform_layout()),
    {
        uniform_bind_group_layout(device)
    }

    /// The value held.
    pub fn get(&self) -> (value: &D)
        ensures
            *value == self.value(),
    {
        &self.data
    }

    /// The value held, for changing it. The holder is dirty from now on,
    /// whether or not the caller changes anything.
    pub fn get_mut(&mut self) -> (value: &mut D)
        ensures
            *value == old(self).value(),
            *final(self) == old(self).with_value(*final(value)),
    {
        self.dirty = true;
        &mut self.data
    }

    /// The buffer that mirrors the value.
    pub fn buffer(&self) -> (id: BufferId)
        ensures
            id == self.buffer_id(),
    {
        self.buffer
    }

    /// The layout of the holder's bind group.
    pub fn layout(&self) -> (id: BindGroupLayoutId)
        ensures
            id == self.layout_id(),
    {
        self.bind_group_layout
    }

    /// The bind group that binds the buffer.
    pub fn bind_group(&self) -> (id: BindGroupId)
        ensures
            id == self.group_id(),
    {
        self.bind_group
    }

    /// The size of the buffer in bytes.
    pub fn byte_size(&self) -> (size: u64)
        ensures
            size == self.size(),
    {
        self.size
    }

    /// Whether the next write will upload the value.
    pub fn dirty(&self) -> (dirty: bool)
        ensures
            dirty == self.is_dirty(),
    {
        self.dirty
    }

    /// Writes the value to the buffer if the holder is dirty: the whole
    /// value at offset 0. Afterwards the holder is clean.
    pub fn write(&mut self, queue: &mut Queue)
        ensures
            final(queue)@ == old(queue)@ + old(self).pending(),
            *final(self) == old(self).with_dirty(false),
    {
        if self.dirty {
            queue.write_buffer(self.buffer, 0, self.size);
            self.dirty = false;
        }
        assert(queue@ =~= old(queue)@ + old(self).pending());
    }
}

/// A write leaves the holder clean, and a clean holder issues nothing: of
/// two writes in a row the first uploads once if the holder was dirty, and
/// the second never uploads.
pub proof fn lemma_write_economy<D>(holder: UniformWrapper<D>)
    ensures
        !holder.with_dirty(false).is_dirty(),
        holder.with_dirty(false).pending() == Seq::<QueueWrite>::empty(),
        holder.with_dirty(false).with_dirty(false) == holder.with_dirty(false),
        holder.with_dirty(false).value() == holder.value(),
        holder.with_dirty(false).size() == holder.size(),
        holder.with_dirty(false).buffer_id() == holder.buffer_id(),
        holder.with_dirty(false).layout_id() == holder.layout_id(),
        holder.with_dirty(false).group_id() == holder.group_id(),
        (holder.pending() + holder.with_dirty(false).pending()).len() == (if holder.is_dirty() {
            1nat
        } else {
            0nat
        }),
{
}

/// Taking the value for change makes the holder dirty, so the next write
/// uploads exactly once.
pub proof fn lemma_change_is_written<D>(holder: UniformWrapper<D>, value: D)
    ensures
        holder.with_value(value).is_dirty(),
        holder.with_value(value).value() == value,
        holder.with_value(value).size() == holder.size(),
        holder.with_value(value).buffer_id() == holder.buffer_id(),
        holder.with_value(value).layout_id() == holder.layout_id(),
        holder.with_value(value).group_id() == holder.group_id(),
        holder.with_value(value).pending().len() == 1,
{
}

} // verus!
