//! The camera: a viewpoint, the uniform block derived from it, and the
//! offscreen attachments that the scene is rendered into.

use crate::block::{
    aligned, block_size, field_offset, fields_end, lemma_fields_end_push, FieldType,
};
use crate::command::{Queue, QueueWrite};
use crate::device::{
    BindGroupId, BindGroupLayoutId, BufferId, Device, DeviceView, SamplerId, TextureId,
    TextureViewDimension,
};
use crate::gpu_state::{
    device_with_attachments, GpuState, PhysicalSize, SurfaceConfiguration,
};
use crate::texture::{
    attachment_descriptor, color_format, color_sampler, depth_format, depth_sampler, Texture,
};
use crate::util::{
    device_with_uniform, lemma_change_is_written, lemma_write_economy, uniform_bind_group_layout,
    uniform_layout, UniformWrapper,
};
use vstd::layout::size_of;
use vstd::prelude::*;

verus! {

/// The size in bytes of the uniform block of a camera.
pub const CAMERA_UNIFORM_SIZE: u64 = 80;

/// The fields of the uniform block of a camera: where the camera stands,
/// as four floats, and the matrix that takes the world to clip space.
pub open spec fn camera_fields() -> Seq<FieldType> {
    seq![FieldType::Vec4, FieldType::Mat4]
}

/// The fields of the uniform block of a camera.
pub fn uniform_fields() -> (fields: Vec<FieldType>)
    ensures
        fields@ == camera_fields(),
{
    let mut fields: Vec<FieldType> = Vec::new();
    fields.push(FieldType::Vec4);
    fields.push(FieldType::Mat4);
    assert(fields@ =~= camera_fields());
    fields
}

/// The uniform block of a camera is packed without padding.
pub proof fn lemma_camera_block_layout()
    ensures
        field_offset(camera_fields(), 0) == 0,
        field_offset(camera_fields(), 1) == 16,
        block_size(camera_fields()) == CAMERA_UNIFORM_SIZE,
{
    let f = camera_fields();
    assert(fields_end(f.take(0)) == 0);
    lemma_fields_end_push(f.take(0), f[0]);
    assert(f.take(0).push(f[0]) =~= f.take(1));
    assert(aligned(0, 16) == 0);
    assert(fields_end(f.take(1)) == 16);
    lemma_fields_end_push(f.take(1), f[1]);
    assert(f.take(1).push(f[1]) =~= f);
    assert(aligned(16, 16) == 16);
    assert(fields_end(f) == 80);
    assert(aligned(80, 16) == 80);
}

/// The offscreen attachments of a camera. Either may be missing.
#[derive(Clone, Copy, Debug, PartialEq, Eq, Structural)]
pub struct RenderBuffers {
    pub color: Option<Texture>,
    pub depth: Option<Texture>,
}

/// The device after the attachments that exist were created again at the
/// surface's size: depth first, then colour.
pub open spec fn device_with_buffers_again(
    device: DeviceView,
    config: SurfaceConfiguration,
    buffers: RenderBuffers,
) -> DeviceView {
    let depth_done = if buffers.depth is Some {
        device.with_texture(attachment_descriptor(config, depth_format())).with_sampler(
            depth_sampler(),
        )
    } else {
        device
    };
    if buffers.color is Some {
        depth_done.with_texture(attachment_descriptor(config, color_format())).with_sampler(
            color_sampler(),
        )
    } else {
        depth_done
    }
}

/// The attachments after those that exist were created again on the given
/// device: depth takes the next texture, colour the one after.
pub open spec fn buffers_again(device: DeviceView, buffers: RenderBuffers) -> RenderBuffers {
    let depth_made: nat = if buffers.depth is Some {
        1
    } else {
        0
    };
    RenderBuffers {
        depth: if buffers.depth is Some {
            Some(Texture::next(device, TextureViewDimension::D2))
        } else {
            None
        },
        color: if buffers.color is Some {
            Some(
                Texture {
                    texture: TextureId((device.textures.len() + depth_made) as usize),
                    sampler: SamplerId((device.samplers.len() + depth_made) as usize),
                    view_dimension: TextureViewDimension::D2,
                },
            )
        } else {
            None
        },
    }
}

/// Both attachments as the given device makes them next: depth takes the
/// next texture and sampler, colour the ones after.
pub open spec fn fresh_buffers(device: DeviceView) -> RenderBuffers {
    RenderBuffers {
        depth: Some(Texture::next(device, TextureViewDimension::D2)),
        color: Some(
            Texture {
                texture: TextureId((device.textures.len() + 1) as usize),
                sampler: SamplerId((device.samplers.len() + 1) as usize),
                view_dimension: TextureViewDimension::D2,
            },
        ),
    }
}

/// A camera. `V` is its viewpoint: where it stands, how it is turned and
/// what its lens takes in. `C` is the uniform block that shaders read,
/// which is worked out from the viewpoint and the size of the surface.
pub struct Camera<V, C> {
    view: V,
    size: PhysicalSize,
    is_dirty: bool,
    uniform: UniformWrapper<C>,
    render_buffers: RenderBuffers,
}

impl<V, C> Camera<V, C> {
    /// The viewpoint.
    pub closed spec fn view_state(&self) -> V {
        self.view
    }

    /// The size of the surface that the camera renders for. Its width over
    /// its height is the aspect ratio.
    pub closed spec fn viewport(&self) -> PhysicalSize {
        self.size
    }

    /// Whether the uniform block is out of date.
    pub closed spec fn dirty(&self) -> bool {
        self.is_dirty
    }

    /// The holder of the uniform block.
    pub closed spec fn holder(&self) -> UniformWrapper<C> {
        self.uniform
    }

    /// The offscreen attachments.
    pub closed spec fn buffers(&self) -> RenderBuffers {
        self.render_buffers
    }

    /// The upload that the next update issues: the uniform block if the
    /// camera is dirty, nothing otherwise.
    pub open spec fn pending(&self) -> Seq<QueueWrite> {
        if self.dirty() {
            seq![
                QueueWrite::Buffer {
                    buffer: self.holder().buffer_id(),
                    offset: 0,
                    size: self.holder().size(),
                },
            ]
        } else {
            Seq::empty()
        }
    }

    /// Makes a camera with the given viewpoint for the context's surface:
    /// its uniform holder first, then a depth and a colour attachment as
    /// large as the surface. The camera starts dirty.
    pub fn new(gpu_state: &mut GpuState, view: V) -> (camera: Self) where C: Default
        ensures
            camera.view_state() == view,
            camera.viewport() == old(gpu_state).size,
            camera.dirty(),
            camera.holder().size() as nat == size_of::<C>(),
            camera.holder().buffer_id().0 == old(gpu_state).device@.buffers.len(),
            camera.holder().layout_id().0 == old(gpu_state).device@.bind_group_layouts.len(),
            camera.holder().group_id().0 == old(gpu_state).device@.bind_groups.len(),
            camera.buffers() == fresh_buffers(old(gpu_state).device@),
            final(gpu_state).device@ == device_with_attachments(
                device_with_uniform(old(gpu_state).device@, camera.holder().size()),
                old(gpu_state).config,
            ),
            final(gpu_state).queue == old(gpu_state).queue,
            final(gpu_state).config == old(gpu_state).config,
            final(gpu_state).size == old(gpu_state).size,
            final(gpu_state).pipeline_vendor == old(gpu_state).pipeline_vendor,
            final(gpu_state).depth_attachment == old(gpu_state).depth_attachment,
            final(gpu_state).color_attachment == old(gpu_state).color_attachment,
    {
        let uniform = UniformWrapper::<C>::new(&mut gpu_state.device);
        let depth_attachment = Texture::create_depth_texture(
            &mut gpu_state.device,
            &gpu_state.config,
        );
        let color_attachment = Texture::create_color_texture(
            &mut gpu_state.device,
            &gpu_state.config,
        );
        Camera {
            view,
            size: gpu_state.size,
            is_dirty: true,
            uniform,
            render_buffers: RenderBuffers {
                color: Some(color_attachment),
                depth: Some(depth_attachment),
            },
        }
    }

    /// Brings the uniform block up to date. A dirty camera works the block
    /// out from its viewpoint and the size of the surface, uploads it and
    /// is clean afterwards. A clean camera does nothing.
    pub fn update<F: FnOnce(&V, PhysicalSize) -> C>(&mut self, queue: &mut Queue, project: F)
        requires
            old(self).dirty() ==> call_requires(
                project,
                (&old(self).view_state(), old(self).viewport()),
            ),
        ensures
            final(queue)@ == old(queue)@ + old(self).pending(),
            !final(self).dirty(),
            final(self).view_state() == old(self).view_state(),
            final(self).viewport() == old(self).viewport(),
            final(self).buffers() == old(self).buffers(),
            !old(self).dirty() ==> final(self).holder() == old(self).holder(),
            old(self).dirty() ==> {
                &&& call_ensures(
                    project,
                    (&old(self).view_state(), old(self).viewport()),
                    final(self).holder().value(),
                )
                &&& final(self).holder() == old(self).holder().with_value(
                    final(self).holder().value(),
                ).with_dirty(false)
            },
    {
        if self.is_dirty {
            let data = project(&self.view, self.size);
            proof {
                lemma_change_is_written(self.uniform, data);
                lemma_write_economy(self.uniform.with_value(data));
            }
            *self.uniform.get_mut() = data;
            self.uniform.write(queue);
            self.is_dirty = false;
        }
        assert(queue@ =~= old(queue)@ + old(self).pending());
    }

    /// Takes the new size of the surface, after the context took it: the
    /// attachments that exist are created again from the context's
    /// configuration, and the camera is dirty.
    pub fn resize(&mut self, gpu_state: &mut GpuState, size: PhysicalSize)
        ensures
            final(self).viewport() == size,
            final(self).dirty(),
            final(self).view_state() == old(self).view_state(),
            final(self).holder() == old(self).holder(),
            final(self).buffers() == buffers_again(old(gpu_state).device@, old(self).buffers()),
            final(gpu_state).device@ == device_with_buffers_again(
                old(gpu_state).device@,
                old(gpu_state).config,
                old(self).buffers(),
            ),
            final(gpu_state).queue == old(gpu_state).queue,
            final(gpu_state).config == old(gpu_state).config,
            final(gpu_state).size == old(gpu_state).size,
            final(gpu_state).pipeline_vendor == old(gpu_state).pipeline_vendor,
            final(gpu_state).depth_attachment == old(gpu_state).depth_attachment,
            final(gpu_state).color_attachment == old(gpu_state).color_attachment,
    {
        self.size = size;
        if self.render_buffers.depth.is_some() {
            self.render_buffers.depth = Some(
                Texture::create_depth_texture(&mut gpu_state.device, &gpu_state.config),
            );
        }
        if self.render_buffers.color.is_some() {
            self.render_buffers.color = Some(
                Texture::create_color_texture(&mut gpu_state.device, &gpu_state.config),
            );
        }
        self.is_dirty = true;
    }

    /// The viewpoint.
    pub fn view(&self) -> (view: &V)
        ensures
            *view == self.view_state(),
    {
        &self.view
    }

    /// The viewpoint, for changing it. The camera is dirty from now on.
    pub fn view_mut(&mut self) -> (view: &mut V)
        ensures
            *view == old(self).view_state(),
            final(self).view_state() == *final(view),
            final(self).dirty(),
            final(self).viewport() == old(self).viewport(),
            final(self).holder() == old(self).holder(),
            final(self).buffers() == old(self).buffers(),
    {
        self.is_dirty = true;
        &mut self.view
    }

    /// The size of the surface that the camera renders for.
    pub fn size(&self) -> (size: PhysicalSize)
        ensures
            size == self.viewport(),
    {
        self.size
    }

    /// Whether the next update will upload the uniform block.
    pub fn is_dirty(&self) -> (dirty: bool)
        ensures
            dirty == self.dirty(),
    {
        self.is_dirty
    }

    /// The uniform block as it was last worked out.
    pub fn uniform(&self) -> (data: &C)
        ensures
            *data == self.holder().value(),
    {
        self.uniform.get()
    }

    /// The offscreen attachments.
    pub fn render_buffers(&self) -> (buffers: RenderBuffers)
        ensures
            buffers == self.buffers(),
    {
        self.render_buffers
    }

    /// Replaces the offscreen attachments, for a camera that is to render
    /// without one of them or into attachments made elsewhere.
    pub fn set_render_buffers(&mut self, buffers: RenderBuffers)
        ensures
            final(self).buffers() == buffers,
            final(self).view_state() == old(self).view_state(),
            final(self).viewport() == old(self).viewport(),
            final(self).dirty() == old(self).dirty(),
            final(self).holder() == old(self).holder(),
    {
        self.render_buffers = buffers;
    }

    /// The buffer that holds the uniform block on the device.
    pub fn buffer(&self) -> (buffer: BufferId)
        ensures
            buffer == self.holder().buffer_id(),
    {
        self.uniform.buffer()
    }

    /// The bind group that puts the uniform block before the shaders.
    pub fn bind_group(&self) -> (group: BindGroupId)
        ensures
            group == self.holder().group_id(),
    {
        self.uniform.bind_group()
    }

    /// Creates the layout of a camera's bind group.
    pub fn bind_group_layout(device: &mut Device) -> (id: BindGroupLayoutId)
        ensures
            id.0 == old(device)@.bind_group_layouts.len(),
            final(device)@ == old(device)@.with_bind_group_layout(uniform_layout()),
    {
        uniform_bind_group_layout(device)
    }
}

/// A clean camera uploads nothing, and every update leaves the camera
/// clean: of two updates in a row without a change between them, the
/// second uploads nothing and the first uploads at most once.
pub proof fn lemma_clean_camera_is_idle<V, C>(camera: Camera<V, C>)
    ensures
        !camera.dirty() ==> camera.pending() == Seq::<QueueWrite>::empty(),
        camera.dirty() ==> camera.pending().len() == 1,
{
}

} // verus!
