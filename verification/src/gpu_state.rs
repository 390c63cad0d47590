//! The graphics context: the device, the queue, the configuration of the
//! presentation surface and the pipeline cache.

use crate::command::{Queue, QueueWrite};
use crate::device::{
    Device, DeviceView, RenderPipelineId, SamplerId, TextureFormat, TextureId, TextureUsages,
    TextureViewDimension,
};
use crate::render_pipeline::RenderPipelineVendor;
use crate::texture::{
    attachment_descriptor, color_format, color_sampler, depth_format, depth_sampler, Texture,
};
use vstd::prelude::*;

verus! {

/// A size in physical pixels.
#[derive(Clone, Copy, Debug, PartialEq, Eq, Structural)]
pub struct PhysicalSize {
    pub width: u32,
    pub height: u32,
}

/// When acquired images are shown.
#[derive(Clone, Copy, Debug, PartialEq, Eq, Structural)]
pub enum PresentMode {
    /// Images queue up and are shown one per vertical blank.
    Fifo,
}

/// How the presentation surface is configured.
#[derive(Clone, Copy, Debug, PartialEq, Eq, Structural)]
pub struct SurfaceConfiguration {
    pub usage: TextureUsages,
    pub format: TextureFormat,
    pub width: u32,
    pub height: u32,
    pub present_mode: PresentMode,
}

/// What the images of the surface are used for: as render attachments
/// only.
pub open spec fn surface_usage() -> TextureUsages {
    TextureUsages { render_attachment: true, texture_binding: false, copy_dst: false }
}

/// The device after a depth and a colour attachment of the surface's size
/// were created on it, in that order.
pub open spec fn device_with_attachments(
    device: DeviceView,
    config: SurfaceConfiguration,
) -> DeviceView {
    device.with_texture(attachment_descriptor(config, depth_format())).with_sampler(
        depth_sampler(),
    ).with_texture(attachment_descriptor(config, color_format())).with_sampler(color_sampler())
}

/// The graphics context. It owns the device, the queue, the configuration
/// of the surface, the pipeline cache and a pair of offscreen attachments.
pub struct GpuState {
    pub device: Device,
    pub queue: Queue,
    pub config: SurfaceConfiguration,
    pub size: PhysicalSize,
    pub pipeline_vendor: RenderPipelineVendor,
    pub depth_attachment: Texture,
    pub color_attachment: Texture,
}

impl GpuState {
    /// Whether a surface can have this size: both sides are positive.
    pub open spec fn is_presentable(size: PhysicalSize) -> bool {
        size.width > 0 && size.height > 0
    }

    /// Sets up the context for a surface of the given size that supports
    /// the given number of formats: the first of them is taken, images are
    /// used as render attachments and presented first in, first out, with a
    /// fresh device and queue, an empty pipeline cache, and a depth and a
    /// colour attachment as large as the surface.
    pub fn new(size: PhysicalSize, supported_formats: usize) -> (state: Self)
        requires
            supported_formats > 0,
        ensures
            state.size == size,
            state.config == (SurfaceConfiguration {
                usage: surface_usage(),
                format: TextureFormat::Surface(0),
                width: size.width,
                height: size.height,
                present_mode: PresentMode::Fifo,
            }),
            state.queue@ == Seq::<QueueWrite>::empty(),
            state.pipeline_vendor@ == Map::<Seq<char>, RenderPipelineId>::empty(),
            state.depth_attachment == (Texture {
                texture: TextureId(0),
                sampler: SamplerId(0),
                view_dimension: TextureViewDimension::D2,
            }),
            state.color_attachment == (Texture {
                texture: TextureId(1),
                sampler: SamplerId(1),
                view_dimension: TextureViewDimension::D2,
            }),
            state.device@.textures == seq![
                attachment_descriptor(state.config, depth_format()),
                attachment_descriptor(state.config, color_format()),
            ],
            state.device@.samplers == seq![depth_sampler(), color_sampler()],
            state.device@.buffers.len() == 0,
            state.device@.bind_group_layouts.len() == 0,
            state.device@.bind_groups.len() == 0,
            state.device@.render_pipelines.len() == 0,
    {
        let mut device = Device::new();
        let config = SurfaceConfiguration {
            usage: TextureUsages {
                render_attachment: true,
                texture_binding: false,
                copy_dst: false,
            },
            format: TextureFormat::Surface(0),
            width: size.width,
            height: size.height,
            present_mode: PresentMode::Fifo,
        };
        let depth_attachment = Texture::create_depth_texture(&mut device, &config);
        let color_attachment = Texture::create_color_texture(&mut device, &config);
        assert(device@.textures =~= seq![
            attachment_descriptor(config, depth_format()),
            attachment_descriptor(config, color_format()),
        ]);
        assert(device@.samplers =~= seq![depth_sampler(), color_sampler()]);
        GpuState {
            device,
            queue: Queue::new(),
            config,
            size,
            pipeline_vendor: RenderPipelineVendor::new(),
            depth_attachment,
            color_attachment,
        }
    }

    /// Takes a new surface size. A size with both sides positive is
    /// adopted: the surface has to be configured anew, which the result
    /// says, and the attachments are created again at that size. Any other
    /// size is ignored.
    pub fn resize(&mut self, new_size: PhysicalSize) -> (reconfigure: bool)
        ensures
            reconfigure == Self::is_presentable(new_size),
            !reconfigure ==> *final(self) == *old(self),
            reconfigure ==> {
                &&& final(self).size == new_size
                &&& final(self).config == (SurfaceConfiguration {
                    width: new_size.width,
                    height: new_size.height,
                    ..old(self).config
                })
                &&& final(self).device@ == device_with_attachments(
                    old(self).device@,
                    final(self).config,
                )
                &&& final(self).depth_attachment == Texture::next(
                    old(self).device@,
                    TextureViewDimension::D2,
                )
                &&& final(self).color_attachment == Texture::next(
                    old(self).device@.with_texture(
                        attachment_descriptor(final(self).config, depth_format()),
                    ).with_sampler(depth_sampler()),
                    TextureViewDimension::D2,
                )
                &&& final(self).queue == old(self).queue
                &&& final(self).pipeline_vendor == old(self).pipeline_vendor
            },
    {
        if new_size.width > 0 && new_size.height > 0 {
            self.size = new_size;
            self.config.width = new_size.width;
            self.config.height = new_size.height;
            self.depth_attachment = Texture::create_depth_texture(&mut self.device, &self.config);
            self.color_attachment = Texture::create_color_texture(&mut self.device, &self.config);
            true
        } else {
            false
        }
    }

    /// The size of the surface.
    pub fn size(&self) -> (size: PhysicalSize)
        ensures
            size == self.size,
    {
        self.size
    }
}

} // verus!
