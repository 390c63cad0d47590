//! Texture sizing rules and the textures the renderer creates: offscreen
//! attachments, image textures with their mip chain, cube maps and
//! placeholders.

use crate::command::{Queue, QueueWrite};
use crate::device::{
    AddressMode, CompareFunction, Device, DeviceView, FilterMode, LodClamp, SamplerDescriptor,
    SamplerId, TextureDescriptor, TextureFormat, TextureId, TextureUsages, TextureViewDimension,
};
use crate::gpu_state::SurfaceConfiguration;
use vstd::arithmetic::power2::{is_pow2, lemma_pow2_unfold, pow2};
use vstd::prelude::*;

verus! {

/// The largest power of two that does not exceed `v`; `1` when `v` is zero.
pub fn pot(v: u32) -> (p: u32)
    ensures
        is_pow2(p as int),
        v == 0 ==> p == 1,
        v >= 1 ==> p <= v < 2 * p,
{
    let mut p: u32 = 1;
    proof {
        reveal(is_pow2);
    }
    while p <= v / 2
        invariant
            is_pow2(p as int),
            1 <= p,
            v >= 1 ==> p <= v,
            v == 0 ==> p == 1,
        decreases v - p,
    {
        proof {
            reveal(is_pow2);
            assert(is_pow2(2 * p as int)) by {
                assert((2 * p as int) / 2 == p as int);
                assert((2 * p as int) % 2 == 0);
            }
        }
        p = p * 2;
    }
    p
}

/// The whole part of the binary logarithm of `v`; `0` when `v` is zero.
pub fn log2_floor(v: u32) -> (e: u32)
    ensures
        e < 32,
        v == 0 ==> e == 0,
        v >= 1 ==> pow2(e as nat) <= v < pow2((e + 1) as nat),
{
    let mut p: u32 = 1;
    let mut e: u32 = 0;
    proof {
        vstd::arithmetic::power2::lemma2_to64();
    }
    while p <= v / 2
        invariant
            p == pow2(e as nat),
            e < 32,
            1 <= p,
            v >= 1 ==> p <= v,
            v == 0 ==> e == 0,
            pow2(31) == 0x80000000,
        decreases v - p,
    {
        proof {
            lemma_pow2_unfold((e + 1) as nat);
            if e == 31 {
                assert(false);
            }
        }
        p = p * 2;
        e = e + 1;
    }
    proof {
        lemma_pow2_unfold((e + 1) as nat);
    }
    e
}

/// `size` halved `level` times, rounding down each time.
pub open spec fn halved(size: nat, level: nat) -> nat
    decreases level,
{
    if level == 0 {
        size
    } else {
        halved(size, (level - 1) as nat) / 2
    }
}

/// The size at which an image of the given size is uploaded: unchanged,
/// unless mipmaps are wanted and a side is no power of two. Then each side
/// becomes the largest power of two that fits in it.
pub fn upload_dimensions(width: u32, height: u32, generate_mipmaps: bool) -> (size: (u32, u32))
    ensures
        !generate_mipmaps ==> size == (width, height),
        generate_mipmaps ==> is_pow2(size.0 as int) && is_pow2(size.1 as int),
        generate_mipmaps && width >= 1 ==> size.0 <= width < 2 * size.0,
        generate_mipmaps && height >= 1 ==> size.1 <= height < 2 * size.1,
        generate_mipmaps && width == 0 ==> size.0 == 1,
        generate_mipmaps && height == 0 ==> size.1 == 1,
{
    let pot_dimensions = (pot(width), pot(height));
    if generate_mipmaps && (width != pot_dimensions.0 || height != pot_dimensions.1) {
        pot_dimensions
    } else {
        (width, height)
    }
}

/// The number of mip levels of an image texture: one without mipmaps, else
/// the whole part of the binary logarithm of the shorter side, at least one.
pub open spec fn is_mip_level_count(
    width: u32,
    height: u32,
    generate_mipmaps: bool,
    levels: u32,
) -> bool {
    let shorter = if width <= height {
        width
    } else {
        height
    };
    if !generate_mipmaps || shorter < 2 {
        levels == 1
    } else {
        pow2(levels as nat) <= shorter < pow2((levels + 1) as nat)
    }
}

/// Computes the number of mip levels of an image texture.
pub fn mip_levels(width: u32, height: u32, generate_mipmaps: bool) -> (levels: u32)
    ensures
        1 <= levels < 32,
        is_mip_level_count(width, height, generate_mipmaps, levels),
{
    if generate_mipmaps {
        let shorter = if width <= height {
            width
        } else {
            height
        };
        let e = log2_floor(shorter);
        proof {
            vstd::arithmetic::power2::lemma2_to64();
            if shorter >= 2 && e < 1 {
                lemma_pow2_unfold((e + 1) as nat);
            }
            if shorter == 1 && e >= 1 {
                vstd::arithmetic::power2::lemma_pow2_strictly_increases(0, e as nat);
            }
        }
        if e < 1 {
            1
        } else {
            e
        }
    } else {
        1
    }
}

/// A texture with its default view, the sampler to read it with, and the
/// way shaders address the view.
#[derive(Clone, Copy, Debug, PartialEq, Eq, Structural)]
pub struct Texture {
    pub texture: TextureId,
    pub sampler: SamplerId,
    pub view_dimension: TextureViewDimension,
}

/// The format of offscreen colour attachments.
pub open spec fn color_format() -> TextureFormat {
    TextureFormat::Bgra8UnormSrgb
}

/// The format of offscreen depth attachments.
pub open spec fn depth_format() -> TextureFormat {
    TextureFormat::Depth32Float
}

/// An offscreen attachment of the given format, as large as the surface,
/// that a later pass can sample.
pub open spec fn attachment_descriptor(
    config: SurfaceConfiguration,
    format: TextureFormat,
) -> TextureDescriptor {
    TextureDescriptor {
        width: config.width,
        height: config.height,
        depth_or_array_layers: 1,
        mip_level_count: 1,
        sample_count: 1,
        format,
        usage: TextureUsages { render_attachment: true, texture_binding: true, copy_dst: false },
        view_dimension: TextureViewDimension::D2,
    }
}

/// The sampler of an offscreen attachment: clamped, linear within a level,
/// nearest between levels, with the comparison and the bounds given.
pub open spec fn attachment_sampler(
    compare: Option<CompareFunction>,
    lod_clamp: Option<LodClamp>,
) -> SamplerDescriptor {
    SamplerDescriptor {
        address_mode: AddressMode::ClampToEdge,
        mag_filter: FilterMode::Linear,
        min_filter: FilterMode::Linear,
        mipmap_filter: FilterMode::Nearest,
        compare,
        lod_clamp,
    }
}

/// The sampler of a depth attachment: it compares with less-or-equal and
/// keeps the level of detail within -100 and 100.
pub open spec fn depth_sampler() -> SamplerDescriptor {
    attachment_sampler(
        Some(CompareFunction::LessEqual),
        Some(LodClamp { min: -100i32, max: 100i32 }),
    )
}

/// The sampler of a colour attachment.
pub open spec fn color_sampler() -> SamplerDescriptor {
    attachment_sampler(None, None)
}

/// An image texture of the given size.
pub open spec fn image_descriptor(
    width: u32,
    height: u32,
    is_normal_map: bool,
    levels: u32,
) -> TextureDescriptor {
    TextureDescriptor {
        width,
        height,
        depth_or_array_layers: 1,
        mip_level_count: levels,
        sample_count: 1,
        format: if is_normal_map {
            TextureFormat::Rgba8Unorm
        } else {
            TextureFormat::Rgba8UnormSrgb
        },
        usage: TextureUsages { render_attachment: false, texture_binding: true, copy_dst: true },
        view_dimension: TextureViewDimension::D2,
    }
}

/// The sampler of an image texture: repeating, and linear throughout with
/// mipmaps, nearest throughout without.
pub open spec fn image_sampler(generate_mipmaps: bool) -> SamplerDescriptor {
    let filter = if generate_mipmaps {
        FilterMode::Linear
    } else {
        FilterMode::Nearest
    };
    SamplerDescriptor {
        address_mode: AddressMode::Repeat,
        mag_filter: filter,
        min_filter: filter,
        mipmap_filter: filter,
        compare: None,
        lod_clamp: None,
    }
}

/// The upload of mip level `level` of an image of the given size, which
/// has one layer: four bytes a texel, rows tightly packed.
pub open spec fn mip_write(texture: TextureId, width: u32, height: u32, level: nat) -> QueueWrite {
    QueueWrite::Texture {
        texture,
        layer: 0,
        mip_level: level as u32,
        width: halved(width as nat, level) as u32,
        height: halved(height as nat, level) as u32,
        bytes_per_row: (4 * halved(width as nat, level)) as u32,
        rows_per_image: halved(height as nat, level) as u32,
    }
}

/// The uploads of the first `levels` mip levels, largest first.
pub open spec fn mip_writes(texture: TextureId, width: u32, height: u32, levels: nat) -> Seq<
    QueueWrite,
> {
    Seq::new(levels, |level: int| mip_write(texture, width, height, level as nat))
}

/// The uploads of the first `faces` faces of a cube map of one texel a
/// face, one face a layer.
pub open spec fn face_writes(texture: TextureId, faces: nat) -> Seq<QueueWrite> {
    Seq::new(
        faces,
        |layer: int|
            QueueWrite::Texture {
                texture,
                layer: layer as u32,
                mip_level: 0,
                width: 1,
                height: 1,
                bytes_per_row: 4,
                rows_per_image: 1,
            },
    )
}

/// A cube map of six square-addressed layers with the given mip chain.
pub open spec fn cubemap_descriptor(width: u32, height: u32, levels: u32) -> TextureDescriptor {
    TextureDescriptor {
        width,
        height,
        depth_or_array_layers: 6,
        mip_level_count: levels,
        sample_count: 1,
        format: TextureFormat::Bgra8UnormSrgb,
        usage: TextureUsages { render_attachment: false, texture_binding: true, copy_dst: true },
        view_dimension: TextureViewDimension::Cube,
    }
}

/// The sampler of a cube map: clamped and linear throughout.
pub open spec fn cubemap_sampler() -> SamplerDescriptor {
    SamplerDescriptor {
        address_mode: AddressMode::ClampToEdge,
        mag_filter: FilterMode::Linear,
        min_filter: FilterMode::Linear,
        mipmap_filter: FilterMode::Linear,
        compare: None,
        lod_clamp: None,
    }
}

/// Halving never grows a size.
pub proof fn lemma_halved_bounded(size: nat, level: nat)
    ensures
        halved(size, level) <= size,
    decreases level,
{
    if level > 0 {
        lemma_halved_bounded(size, (level - 1) as nat);
    }
}

/// A size of at least two to the power `e` is still at least two to the
/// power `e - level` after it was halved `level` times.
pub proof fn lemma_halved_keeps_powers(size: nat, e: nat, level: nat)
    requires
        level <= e,
        pow2(e) <= size,
    ensures
        pow2((e - level) as nat) <= halved(size, level),
    decreases level,
{
    if level > 0 {
        lemma_halved_keeps_powers(size, e, (level - 1) as nat);
        lemma_pow2_unfold((e - level + 1) as nat);
    }
}

/// No level of a mip chain is empty: every level of a texture with
/// mipmaps that is at least one texel wide and high is so too.
pub proof fn lemma_mip_levels_are_not_empty(width: u32, height: u32, levels: u32, level: nat)
    requires
        is_mip_level_count(width, height, true, levels),
        width >= 1,
        height >= 1,
        level < levels,
    ensures
        halved(width as nat, level) >= 1,
        halved(height as nat, level) >= 1,
{
    let shorter = if width <= height {
        width
    } else {
        height
    };
    if shorter >= 2 {
        vstd::arithmetic::power2::lemma_pow2_pos((levels - level) as nat);
        lemma_halved_keeps_powers(width as nat, levels as nat, level);
        lemma_halved_keeps_powers(height as nat, levels as nat, level);
    }
}

impl Texture {
    /// The format of offscreen colour attachments.
    pub fn color_format() -> (format: TextureFormat)
        ensures
            format == color_format(),
    {
        TextureFormat::Bgra8UnormSrgb
    }

    /// The format of offscreen depth attachments.
    pub fn depth_format() -> (format: TextureFormat)
        ensures
            format == depth_format(),
    {
        TextureFormat::Depth32Float
    }

    /// The texture that the device makes next, with the sampler that it
    /// makes next.
    pub open spec fn next(device: DeviceView, view_dimension: TextureViewDimension) -> Texture {
        Texture {
            texture: TextureId(device.textures.len() as usize),
            sampler: SamplerId(device.samplers.len() as usize),
            view_dimension,
        }
    }

    fn create(
        device: &mut Device,
        texture: TextureDescriptor,
        sampler: SamplerDescriptor,
    ) -> (made: Texture)
        ensures
            made == Texture::next(old(device)@, texture.view_dimension),
            final(device)@ == old(device)@.with_texture(texture).with_sampler(sampler),
    {
        let view_dimension = texture.view_dimension;
        let texture = device.create_texture(texture);
        let sampler = device.create_sampler(sampler);
        Texture { texture, sampler, view_dimension }
    }

    /// Creates a depth attachment as large as the surface.
    pub fn create_depth_texture(device: &mut Device, config: &SurfaceConfiguration) -> (made:
        Texture)
        ensures
            made == Texture::next(old(device)@, TextureViewDimension::D2),
            final(device)@ == old(device)@.with_texture(
                attachment_descriptor(*config, depth_format()),
            ).with_sampler(depth_sampler()),
    {
        Texture::create(
            device,
            TextureDescriptor {
                width: config.width,
                height: config.height,
                depth_or_array_layers: 1,
                mip_level_count: 1,
                sample_count: 1,
                format: TextureFormat::Depth32Float,
                usage: TextureUsages {
                    render_attachment: true,
                    texture_binding: true,
                    copy_dst: false,
                },
                view_dimension: TextureViewDimension::D2,
            },
            SamplerDescriptor {
                address_mode: AddressMode::ClampToEdge,
                mag_filter: FilterMode::Linear,
                min_filter: FilterMode::Linear,
                mipmap_filter: FilterMode::Nearest,
                compare: Some(CompareFunction::LessEqual),
                lod_clamp: Some(LodClamp { min: -100, max: 100 }),
            },
        )
    }

    /// Creates a colour attachment as large as the surface.
    pub fn create_color_texture(device: &mut Device, config: &SurfaceConfiguration) -> (made:
        Texture)
        ensures
            made == Texture::next(old(device)@, TextureViewDimension::D2),
            final(device)@ == old(device)@.with_texture(
                attachment_descriptor(*config, color_format()),
            ).with_sampler(color_sampler()),
    {
        Texture::create(
            device,
            TextureDescriptor {
                width: config.width,
                height: config.height,
                depth_or_array_layers: 1,
                mip_level_count: 1,
                sample_count: 1,
                format: TextureFormat::Bgra8UnormSrgb,
                usage: TextureUsages {
                    render_attachment: true,
                    texture_binding: true,
                    copy_dst: false,
                },
                view_dimension: TextureViewDimension::D2,
            },
            SamplerDescriptor {
                address_mode: AddressMode::ClampToEdge,
                mag_filter: FilterMode::Linear,
                min_filter: FilterMode::Linear,
                mipmap_filter: FilterMode::Nearest,
                compare: None,
                lod_clamp: None,
            },
        )
    }

    /// Creates the texture for a decoded image of the given size and
    /// uploads its mip chain: level 0 at full size, each further level at
    /// half the size of the one before.
    pub fn from_image(
        device: &mut Device,
        queue: &mut Queue,
        width: u32,
        height: u32,
        is_normal_map: bool,
        generate_mipmaps: bool,
    ) -> (made: Texture)
        requires
            4 * width <= u32::MAX,
        ensures
            made == Texture::next(old(device)@, TextureViewDimension::D2),
            ({
                let levels = final(device)@.textures.last().mip_level_count;
                &&& is_mip_level_count(width, height, generate_mipmaps, levels)
                &&& final(device)@ == old(device)@.with_texture(
                    image_descriptor(width, height, is_normal_map, levels),
                ).with_sampler(image_sampler(generate_mipmaps))
                &&& final(queue)@ == old(queue)@ + mip_writes(
                    made.texture,
                    width,
                    height,
                    levels as nat,
                )
            }),
    {
        let levels = mip_levels(width, height, generate_mipmaps);
        let filter = if generate_mipmaps {
            FilterMode::Linear
        } else {
            FilterMode::Nearest
        };
        let made = Texture::create(
            device,
            TextureDescriptor {
                width,
                height,
                depth_or_array_layers: 1,
                mip_level_count: levels,
                sample_count: 1,
                format: if is_normal_map {
                    TextureFormat::Rgba8Unorm
                } else {
                    TextureFormat::Rgba8UnormSrgb
                },
                usage: TextureUsages {
                    render_attachment: false,
                    texture_binding: true,
                    copy_dst: true,
                },
                view_dimension: TextureViewDimension::D2,
            },
            SamplerDescriptor {
                address_mode: AddressMode::Repeat,
                mag_filter: filter,
                min_filter: filter,
                mipmap_filter: filter,
                compare: None,
                lod_clamp: None,
            },
        );
        let mut mip_width = width;
        let mut mip_height = height;
        let mut level: u32 = 0;
        while level < levels
            invariant
                level <= levels,
                mip_width == halved(width as nat, level as nat),
                mip_height == halved(height as nat, level as nat),
                4 * width <= u32::MAX,
                queue@ == old(queue)@ + mip_writes(made.texture, width, height, level as nat),
            decreases levels - level,
        {
            proof {
                lemma_halved_bounded(width as nat, level as nat);
            }
            queue.write_texture(
                made.texture,
                0,
                level,
                mip_width,
                mip_height,
                4 * mip_width,
                mip_height,
            );
            assert(queue@ =~= old(queue)@ + mip_writes(
                made.texture,
                width,
                height,
                (level + 1) as nat,
            ));
            mip_width = mip_width / 2;
            mip_height = mip_height / 2;
            level = level + 1;
        }
        made
    }

    /// Creates the 1 by 1 texture that stands in for a texture a material
    /// does not have, and uploads its one texel.
    pub fn new_placeholder(device: &mut Device, queue: &mut Queue) -> (made: Texture)
        ensures
            made == Texture::next(old(device)@, TextureViewDimension::D2),
            final(device)@ == old(device)@.with_texture(
                image_descriptor(1, 1, false, 1),
            ).with_sampler(image_sampler(false)),
            final(queue)@ == old(queue)@ + mip_writes(made.texture, 1, 1, 1),
    {
        Texture::from_image(device, queue, 1, 1, false, false)
    }

    /// Creates the cube map of one texel a face that stands in for an
    /// environment map a material does not have, and uploads its six
    /// texels.
    pub fn new_cube_placeholder(device: &mut Device, queue: &mut Queue) -> (made: Texture)
        ensures
            made == Texture::next(old(device)@, TextureViewDimension::Cube),
            final(device)@ == old(device)@.with_texture(cubemap_descriptor(1, 1, 1)).with_sampler(
                cubemap_sampler(),
            ),
            final(queue)@ == old(queue)@ + face_writes(made.texture, 6),
    {
        let made = Texture::cubemap_from_dds(device, 1, 1, 1);
        let mut layer: u32 = 0;
        while layer < 6
            invariant
                layer <= 6,
                queue@ == old(queue)@ + face_writes(made.texture, layer as nat),
            decreases 6 - layer,
        {
            queue.write_texture(made.texture, layer, 0, 1, 1, 4, 1);
            assert(queue@ =~= old(queue)@ + face_writes(made.texture, (layer + 1) as nat));
            layer = layer + 1;
        }
        made
    }

    /// Creates a cube map from the size and mip chain that the header of
    /// its file gives. The texels of all six faces go to the device along
    /// with it.
    pub fn cubemap_from_dds(
        device: &mut Device,
        width: u32,
        height: u32,
        mip_level_count: u32,
    ) -> (made: Texture)
        ensures
            made == Texture::next(old(device)@, TextureViewDimension::Cube),
            final(device)@ == old(device)@.with_texture(
                cubemap_descriptor(width, height, mip_level_count),
            ).with_sampler(cubemap_sampler()),
    {
        Texture::create(
            device,
            TextureDescriptor {
                width,
                height,
                depth_or_array_layers: 6,
                mip_level_count,
                sample_count: 1,
                format: TextureFormat::Bgra8UnormSrgb,
                usage: TextureUsages {
                    render_attachment: false,
                    texture_binding: true,
                    copy_dst: true,
                },
                view_dimension: TextureViewDimension::Cube,
            },
            SamplerDescriptor {
                address_mode: AddressMode::ClampToEdge,
                mag_filter: FilterMode::Linear,
                min_filter: FilterMode::Linear,
                mipmap_filter: FilterMode::Linear,
                compare: None,
                lod_clamp: None,
            },
        )
    }
}

} // verus!
