//! The fixed-function state and shader references that make up a render
//! pipeline, as plain values.

use crate::device::{BindGroupLayoutId, CompareFunction, TextureFormat};
use vstd::prelude::*;

verus! {

/// One factor of a blend equation.
#[derive(Clone, Copy, Debug, PartialEq, Eq, Structural)]
pub enum BlendFactor {
    Zero,
    One,
    OneMinusSrcAlpha,
}

/// How the two weighted terms of a blend equation are combined.
#[derive(Clone, Copy, Debug, PartialEq, Eq, Structural)]
pub enum BlendOperation {
    Add,
}

/// The blend equation of the colour channels or of the alpha channel.
#[derive(Clone, Copy, Debug, PartialEq, Eq, Structural)]
pub struct BlendComponent {
    pub src_factor: BlendFactor,
    pub dst_factor: BlendFactor,
    pub operation: BlendOperation,
}

/// The blend equations of a colour target.
#[derive(Clone, Copy, Debug, PartialEq, Eq, Structural)]
pub struct BlendState {
    pub color: BlendComponent,
    pub alpha: BlendComponent,
}

/// The source overwrites the destination.
pub open spec fn blend_component_replace() -> BlendComponent {
    BlendComponent {
        src_factor: BlendFactor::One,
        dst_factor: BlendFactor::Zero,
        operation: BlendOperation::Add,
    }
}

/// The source is laid over the destination by its alpha.
pub open spec fn blend_component_over() -> BlendComponent {
    BlendComponent {
        src_factor: BlendFactor::One,
        dst_factor: BlendFactor::OneMinusSrcAlpha,
        operation: BlendOperation::Add,
    }
}

/// The source is added to the destination.
pub open spec fn blend_component_additive() -> BlendComponent {
    BlendComponent {
        src_factor: BlendFactor::One,
        dst_factor: BlendFactor::One,
        operation: BlendOperation::Add,
    }
}

/// The shader programs the renderer ships with.
#[derive(Clone, Copy, Debug, PartialEq, Eq, Structural)]
pub enum ShaderSource {
    /// The mesh shader, with one vertex and two fragment entry points.
    Model,
    /// The fullscreen post-processing shader.
    Compositor,
}

/// The entry points of the shader programs.
#[derive(Clone, Copy, Debug, PartialEq, Eq, Structural)]
pub enum EntryPoint {
    VsMain,
    FsMainAmbient,
    FsMainLit,
    CompositorVsMain,
    CompositorFsMain,
}

/// The path of a shader program below the resource directory.
pub open spec fn shader_path(shader: ShaderSource) -> Seq<char> {
    match shader {
        ShaderSource::Model => "shaders/model.wgsl"@,
        ShaderSource::Compositor => "shaders/compositor.wgsl"@,
    }
}

/// The name of an entry point inside its shader program.
pub open spec fn entry_point_name(entry: EntryPoint) -> Seq<char> {
    match entry {
        EntryPoint::VsMain => "vs_main"@,
        EntryPoint::FsMainAmbient => "fs_main_ambient"@,
        EntryPoint::FsMainLit => "fs_main_lit"@,
        EntryPoint::CompositorVsMain => "compositor_vs_main"@,
        EntryPoint::CompositorFsMain => "compositor_fs_main"@,
    }
}

impl ShaderSource {
    /// The path of the program's source below the resource directory.
    pub fn path(&self) -> (path: &'static str)
        ensures
            path@ == shader_path(*self),
    {
        match self {
            ShaderSource::Model => "shaders/model.wgsl",
            ShaderSource::Compositor => "shaders/compositor.wgsl",
        }
    }
}

impl EntryPoint {
    /// The entry point's name as the shader declares it.
    pub fn name(&self) -> (name: &'static str)
        ensures
            name@ == entry_point_name(*self),
    {
        match self {
            EntryPoint::VsMain => "vs_main",
            EntryPoint::FsMainAmbient => "fs_main_ambient",
            EntryPoint::FsMainLit => "fs_main_lit",
            EntryPoint::CompositorVsMain => "compositor_vs_main",
            EntryPoint::CompositorFsMain => "compositor_fs_main",
        }
    }
}

/// The data type of one vertex attribute.
#[derive(Clone, Copy, Debug, PartialEq, Eq, Structural)]
pub enum VertexFormat {
    Float32x2,
    Float32x3,
    Float32x4,
}

/// The number of bytes a vertex attribute of the given format takes.
pub open spec fn vertex_format_size(format: VertexFormat) -> nat {
    match format {
        VertexFormat::Float32x2 => 8,
        VertexFormat::Float32x3 => 12,
        VertexFormat::Float32x4 => 16,
    }
}

impl VertexFormat {
    /// The number of bytes one attribute of this format takes.
    pub fn size(&self) -> (bytes: u64)
        ensures
            bytes == vertex_format_size(*self),
    {
        match self {
            VertexFormat::Float32x2 => 8,
            VertexFormat::Float32x3 => 12,
            VertexFormat::Float32x4 => 16,
        }
    }
}

/// Whether a vertex buffer advances per vertex or per instance.
#[derive(Clone, Copy, Debug, PartialEq, Eq, Structural)]
pub enum VertexStepMode {
    Vertex,
    Instance,
}

/// One attribute inside a vertex buffer.
#[derive(Clone, Copy, Debug, PartialEq, Eq, Structural)]
pub struct VertexAttribute {
    pub format: VertexFormat,
    pub offset: u64,
    pub shader_location: u32,
}

/// The layout of one vertex buffer.
#[derive(Debug)]
pub struct VertexBufferLayout {
    pub array_stride: u64,
    pub step_mode: VertexStepMode,
    pub attributes: Vec<VertexAttribute>,
}

/// A vertex buffer layout as a mathematical value.
pub ghost struct VertexBufferLayoutView {
    pub array_stride: u64,
    pub step_mode: VertexStepMode,
    pub attributes: Seq<VertexAttribute>,
}

impl View for VertexBufferLayout {
    type V = VertexBufferLayoutView;

    open spec fn view(&self) -> VertexBufferLayoutView {
        VertexBufferLayoutView {
            array_stride: self.array_stride,
            step_mode: self.step_mode,
            attributes: self.attributes@,
        }
    }
}

/// How vertices are assembled into primitives.
#[derive(Clone, Copy, Debug, PartialEq, Eq, Structural)]
pub enum PrimitiveTopology {
    TriangleList,
}

/// The winding order of front faces.
#[derive(Clone, Copy, Debug, PartialEq, Eq, Structural)]
pub enum FrontFace {
    Ccw,
    Cw,
}

/// A side of a triangle.
#[derive(Clone, Copy, Debug, PartialEq, Eq, Structural)]
pub enum Face {
    Front,
    Back,
}

/// How polygons are rasterized.
#[derive(Clone, Copy, Debug, PartialEq, Eq, Structural)]
pub enum PolygonMode {
    Fill,
}

/// Primitive assembly and rasterization state. Strips are not used, depth
/// is clipped and rasterization is not conservative.
#[derive(Clone, Copy, Debug, PartialEq, Eq, Structural)]
pub struct PrimitiveState {
    pub topology: PrimitiveTopology,
    pub front_face: FrontFace,
    pub cull_mode: Option<Face>,
    pub polygon_mode: PolygonMode,
}

/// Depth test state. The stencil test is off and there is no depth bias.
#[derive(Clone, Copy, Debug, PartialEq, Eq, Structural)]
pub struct DepthStencilState {
    pub format: TextureFormat,
    pub depth_write_enabled: bool,
    pub depth_compare: CompareFunction,
}

/// Multisampling state. `mask_all` says that every sample is written.
#[derive(Clone, Copy, Debug, PartialEq, Eq, Structural)]
pub struct MultisampleState {
    pub count: u32,
    pub mask_all: bool,
    pub alpha_to_coverage_enabled: bool,
}

/// The colour target of a pipeline. All four channels are written.
#[derive(Clone, Copy, Debug, PartialEq, Eq, Structural)]
pub struct ColorTargetState {
    pub format: TextureFormat,
    pub blend: Option<BlendState>,
}

/// A complete render pipeline: its bind group layouts in set order, its
/// shader program and entry points, its vertex buffers and its fixed state.
/// A pipeline renders to one view.
#[derive(Debug)]
pub struct RenderPipelineDescriptor {
    pub layout: Vec<BindGroupLayoutId>,
    pub shader: ShaderSource,
    pub vertex_entry: EntryPoint,
    pub fragment_entry: EntryPoint,
    pub vertex_buffers: Vec<VertexBufferLayout>,
    pub target: ColorTargetState,
    pub primitive: PrimitiveState,
    pub depth_stencil: Option<DepthStencilState>,
    pub multisample: MultisampleState,
}

/// A render pipeline as a mathematical value.
pub ghost struct RenderPipelineView {
    pub layout: Seq<BindGroupLayoutId>,
    pub shader: ShaderSource,
    pub vertex_entry: EntryPoint,
    pub fragment_entry: EntryPoint,
    pub vertex_buffers: Seq<VertexBufferLayoutView>,
    pub target: ColorTargetState,
    pub primitive: PrimitiveState,
    pub depth_stencil: Option<DepthStencilState>,
    pub multisample: MultisampleState,
}

impl View for RenderPipelineDescriptor {
    type V = RenderPipelineView;

    open spec fn view(&self) -> RenderPipelineView {
        RenderPipelineView {
            layout: self.layout@,
            shader: self.shader,
            vertex_entry: self.vertex_entry,
            fragment_entry: self.fragment_entry,
            vertex_buffers: self.vertex_buffers@.map_values(|l: VertexBufferLayout| l@),
            target: self.target,
            primitive: self.primitive,
            depth_stencil: self.depth_stencil,
            multisample: self.multisample,
        }
    }
}

} // verus!
