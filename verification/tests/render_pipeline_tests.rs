use forward_renderer::device::{
    BindGroupLayoutId, CompareFunction, Device, RenderPipelineId, TextureFormat,
};
use forward_renderer::vertex::vertex_layout;
use forward_renderer::pipeline_state::{
    BlendComponent, BlendFactor, BlendOperation, BlendState, EntryPoint, Face, FrontFace,
    PolygonMode, PrimitiveTopology, ShaderSource, VertexFormat,
};
use forward_renderer::render_pipeline::{
    describe_pipeline, Pass, Properties, RenderPipelineVendor,
};

fn properties(pass: Pass, depth_format: Option<TextureFormat>) -> Properties {
    Properties {
        vs_main: EntryPoint::VsMain,
        fs_main: match pass {
            Pass::Ambient => EntryPoint::FsMainAmbient,
            Pass::Lit => EntryPoint::FsMainLit,
        },
        layout: vec![BindGroupLayoutId(4), BindGroupLayoutId(5), BindGroupLayoutId(6)],
        color_format: TextureFormat::Bgra8UnormSrgb,
        depth_format,
        vertex_layouts: vertex_layout(),
        shader: ShaderSource::Model,
        pass,
    }
}

const REPLACE: BlendComponent = BlendComponent {
    src_factor: BlendFactor::One,
    dst_factor: BlendFactor::Zero,
    operation: BlendOperation::Add,
};

#[test]
fn ambient_pipeline_writes_depth_and_overwrites() {
    let desc = describe_pipeline(properties(Pass::Ambient, Some(TextureFormat::Depth32Float)));
    let depth = desc.depth_stencil.unwrap();
    assert!(depth.depth_write_enabled);
    assert_eq!(depth.depth_compare, CompareFunction::LessEqual);
    assert_eq!(depth.format, TextureFormat::Depth32Float);
    assert_eq!(
        desc.target.blend,
        Some(BlendState {
            color: REPLACE,
            alpha: REPLACE,
        })
    );
    assert_eq!(desc.target.format, TextureFormat::Bgra8UnormSrgb);
    assert_eq!(desc.fragment_entry, EntryPoint::FsMainAmbient);
    assert_eq!(desc.vertex_entry, EntryPoint::VsMain);
}

#[test]
fn lit_pipeline_tests_depth_and_adds() {
    let desc = describe_pipeline(properties(Pass::Lit, Some(TextureFormat::Depth32Float)));
    let depth = desc.depth_stencil.unwrap();
    assert!(!depth.depth_write_enabled);
    assert_eq!(depth.depth_compare, CompareFunction::LessEqual);
    assert_eq!(
        desc.target.blend,
        Some(BlendState {
            color: BlendComponent {
                src_factor: BlendFactor::One,
                dst_factor: BlendFactor::One,
                operation: BlendOperation::Add,
            },
            alpha: BlendComponent {
                src_factor: BlendFactor::One,
                dst_factor: BlendFactor::OneMinusSrcAlpha,
                operation: BlendOperation::Add,
            },
        })
    );
    assert_eq!(desc.fragment_entry, EntryPoint::FsMainLit);
}

#[test]
fn pipeline_has_fixed_primitive_and_sample_state() {
    let desc = describe_pipeline(properties(Pass::Lit, None));
    assert!(desc.depth_stencil.is_none());
    assert_eq!(desc.primitive.topology, PrimitiveTopology::TriangleList);
    assert_eq!(desc.primitive.front_face, FrontFace::Ccw);
    assert_eq!(desc.primitive.cull_mode, Some(Face::Back));
    assert_eq!(desc.primitive.polygon_mode, PolygonMode::Fill);
    assert_eq!(desc.multisample.count, 1);
    assert!(desc.multisample.mask_all);
    assert!(!desc.multisample.alpha_to_coverage_enabled);
    assert_eq!(
        desc.layout,
        vec![BindGroupLayoutId(4), BindGroupLayoutId(5), BindGroupLayoutId(6)]
    );
    assert_eq!(desc.shader, ShaderSource::Model);
    assert_eq!(desc.vertex_buffers.len(), 2);
    assert_eq!(desc.vertex_buffers[0].attributes[1].format, VertexFormat::Float32x2);
}

#[test]
fn cache_hands_out_what_was_created() {
    let mut device = Device::new();
    let mut vendor = RenderPipelineVendor::new();
    assert!(!vendor.has_pipeline("a"));
    assert_eq!(vendor.get_pipeline("a"), None);
    let a = vendor.create_render_pipeline("a", &mut device, properties(Pass::Ambient, None));
    let b = vendor.create_render_pipeline("b", &mut device, properties(Pass::Lit, None));
    assert_eq!(a, RenderPipelineId(0));
    assert_eq!(b, RenderPipelineId(1));
    assert!(vendor.has_pipeline("a"));
    assert!(vendor.has_pipeline("b"));
    assert!(!vendor.has_pipeline("c"));
    assert!(!vendor.has_pipeline(""));
    assert_eq!(vendor.get_pipeline("a"), Some(a));
    assert_eq!(vendor.get_pipeline("b"), Some(b));
    assert_eq!(device.render_pipelines().len(), 2);
    assert_eq!(device.render_pipelines()[1].fragment_entry, EntryPoint::FsMainLit);
}

#[test]
fn creating_under_a_cached_name_replaces_the_pipeline() {
    let mut device = Device::new();
    let mut vendor = RenderPipelineVendor::default();
    let first = vendor.create_render_pipeline("a", &mut device, properties(Pass::Ambient, None));
    let other = vendor.create_render_pipeline("b", &mut device, properties(Pass::Lit, None));
    let second = vendor.create_render_pipeline("a", &mut device, properties(Pass::Lit, None));
    assert_ne!(first, second);
    assert_eq!(vendor.get_pipeline("a"), Some(second));
    assert_eq!(vendor.get_pipeline("b"), Some(other));
}

#[test]
fn shader_paths_and_entry_points_have_their_names() {
    assert_eq!(ShaderSource::Model.path(), "shaders/model.wgsl");
    assert_eq!(ShaderSource::Compositor.path(), "shaders/compositor.wgsl");
    assert_eq!(EntryPoint::VsMain.name(), "vs_main");
    assert_eq!(EntryPoint::FsMainAmbient.name(), "fs_main_ambient");
    assert_eq!(EntryPoint::FsMainLit.name(), "fs_main_lit");
    assert_eq!(EntryPoint::CompositorVsMain.name(), "compositor_vs_main");
    assert_eq!(EntryPoint::CompositorFsMain.name(), "compositor_fs_main");
}
