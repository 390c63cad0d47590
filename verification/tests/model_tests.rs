use forward_renderer::camera::Camera;
use forward_renderer::command::{IndexFormat, Queue, QueueWrite, RenderCommand, RenderPass};
use forward_renderer::device::{
    BindGroupEntry, BindGroupId, BindGroupLayoutEntry, BindGroupLayoutId, BindingResource,
    BindingType, BufferDescriptor, BufferId, BufferUsages, Device, RenderPipelineId, SamplerId,
    ShaderStages, TextureFormat, TextureId, TextureViewDimension,
};
use forward_renderer::gpu_state::{GpuState, PhysicalSize};
use forward_renderer::light::{Light, LightType};
use forward_renderer::material::{
    name_pipeline, push_decimal, push_token, Material, MaterialProperties, TextureFlags,
    MATERIAL_UNIFORM_SIZE,
};
use forward_renderer::model::{draw_model, Mesh, Model, INSTANCE_STRIDE};
use forward_renderer::vertex::{
    instance_buffer_layout, pack_layout, vertex_buffer_layout, vertex_layout,
};
use forward_renderer::pipeline_state::{
    EntryPoint, ShaderSource, VertexAttribute, VertexFormat, VertexStepMode,
};
use forward_renderer::render_pipeline::Pass;
use forward_renderer::texture::Texture;
use std::collections::HashMap;

type Instance = [f32; 7];

fn gpu() -> GpuState {
    GpuState::new(PhysicalSize { width: 800, height: 600 }, 1)
}

fn plain(name: &str) -> MaterialProperties {
    MaterialProperties {
        name: name.to_string(),
        environment_map: None,
        diffuse_texture: None,
        normal_texture: None,
        glossiness_texture: None,
    }
}

fn buffer(device: &mut Device, size: u64, vertex: bool) -> BufferId {
    device.create_buffer(BufferDescriptor {
        size,
        usage: BufferUsages {
            uniform: false,
            vertex,
            index: !vertex,
            copy_dst: false,
        },
    })
}

fn mesh(device: &mut Device, name: &str, num_elements: u32, material: usize) -> Mesh {
    Mesh {
        name: name.to_string(),
        vertex_buffer: buffer(device, 56 * 24, true),
        index_buffer: buffer(device, 4 * num_elements as u64, false),
        num_elements,
        material,
    }
}

fn instance(x: f32) -> Instance {
    [x, 0.0, 0.0, 0.0, 0.0, 0.0, 1.0]
}

#[test]
fn vertex_layout_packs_fourteen_floats() {
    let layout = vertex_buffer_layout();
    assert_eq!(layout.array_stride, 56);
    assert_eq!(layout.step_mode, VertexStepMode::Vertex);
    let expected = vec![
        VertexAttribute {
            format: VertexFormat::Float32x3,
            offset: 0,
            shader_location: 0,
        },
        VertexAttribute {
            format: VertexFormat::Float32x2,
            offset: 12,
            shader_location: 1,
        },
        VertexAttribute {
            format: VertexFormat::Float32x3,
            offset: 20,
            shader_location: 2,
        },
        VertexAttribute {
            format: VertexFormat::Float32x3,
            offset: 32,
            shader_location: 3,
        },
        VertexAttribute {
            format: VertexFormat::Float32x3,
            offset: 44,
            shader_location: 4,
        },
    ];
    assert_eq!(layout.attributes, expected);
}

#[test]
fn instance_layout_packs_two_matrices() {
    let layout = instance_buffer_layout();
    assert_eq!(layout.array_stride, 100);
    assert_eq!(layout.array_stride, INSTANCE_STRIDE);
    assert_eq!(layout.step_mode, VertexStepMode::Instance);
    let locations: Vec<u32> = layout.attributes.iter().map(|a| a.shader_location).collect();
    assert_eq!(locations, vec![5, 6, 7, 8, 9, 10, 11]);
    let offsets: Vec<u64> = layout.attributes.iter().map(|a| a.offset).collect();
    assert_eq!(offsets, vec![0, 16, 32, 48, 64, 76, 88]);
    let formats: Vec<VertexFormat> = layout.attributes.iter().map(|a| a.format).collect();
    assert_eq!(formats[3], VertexFormat::Float32x4);
    assert_eq!(formats[4], VertexFormat::Float32x3);
}

#[test]
fn model_pipelines_take_vertices_then_instances() {
    let layouts = vertex_layout();
    assert_eq!(layouts.len(), 2);
    assert_eq!(layouts[0].step_mode, VertexStepMode::Vertex);
    assert_eq!(layouts[1].step_mode, VertexStepMode::Instance);
    let same = Model::<Instance>::vertex_layout();
    assert_eq!(same[1].array_stride, 100);
}

#[test]
fn pack_layout_of_nothing_is_empty() {
    let layout = pack_layout(&vec![], 3, VertexStepMode::Vertex);
    assert_eq!(layout.array_stride, 0);
    assert!(layout.attributes.is_empty());
    assert_eq!(VertexFormat::Float32x4.size(), 16);
}

#[test]
fn decimal_is_written_without_leading_zeros() {
    let mut text = String::from("n=");
    push_decimal(&mut text, 0);
    push_decimal(&mut text, 7);
    push_decimal(&mut text, 10);
    push_decimal(&mut text, 4294967295);
    assert_eq!(text, "n=07104294967295");
}

#[test]
fn token_names_kind_and_binding() {
    let mut text = String::new();
    push_token(&mut text, "diffuse", 3);
    push_token(&mut text, "normal", 12);
    assert_eq!(text, "(diffuse-3)(normal-12)");
    assert_eq!(name_pipeline(Pass::Ambient, "x"), "model_ambient_[x]");
    assert_eq!(name_pipeline(Pass::Lit, ""), "model_lit_[]");
}

#[test]
fn material_without_textures_binds_four_placeholders() {
    let mut device = Device::new();
    let mut queue = Queue::new();
    let material = Material::new(&mut device, &mut queue, plain("plain"));
    assert_eq!(material.name, "plain");
    assert_eq!(
        material.ambient_pipeline_id,
        "model_ambient_[(env-map-1)(diffuse-3)(normal-5)(glossiness-7)]"
    );
    assert_eq!(
        material.lit_pipeline_id,
        "model_lit_[(env-map-1)(diffuse-3)(normal-5)(glossiness-7)]"
    );
    assert_eq!(
        material.texture_flags,
        TextureFlags {
            diffuse: false,
            normal: false,
            glossiness: false,
        }
    );
    assert_eq!(material.material_uniform_buffer, BufferId(0));
    assert_eq!(device.buffers()[0].size, MATERIAL_UNIFORM_SIZE);
    assert_eq!(device.buffers()[0].size, 80);
    assert!(device.buffers()[0].usage.uniform && device.buffers()[0].usage.copy_dst);
    assert_eq!(device.textures().len(), 4);
    assert_eq!(queue.writes().len(), 6 + 3);
    assert_eq!(material.environment_map.texture, TextureId(0));
    assert_eq!(material.environment_map.view_dimension, TextureViewDimension::Cube);
    assert_eq!(device.textures()[0].depth_or_array_layers, 6);
    assert_eq!((device.textures()[0].width, device.textures()[0].height), (1, 1));
    assert_eq!(material.diffuse_texture.texture, TextureId(1));
    assert_eq!(material.normal_texture.texture, TextureId(2));
    assert_eq!(material.glossiness_texture.texture, TextureId(3));
    assert_eq!(material.bind_group_layout, BindGroupLayoutId(0));
    assert_eq!(material.bind_group, BindGroupId(0));
    let layout = &device.bind_group_layouts()[0];
    assert_eq!(layout.len(), 9);
    let fragment = ShaderStages {
        vertex: false,
        fragment: true,
    };
    assert_eq!(
        layout[0],
        BindGroupLayoutEntry {
            binding: 0,
            visibility: fragment,
            ty: BindingType::UniformBuffer,
        }
    );
    for slot in 1..9u32 {
        let entry = layout[slot as usize];
        assert_eq!(entry.binding, slot);
        assert_eq!(entry.visibility, fragment);
        if slot == 1 {
            assert_eq!(
                entry.ty,
                BindingType::Texture {
                    view_dimension: TextureViewDimension::Cube
                }
            );
        } else if slot % 2 == 1 {
            assert_eq!(
                entry.ty,
                BindingType::Texture {
                    view_dimension: TextureViewDimension::D2
                }
            );
        } else {
            assert_eq!(entry.ty, BindingType::Sampler);
        }
    }
    let group = &device.bind_groups()[0];
    assert_eq!(group.entries.len(), 9);
    assert_eq!(
        group.entries[1].resource,
        BindingResource::TextureView(material.environment_map.texture)
    );
    assert_eq!(
        group.entries[3].resource,
        BindingResource::TextureView(material.diffuse_texture.texture)
    );
    assert_eq!(
        group.entries[8].resource,
        BindingResource::Sampler(material.glossiness_texture.sampler)
    );
}

#[test]
fn material_with_environment_map_binds_nine_slots() {
    let mut device = Device::new();
    let mut queue = Queue::new();
    let environment = Texture::cubemap_from_dds(&mut device, 64, 64, 1);
    let diffuse = Texture::from_image(&mut device, &mut queue, 4, 4, false, false);
    let writes_before = queue.writes().len();
    let material = Material::new(
        &mut device,
        &mut queue,
        MaterialProperties {
            name: "shiny".to_string(),
            environment_map: Some(environment),
            diffuse_texture: Some(diffuse),
            normal_texture: None,
            glossiness_texture: None,
        },
    );
    assert_eq!(
        material.ambient_pipeline_id,
        "model_ambient_[(env-map-1)(diffuse-3)(normal-5)(glossiness-7)]"
    );
    assert_eq!(
        material.lit_pipeline_id,
        "model_lit_[(env-map-1)(diffuse-3)(normal-5)(glossiness-7)]"
    );
    assert_eq!(
        material.texture_flags,
        TextureFlags {
            diffuse: true,
            normal: false,
            glossiness: false,
        }
    );
    assert_eq!(material.diffuse_texture, diffuse);
    assert_eq!(material.environment_map, environment);
    assert_eq!(queue.writes().len(), writes_before + 2);
    assert_eq!(device.textures().len(), 4);
    let layout = &device.bind_group_layouts()[0];
    assert_eq!(layout.len(), 9);
    assert_eq!(
        layout[1].ty,
        BindingType::Texture {
            view_dimension: TextureViewDimension::Cube
        }
    );
    assert_eq!(
        layout[3].ty,
        BindingType::Texture {
            view_dimension: TextureViewDimension::D2
        }
    );
    let group = &device.bind_groups()[0];
    assert_eq!(group.layout, material.bind_group_layout);
    let expected = vec![
        BindGroupEntry {
            binding: 0,
            resource: BindingResource::Buffer(material.material_uniform_buffer),
        },
        BindGroupEntry {
            binding: 1,
            resource: BindingResource::TextureView(environment.texture),
        },
        BindGroupEntry {
            binding: 2,
            resource: BindingResource::Sampler(environment.sampler),
        },
        BindGroupEntry {
            binding: 3,
            resource: BindingResource::TextureView(diffuse.texture),
        },
        BindGroupEntry {
            binding: 4,
            resource: BindingResource::Sampler(diffuse.sampler),
        },
        BindGroupEntry {
            binding: 5,
            resource: BindingResource::TextureView(material.normal_texture.texture),
        },
        BindGroupEntry {
            binding: 6,
            resource: BindingResource::Sampler(material.normal_texture.sampler),
        },
        BindGroupEntry {
            binding: 7,
            resource: BindingResource::TextureView(material.glossiness_texture.texture),
        },
        BindGroupEntry {
            binding: 8,
            resource: BindingResource::Sampler(material.glossiness_texture.sampler),
        },
    ];
    assert_eq!(group.entries, expected);
    assert_eq!(material.normal_texture.sampler, SamplerId(2));
}

#[test]
fn material_entry_points_and_shader() {
    let mut device = Device::new();
    let mut queue = Queue::new();
    let material = Material::new(&mut device, &mut queue, plain("m"));
    assert_eq!(material.vertex_main(&Pass::Ambient), EntryPoint::VsMain);
    assert_eq!(material.vertex_main(&Pass::Lit), EntryPoint::VsMain);
    assert_eq!(material.fragment_main(&Pass::Ambient), EntryPoint::FsMainAmbient);
    assert_eq!(material.fragment_main(&Pass::Lit), EntryPoint::FsMainLit);
    assert_eq!(material.shader(&Pass::Lit), ShaderSource::Model);
    assert_eq!(material.pipeline_id(&Pass::Ambient), material.ambient_pipeline_id);
    assert_eq!(material.pipeline_id(&Pass::Lit), material.lit_pipeline_id);
}

#[test]
fn preparing_pipelines_twice_builds_them_once() {
    let mut gpu = gpu();
    let material = Material::new(&mut gpu.device, &mut gpu.queue, plain("m"));
    material.prepare_pipelines(&mut gpu);
    assert_eq!(gpu.device.render_pipelines().len(), 2);
    let ambient = gpu.pipeline_vendor.get_pipeline(&material.ambient_pipeline_id);
    let lit = gpu.pipeline_vendor.get_pipeline(&material.lit_pipeline_id);
    assert_eq!(ambient, Some(RenderPipelineId(0)));
    assert_eq!(lit, Some(RenderPipelineId(1)));
    let layouts = gpu.device.bind_group_layouts().len();
    material.prepare_pipelines(&mut gpu);
    assert_eq!(gpu.device.render_pipelines().len(), 2);
    assert_eq!(gpu.device.bind_group_layouts().len(), layouts);
    assert_eq!(gpu.pipeline_vendor.get_pipeline(&material.ambient_pipeline_id), ambient);
    assert_eq!(gpu.pipeline_vendor.get_pipeline(&material.lit_pipeline_id), lit);
}

#[test]
fn prepared_pipelines_are_built_for_their_pass() {
    let mut gpu = gpu();
    let material = Material::new(&mut gpu.device, &mut gpu.queue, plain("m"));
    let layouts = gpu.device.bind_group_layouts().len();
    material.prepare_pipelines(&mut gpu);
    let ambient = &gpu.device.render_pipelines()[0];
    let lit = &gpu.device.render_pipelines()[1];
    assert!(ambient.depth_stencil.unwrap().depth_write_enabled);
    assert!(!lit.depth_stencil.unwrap().depth_write_enabled);
    assert_eq!(ambient.fragment_entry, EntryPoint::FsMainAmbient);
    assert_eq!(lit.fragment_entry, EntryPoint::FsMainLit);
    assert_eq!(ambient.target.format, TextureFormat::Bgra8UnormSrgb);
    assert_eq!(ambient.depth_stencil.unwrap().format, TextureFormat::Depth32Float);
    assert_eq!(
        ambient.layout,
        vec![
            material.bind_group_layout,
            BindGroupLayoutId(layouts),
            BindGroupLayoutId(layouts + 1)
        ]
    );
    assert_eq!(
        lit.layout,
        vec![
            material.bind_group_layout,
            BindGroupLayoutId(layouts + 2),
            BindGroupLayoutId(layouts + 3)
        ]
    );
    assert_eq!(ambient.vertex_buffers.len(), 2);
}

#[test]
fn materials_with_the_same_textures_share_pipelines() {
    let mut gpu = gpu();
    let first = Material::new(&mut gpu.device, &mut gpu.queue, plain("first"));
    let diffuse = Texture::from_image(&mut gpu.device, &mut gpu.queue, 2, 2, false, false);
    let mut with_diffuse = plain("second");
    with_diffuse.diffuse_texture = Some(diffuse);
    let second = Material::new(&mut gpu.device, &mut gpu.queue, with_diffuse);
    assert_eq!(first.ambient_pipeline_id, second.ambient_pipeline_id);
    assert_eq!(first.lit_pipeline_id, second.lit_pipeline_id);
    first.prepare_pipelines(&mut gpu);
    second.prepare_pipelines(&mut gpu);
    assert_eq!(gpu.device.render_pipelines().len(), 2);
    let environment = Texture::cubemap_from_dds(&mut gpu.device, 8, 8, 1);
    let mut with_environment = plain("third");
    with_environment.environment_map = Some(environment);
    let third = Material::new(&mut gpu.device, &mut gpu.queue, with_environment);
    assert_eq!(first.ambient_pipeline_id, third.ambient_pipeline_id);
    assert_eq!(first.lit_pipeline_id, third.lit_pipeline_id);
    third.prepare_pipelines(&mut gpu);
    assert_eq!(gpu.device.render_pipelines().len(), 2);
    let slots = |material: &Material| {
        gpu.device.bind_group_layouts()[material.bind_group_layout.0]
            .iter()
            .map(|entry| entry.binding)
            .collect::<Vec<u32>>()
    };
    assert_eq!(slots(&first), vec![0, 1, 2, 3, 4, 5, 6, 7, 8]);
    assert_eq!(slots(&first), slots(&second));
    assert_eq!(slots(&first), slots(&third));
}

#[test]
fn model_creates_an_instance_buffer_and_starts_dirty() {
    let mut gpu = gpu();
    let material = Material::new(&mut gpu.device, &mut gpu.queue, plain("m"));
    let cube = mesh(&mut gpu.device, "cube", 36, 0);
    let buffers = gpu.device.buffers().len();
    let model = Model::new(
        &mut gpu.device,
        vec![cube],
        vec![material],
        vec![instance(0.0), instance(1.0), instance(2.0)],
    );
    assert!(model.is_dirty());
    assert_eq!(model.instance_count(), 3);
    assert_eq!(model.instance_buffer(), BufferId(buffers));
    let made = gpu.device.buffers()[buffers];
    assert_eq!(made.size, 300);
    assert!(made.usage.vertex && made.usage.copy_dst);
    assert_eq!(model.meshes().len(), 1);
    assert_eq!(model.materials().len(), 1);
}

#[test]
fn update_instance_ignores_indices_out_of_range() {
    let mut gpu = gpu();
    let mut model: Model<Instance> =
        Model::new(&mut gpu.device, vec![], vec![], vec![instance(0.0), instance(1.0)]);
    model.update(&mut gpu.queue);
    assert!(!model.is_dirty());
    model.update_instance(2, instance(9.0));
    assert!(!model.is_dirty());
    assert_eq!(model.instances(), &vec![instance(0.0), instance(1.0)]);
    model.update_instance(1, instance(9.0));
    assert!(model.is_dirty());
    assert_eq!(model.instances(), &vec![instance(0.0), instance(9.0)]);
}

#[test]
fn update_instances_writes_what_is_in_range() {
    let mut gpu = gpu();
    let mut model: Model<Instance> = Model::new(
        &mut gpu.device,
        vec![],
        vec![],
        vec![instance(0.0), instance(1.0), instance(2.0)],
    );
    model.update(&mut gpu.queue);
    let updates = HashMap::from([(1usize, instance(5.0)), (7usize, instance(6.0))]);
    model.update_instances(&updates);
    assert!(model.is_dirty());
    assert_eq!(
        model.instances(),
        &vec![instance(0.0), instance(5.0), instance(2.0)]
    );
    let writes = gpu.queue.writes().len();
    model.update(&mut gpu.queue);
    assert_eq!(gpu.queue.writes().len(), writes + 1);
}

#[test]
fn update_instances_out_of_range_leaves_the_model_clean() {
    let mut gpu = gpu();
    let mut model: Model<Instance> = Model::new(&mut gpu.device, vec![], vec![], vec![instance(0.0)]);
    model.update(&mut gpu.queue);
    let updates = HashMap::from([(1usize, instance(5.0)), (usize::MAX, instance(6.0))]);
    model.update_instances(&updates);
    assert!(!model.is_dirty());
    model.update_instances(&HashMap::new());
    assert!(!model.is_dirty());
    assert_eq!(model.instances(), &vec![instance(0.0)]);
    let writes = gpu.queue.writes().len();
    model.update(&mut gpu.queue);
    assert_eq!(gpu.queue.writes().len(), writes);
}

#[test]
fn instance_batch_is_uploaded_whole_and_once() {
    let mut gpu = gpu();
    let mut positions = vec![];
    for x in 0..50 {
        for z in 0..50 {
            positions.push([x as f32 * 2.5, 0.0, z as f32 * 2.5, 0.0, 0.0, 0.0, 1.0]);
        }
    }
    let mut model: Model<Instance> = Model::new(&mut gpu.device, vec![], vec![], positions);
    assert_eq!(model.instance_count(), 2500);
    model.update(&mut gpu.queue);
    let first = gpu.queue.take();
    assert_eq!(
        first,
        vec![QueueWrite::Buffer {
            buffer: model.instance_buffer(),
            offset: 0,
            size: 250000,
        }]
    );
    model.update_instance(1234, instance(99.0));
    model.update(&mut gpu.queue);
    model.update(&mut gpu.queue);
    assert_eq!(
        gpu.queue.writes(),
        &vec![QueueWrite::Buffer {
            buffer: model.instance_buffer(),
            offset: 0,
            size: 2500 * INSTANCE_STRIDE,
        }]
    );
    assert_eq!(model.instances()[1234], instance(99.0));
    assert_eq!(1234 * INSTANCE_STRIDE, 123400);
}

#[test]
fn draw_model_records_eight_commands_a_mesh() {
    let mut gpu = gpu();
    let camera: Camera<(), [f32; 20]> = Camera::new(&mut gpu, ());
    let light: Light<[f32; 24]> = Light::new(&mut gpu.device, LightType::Point, [0.0; 24]);
    let material = Material::new(&mut gpu.device, &mut gpu.queue, plain("m"));
    let material_group = material.bind_group;
    let first = mesh(&mut gpu.device, "first", 36, 0);
    let second = mesh(&mut gpu.device, "second", 6, 0);
    let (first_vertices, first_indices) = (first.vertex_buffer, first.index_buffer);
    let (second_vertices, second_indices) = (second.vertex_buffer, second.index_buffer);
    let model = Model::new(
        &mut gpu.device,
        vec![first, second],
        vec![material],
        vec![instance(0.0), instance(1.0)],
    );
    model.prepare_pipelines(&mut gpu);
    let pipeline = gpu
        .pipeline_vendor
        .get_pipeline(model.materials()[0].pipeline_id(&Pass::Lit))
        .unwrap();
    let mut pass = RenderPass::new(None, None);
    let skipped = draw_model(
        &mut pass,
        &gpu.pipeline_vendor,
        &model,
        &camera,
        &light,
        &Pass::Lit,
    );
    assert!(skipped.is_empty());
    let draw = |vertices: BufferId, indices: BufferId, count: u32| {
        vec![
            RenderCommand::SetPipeline { pipeline },
            RenderCommand::SetVertexBuffer {
                slot: 0,
                buffer: vertices,
            },
            RenderCommand::SetVertexBuffer {
                slot: 1,
                buffer: model.instance_buffer(),
            },
            RenderCommand::SetIndexBuffer {
                buffer: indices,
                format: IndexFormat::Uint32,
            },
            RenderCommand::SetBindGroup {
                index: 0,
                group: material_group,
            },
            RenderCommand::SetBindGroup {
                index: 1,
                group: camera.bind_group(),
            },
            RenderCommand::SetBindGroup {
                index: 2,
                group: light.bind_group(),
            },
            RenderCommand::DrawIndexed {
                index_count: count,
                base_vertex: 0,
                instance_count: 2,
            },
        ]
    };
    let mut expected = draw(first_vertices, first_indices, 36);
    expected.extend(draw(second_vertices, second_indices, 6));
    assert_eq!(pass.commands(), &expected);
}

#[test]
fn draw_model_skips_meshes_without_pipeline() {
    let mut gpu = gpu();
    let camera: Camera<(), [f32; 20]> = Camera::new(&mut gpu, ());
    let light: Light<[f32; 24]> = Light::new(&mut gpu.device, LightType::Ambient, [0.0; 24]);
    let prepared = Material::new(&mut gpu.device, &mut gpu.queue, plain("prepared"));
    let mut unprepared = Material::new(&mut gpu.device, &mut gpu.queue, plain("other"));
    unprepared.ambient_pipeline_id = "model_ambient_[elsewhere]".to_string();
    prepared.prepare_pipelines(&mut gpu);
    let meshes = vec![
        mesh(&mut gpu.device, "a", 3, 1),
        mesh(&mut gpu.device, "b", 3, 0),
        mesh(&mut gpu.device, "c", 3, 1),
    ];
    let model = Model::new(
        &mut gpu.device,
        meshes,
        vec![prepared, unprepared],
        vec![instance(0.0)],
    );
    let mut pass = RenderPass::new(None, None);
    let skipped = draw_model(
        &mut pass,
        &gpu.pipeline_vendor,
        &model,
        &camera,
        &light,
        &Pass::Ambient,
    );
    assert_eq!(skipped, vec![0, 2]);
    assert_eq!(pass.commands().len(), 8);
    assert_eq!(
        pass.commands()[1],
        RenderCommand::SetVertexBuffer {
            slot: 0,
            buffer: model.meshes()[1].vertex_buffer,
        }
    );
}
