use forward_renderer::block::{align_up, block_layout, FieldType};
use forward_renderer::camera::CAMERA_UNIFORM_SIZE;
use forward_renderer::compositor::COMPOSITOR_UNIFORM_SIZE;
use forward_renderer::light::LIGHT_UNIFORM_SIZE;
use forward_renderer::material::MATERIAL_UNIFORM_SIZE;

#[test]
fn offsets_round_up_to_the_alignment() {
    assert_eq!(align_up(0, 16), 0);
    assert_eq!(align_up(1, 16), 16);
    assert_eq!(align_up(12, 16), 16);
    assert_eq!(align_up(16, 16), 16);
    assert_eq!(align_up(17, 4), 20);
    assert_eq!(align_up(20, 4), 20);
    assert_eq!(align_up(9, 8), 16);
    assert_eq!(align_up(7, 1), 7);
    assert_eq!(align_up(10, 3), 12);
    assert_eq!(align_up(255, 256), 256);
    assert_eq!(FieldType::Vec3.size(), 12);
    assert_eq!(FieldType::Vec3.align(), 16);
    assert_eq!(FieldType::Float.align(), 4);
    assert_eq!(FieldType::Mat4.size(), 64);
}

#[test]
fn light_block_pads_each_vector_of_three() {
    let layout = block_layout(&forward_renderer::light::uniform_fields());
    assert_eq!(layout.offsets, vec![0, 16, 32, 48, 64, 80]);
    assert_eq!(layout.size, 96);
    assert_eq!(layout.size, LIGHT_UNIFORM_SIZE);
}

#[test]
fn material_block_pads_the_glossiness() {
    let layout = block_layout(&forward_renderer::material::uniform_fields());
    assert_eq!(layout.offsets, vec![0, 16, 32, 48, 64]);
    assert_eq!(layout.size, 80);
    assert_eq!(layout.size, MATERIAL_UNIFORM_SIZE);
}

#[test]
fn camera_and_compositor_blocks_are_packed() {
    let camera = block_layout(&forward_renderer::camera::uniform_fields());
    assert_eq!(camera.offsets, vec![0, 16]);
    assert_eq!(camera.size, CAMERA_UNIFORM_SIZE);
    let compositor = block_layout(&forward_renderer::compositor::uniform_fields());
    assert_eq!(compositor.offsets, vec![0]);
    assert_eq!(compositor.size, COMPOSITOR_UNIFORM_SIZE);
}

#[test]
fn scalars_pack_tightly_and_the_block_is_padded() {
    let layout = block_layout(&vec![FieldType::Float, FieldType::Int, FieldType::Float]);
    assert_eq!(layout.offsets, vec![0, 4, 8]);
    assert_eq!(layout.size, 16);
    let empty = block_layout(&vec![]);
    assert!(empty.offsets.is_empty());
    assert_eq!(empty.size, 0);
}
