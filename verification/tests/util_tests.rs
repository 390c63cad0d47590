use forward_renderer::command::{Queue, QueueWrite};
use forward_renderer::device::{
    BindGroupEntry, BindGroupId, BindGroupLayoutEntry, BindGroupLayoutId, BindingResource,
    BindingType, BufferId, Device, ShaderStages,
};
use forward_renderer::util::{uniform_bind_group_layout, UniformWrapper};

#[test]
fn holder_starts_dirty_with_default_value() {
    let mut device = Device::new();
    let holder: UniformWrapper<[f32; 4]> = UniformWrapper::new(&mut device);
    assert!(holder.dirty());
    assert_eq!(*holder.get(), [0.0f32; 4]);
    assert_eq!(holder.byte_size(), 16);
    assert_eq!(holder.buffer(), BufferId(0));
    assert_eq!(holder.layout(), BindGroupLayoutId(0));
    assert_eq!(holder.bind_group(), BindGroupId(0));
}

#[test]
fn holder_creates_buffer_layout_and_bind_group() {
    let mut device = Device::new();
    let _first: UniformWrapper<u32> = UniformWrapper::new(&mut device);
    let holder: UniformWrapper<[u32; 20]> = UniformWrapper::new(&mut device);
    assert_eq!(holder.buffer(), BufferId(1));
    assert_eq!(device.buffers().len(), 2);
    let buffer = device.buffers()[1];
    assert_eq!(buffer.size, 80);
    assert!(buffer.usage.uniform && buffer.usage.copy_dst);
    assert!(!buffer.usage.vertex && !buffer.usage.index);
    let uniform_slot = BindGroupLayoutEntry {
        binding: 0,
        visibility: ShaderStages { vertex: true, fragment: true },
        ty: BindingType::UniformBuffer,
    };
    assert_eq!(device.bind_group_layouts()[1], vec![uniform_slot]);
    let group = &device.bind_groups()[1];
    assert_eq!(group.layout, BindGroupLayoutId(1));
    assert_eq!(
        group.entries,
        vec![BindGroupEntry {
            binding: 0,
            resource: BindingResource::Buffer(BufferId(1)),
        }]
    );
}

#[test]
fn two_writes_in_a_row_upload_once() {
    let mut device = Device::new();
    let mut queue = Queue::new();
    let mut holder: UniformWrapper<[f32; 4]> = UniformWrapper::new(&mut device);
    holder.write(&mut queue);
    holder.write(&mut queue);
    assert_eq!(
        queue.writes(),
        &vec![QueueWrite::Buffer {
            buffer: holder.buffer(),
            offset: 0,
            size: 16,
        }]
    );
    assert!(!holder.dirty());
}

#[test]
fn change_is_uploaded_by_the_next_write_only() {
    let mut device = Device::new();
    let mut queue = Queue::new();
    let mut holder: UniformWrapper<[f32; 2]> = UniformWrapper::new(&mut device);
    holder.write(&mut queue);
    holder.get_mut()[1] = 2.5;
    assert!(holder.dirty());
    assert_eq!(*holder.get(), [0.0, 2.5]);
    holder.write(&mut queue);
    holder.write(&mut queue);
    holder.write(&mut queue);
    assert_eq!(queue.writes().len(), 2);
}

#[test]
fn taking_the_value_for_change_marks_dirty_even_without_change() {
    let mut device = Device::new();
    let mut queue = Queue::new();
    let mut holder: UniformWrapper<u64> = UniformWrapper::new(&mut device);
    holder.write(&mut queue);
    let _ = holder.get_mut();
    holder.write(&mut queue);
    assert_eq!(queue.writes().len(), 2);
}

#[test]
fn uniform_layout_is_one_buffer_for_both_stages() {
    let mut device = Device::new();
    let id = uniform_bind_group_layout(&mut device);
    assert_eq!(id, BindGroupLayoutId(0));
    let again = UniformWrapper::<u8>::bind_group_layout(&mut device);
    assert_eq!(again, BindGroupLayoutId(1));
    assert_eq!(device.bind_group_layouts()[0], device.bind_group_layouts()[1]);
    assert_eq!(device.bind_group_layouts()[0].len(), 1);
    assert_eq!(device.bind_group_layouts()[0][0].binding, 0);
}
