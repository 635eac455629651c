use nexg::{
    Buffer, BufferDescriptor, BufferUsage, DeviceMemory, MemoryAllocateInfo, NxError,
    BUFFER_USAGE_INDEX_BIT, BUFFER_USAGE_VERTEX_BIT,
};

/// A vertex of a textured quad: a position and a texture coordinate.
#[derive(Clone, Copy)]
struct Vertex {
    pos: [f32; 4],
    uv: [f32; 2],
}

fn vertex_bytes(vs: &[Vertex]) -> Vec<u8> {
    let mut out = Vec::new();
    for v in vs {
        for x in v.pos.iter().chain(v.uv.iter()) {
            out.extend_from_slice(&x.to_le_bytes());
        }
    }
    out
}

fn buffer_of(size: usize, usage: BufferUsage) -> Buffer {
    let desc = BufferDescriptor::empty().size(size).usage(usage);
    let memory = DeviceMemory::from_raw(
        9,
        &MemoryAllocateInfo { allocation_size: size as u64, memory_type_index: 0 },
    );
    Buffer::new(3, memory, &desc)
}

fn round_trip(data: &[u8]) {
    let buffer = buffer_of(data.len(), BufferUsage::Vertex);
    let mut mapped = vec![0xAAu8; data.len()];
    buffer.write(&mut mapped, data).unwrap();
    assert_eq!(buffer.read(&mapped).unwrap(), data.to_vec());
}

#[test]
fn round_trip_one_byte() {
    round_trip(&[0x5C]);
}

#[test]
fn round_trip_one_vertex() {
    let v = Vertex { pos: [0.5, -0.5, 0.0, 1.0], uv: [1.0, 0.0] };
    let bytes = vertex_bytes(&[v]);
    assert_eq!(bytes.len(), std::mem::size_of::<Vertex>());
    round_trip(&bytes);
}

#[test]
fn round_trip_quad() {
    let quad = [
        Vertex { pos: [-0.5, -0.5, 0.0, 1.0], uv: [0.0, 0.0] },
        Vertex { pos: [0.5, -0.5, 0.0, 1.0], uv: [1.0, 0.0] },
        Vertex { pos: [0.5, 0.5, 0.0, 1.0], uv: [1.0, 1.0] },
        Vertex { pos: [-0.5, 0.5, 0.0, 1.0], uv: [0.0, 1.0] },
    ];
    let bytes = vertex_bytes(&quad);
    assert_eq!(bytes.len(), 4 * std::mem::size_of::<Vertex>());
    round_trip(&bytes);
}

#[test]
fn write_of_wrong_length_is_refused_and_writes_nothing() {
    let buffer = buffer_of(4, BufferUsage::Index);
    let mut mapped = vec![1u8, 2, 3, 4];
    assert_eq!(buffer.write(&mut mapped, &[9, 9, 9]), Err(NxError::MemoryMapFailed));
    assert_eq!(mapped, vec![1, 2, 3, 4]);
    let mut short = vec![0u8; 3];
    assert_eq!(buffer.write(&mut short, &[9, 9, 9, 9]), Err(NxError::MemoryMapFailed));
    assert_eq!(buffer.read(&short), Err(NxError::MemoryMapFailed));
}

#[test]
fn buffer_descriptor_defaults_and_create_info() {
    let d = BufferDescriptor::empty();
    assert_eq!(d.size, 0);
    assert_eq!(d.usage, BufferUsage::Vertex);
    let info = Buffer::create_info(&d.size(96).usage(BufferUsage::Index));
    assert_eq!(info.size, 96);
    assert_eq!(info.usage, BUFFER_USAGE_INDEX_BIT);
    assert_eq!(BUFFER_USAGE_INDEX_BIT, ash::vk::BufferUsageFlags::INDEX_BUFFER.as_raw());
    assert_eq!(BUFFER_USAGE_VERTEX_BIT, ash::vk::BufferUsageFlags::VERTEX_BUFFER.as_raw());
    assert_eq!(buffer_of(96, BufferUsage::Index).size(), 96);
}
