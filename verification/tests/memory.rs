use amethyst::buffer::{
    Buffer, BufferAccessMode, BufferCreateInfo, BufferKind, BufferMemoryLocation, BufferTransfert,
    BufferUsageInfo,
};
use amethyst::subbuffer::{SubBuffer, SubBufferCreateInfo, SubBufferUpdateInfo};

fn host_visible_usage() -> BufferUsageInfo {
    BufferUsageInfo {
        location: BufferMemoryLocation::PreferHostVisible,
        transfer: BufferTransfert::Source,
        access: BufferAccessMode::Sequential,
        memory_type: 0,
    }
}

#[test]
fn empty_buffer_reads_as_zeroes() {
    let buffer = Buffer::empty(BufferCreateInfo {
        usage: host_visible_usage(),
        kind: BufferKind::Plain,
        alignment: 0,
        size: 8,
    });
    let bytes = buffer.as_u8_slice().expect("host visible buffer must be mapped");
    assert_eq!(bytes, &[0u8; 8]);
}

#[test]
fn device_local_buffer_is_not_host_readable() {
    let buffer = Buffer::empty(BufferCreateInfo {
        usage: BufferUsageInfo::static_rendering(),
        kind: BufferKind::Vertices,
        alignment: 0,
        size: 16,
    });
    assert!(buffer.as_u8_slice().is_none());
}

#[test]
fn buffer_write_then_read_roundtrip() {
    let mut buffer = Buffer::empty(BufferCreateInfo {
        usage: host_visible_usage(),
        kind: BufferKind::Plain,
        alignment: 0,
        size: 4,
    });
    buffer.write_mapped(&[7, 11, 13, 17]);
    assert_eq!(buffer.as_u8_slice().unwrap(), &[7, 11, 13, 17]);
}

#[test]
fn host_visible_update_roundtrip() {
    // A host visible, sequential-access buffer: an update followed by a
    // direct map-read returns exactly the bytes written.
    let mut buffer: SubBuffer<u8> = SubBuffer::empty(SubBufferCreateInfo {
        usage: BufferUsageInfo::staging(),
        count: 5,
        ..Default::default()
    });
    buffer.update(SubBufferUpdateInfo { data: &[1, 2, 3, 4, 5] });
    assert_eq!(buffer.as_slice().unwrap(), &[1, 2, 3, 4, 5]);

    buffer.update(SubBufferUpdateInfo { data: &[9, 8, 7, 6, 5] });
    assert_eq!(buffer.as_slice().unwrap(), &[9, 8, 7, 6, 5]);
}

#[test]
fn device_local_update_goes_through_staging() {
    // A device local buffer is updated through a staging copy; the new
    // contents are visible once the update returns, but never through a
    // host mapping.
    let mut buffer: SubBuffer<u32> = SubBuffer::empty(SubBufferCreateInfo {
        usage: BufferUsageInfo::static_rendering(),
        kind: BufferKind::Vertices,
        count: 3,
        ..Default::default()
    });
    buffer.update(SubBufferUpdateInfo { data: &[10, 20, 30] });
    assert!(buffer.as_slice().is_none());
    assert_eq!(buffer.contents, vec![10, 20, 30]);
}

#[test]
fn subbuffer_new_count_and_size() {
    // count == data.len() and size == count * size_of::<T>().
    let data: [u32; 6] = [1, 2, 3, 4, 5, 6];
    let buffer: SubBuffer<u32> = SubBuffer::new(&data, SubBufferCreateInfo::default());
    assert_eq!(buffer.count(), 6);
    assert_eq!(buffer.size(), 6 * core::mem::size_of::<u32>());
    assert_eq!(buffer.size(), 24);
    assert_eq!(buffer.offset(), 0);
}

#[test]
fn subbuffer_new_bytes() {
    let data: [u8; 3] = [42, 43, 44];
    let buffer: SubBuffer<u8> = SubBuffer::new(
        &data,
        SubBufferCreateInfo {
            usage: BufferUsageInfo::staging(),
            ..Default::default()
        },
    );
    assert_eq!(buffer.count(), 3);
    assert_eq!(buffer.size(), 3);
    assert_eq!(buffer.as_slice().unwrap(), &[42, 43, 44]);
}

#[test]
fn subbuffer_from_buffer() {
    let mut buffer = Buffer::empty(BufferCreateInfo {
        usage: host_visible_usage(),
        kind: BufferKind::Plain,
        alignment: 0,
        size: 2,
    });
    buffer.write_mapped(&[3, 9]);
    let sub: SubBuffer<u8> = SubBuffer::from(buffer);
    assert_eq!(sub.count(), 2);
    assert_eq!(sub.as_slice().unwrap(), &[3, 9]);
}

#[test]
fn predefined_usages() {
    let stat = BufferUsageInfo::static_rendering();
    assert_eq!(stat.location, BufferMemoryLocation::PreferDeviceLocal);
    assert_eq!(stat.access, BufferAccessMode::NoAccess);
    let staging = BufferUsageInfo::staging();
    assert_eq!(staging.location, BufferMemoryLocation::PreferHostVisible);
    assert_eq!(staging.transfer, BufferTransfert::Source);
    assert_eq!(staging.access, BufferAccessMode::Sequential);
    let uniform = BufferUsageInfo::uniform();
    assert_eq!(uniform.location, BufferMemoryLocation::PreferDeviceLocal);
    assert_eq!(uniform.access, BufferAccessMode::Sequential);
}
