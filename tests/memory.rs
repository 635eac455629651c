use ash::vk::MemoryPropertyFlags as F;
use nexg::{
    find_memory_type, DeviceMemory, MemoryAllocateInfo, MemoryRequirements, MemoryType, NxError,
    MEMORY_PROPERTY_DEVICE_LOCAL, MEMORY_PROPERTY_HOST_COHERENT, MEMORY_PROPERTY_HOST_VISIBLE,
};

fn ty(flags: u32) -> MemoryType {
    MemoryType { property_flags: flags, heap_index: 0 }
}

#[test]
fn picks_smallest_index_in_mask_with_property() {
    let layout = [
        ty(MEMORY_PROPERTY_DEVICE_LOCAL),
        ty(MEMORY_PROPERTY_HOST_VISIBLE),
        ty(MEMORY_PROPERTY_HOST_VISIBLE | MEMORY_PROPERTY_HOST_COHERENT),
        ty(MEMORY_PROPERTY_HOST_VISIBLE),
    ];
    assert_eq!(find_memory_type(0b1111, &layout, MEMORY_PROPERTY_HOST_VISIBLE), Ok(1));
    // Index 1 is not allowed by the mask.
    assert_eq!(find_memory_type(0b1101, &layout, MEMORY_PROPERTY_HOST_VISIBLE), Ok(2));
    assert_eq!(find_memory_type(0b1111, &layout, MEMORY_PROPERTY_DEVICE_LOCAL), Ok(0));
    assert_eq!(
        find_memory_type(
            0b1111,
            &layout,
            MEMORY_PROPERTY_HOST_VISIBLE | MEMORY_PROPERTY_HOST_COHERENT
        ),
        Ok(2)
    );
}

#[test]
fn empty_intersection_is_no_value() {
    let layout = [ty(MEMORY_PROPERTY_DEVICE_LOCAL), ty(MEMORY_PROPERTY_HOST_VISIBLE)];
    assert_eq!(find_memory_type(0b01, &layout, MEMORY_PROPERTY_HOST_VISIBLE), Err(NxError::NoValue));
    assert_eq!(find_memory_type(0, &layout, 0), Err(NxError::NoValue));
    assert_eq!(find_memory_type(u32::MAX, &[], 0), Err(NxError::NoValue));
}

#[test]
fn highest_bit_of_the_mask_is_reachable() {
    let mut layout = vec![ty(0); 32];
    layout[31] = ty(MEMORY_PROPERTY_HOST_VISIBLE);
    assert_eq!(find_memory_type(1 << 31, &layout, MEMORY_PROPERTY_HOST_VISIBLE), Ok(31));
    // Types past 32 can never be named by the mask.
    let mut long = vec![ty(0); 40];
    long[35] = ty(MEMORY_PROPERTY_HOST_VISIBLE);
    assert_eq!(find_memory_type(u32::MAX, &long, MEMORY_PROPERTY_HOST_VISIBLE), Err(NxError::NoValue));
}

#[test]
fn allocation_takes_whole_size_and_first_type() {
    let layout = [ty(MEMORY_PROPERTY_DEVICE_LOCAL), ty(MEMORY_PROPERTY_HOST_VISIBLE)];
    let req = MemoryRequirements { size: 4096, alignment: 256, memory_type_bits: 0b11 };
    let info = DeviceMemory::allocate_info(&req, &layout, MEMORY_PROPERTY_HOST_VISIBLE).unwrap();
    assert_eq!(info, MemoryAllocateInfo { allocation_size: 4096, memory_type_index: 1 });
    let m = DeviceMemory::from_raw(77, &info);
    assert_eq!(m.size(), 4096);
    assert_eq!(m.handle, 77);
    let none = MemoryRequirements { size: 4096, alignment: 256, memory_type_bits: 0b01 };
    assert_eq!(
        DeviceMemory::allocate_info(&none, &layout, MEMORY_PROPERTY_HOST_VISIBLE),
        Err(NxError::NoValue)
    );
}

#[test]
fn property_bits_match_the_driver() {
    assert_eq!(MEMORY_PROPERTY_DEVICE_LOCAL, F::DEVICE_LOCAL.as_raw());
    assert_eq!(MEMORY_PROPERTY_HOST_VISIBLE, F::HOST_VISIBLE.as_raw());
    assert_eq!(MEMORY_PROPERTY_HOST_COHERENT, F::HOST_COHERENT.as_raw());
}
