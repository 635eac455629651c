use vstd::prelude::*;

use crate::error::{NxError, NxResult};

verus! {

/// Memory property bit: the memory is local to the device.
pub const MEMORY_PROPERTY_DEVICE_LOCAL: u32 = 1;

/// Memory property bit: the host can map the memory.
pub const MEMORY_PROPERTY_HOST_VISIBLE: u32 = 2;

/// Memory property bit: host writes need no explicit flush.
pub const MEMORY_PROPERTY_HOST_COHERENT: u32 = 4;

/// One memory type of an adapter's memory layout.
#[derive(Clone, Copy, Debug, PartialEq, Eq, Structural)]
pub struct MemoryType {
    pub property_flags: u32,
    pub heap_index: u32,
}

/// What a resource needs from the memory that backs it.
#[derive(Clone, Copy, Debug, PartialEq, Eq, Structural)]
pub struct MemoryRequirements {
    pub size: u64,
    pub alignment: u64,
    /// Bit `i` is set when memory type `i` may back the resource.
    pub memory_type_bits: u32,
}

/// The parameters of one allocation.
#[derive(Clone, Copy, Debug, PartialEq, Eq, Structural)]
pub struct MemoryAllocateInfo {
    pub allocation_size: u64,
    pub memory_type_index: u32,
}

/// Bit `i` of `bits` is set.
pub open spec fn type_allowed(bits: u32, i: int) -> bool {
    0 <= i < 32 && (bits >> (i as u32)) & 1u32 == 1u32
}

/// `flags` holds every bit of `required`.
pub open spec fn has_property(flags: u32, required: u32) -> bool {
    flags & required == required
}

/// Memory type `i` may back the resource and has the required properties.
pub open spec fn type_qualifies(bits: u32, types: Seq<MemoryType>, required: u32, i: int) -> bool {
    0 <= i < types.len() && type_allowed(bits, i) && has_property(types[i].property_flags, required)
}

/// The smallest index of a memory type that is set in `memory_type_bits`
/// and holds every bit of `required`; `NoValue` when there is none.
pub fn find_memory_type(memory_type_bits: u32, memory_types: &[MemoryType], required: u32) -> (r:
    NxResult<u32>)
    ensures
        match r {
            Ok(i) => type_qualifies(memory_type_bits, memory_types@, required, i as int) && forall|
                j: int,
            |
                0 <= j < i ==> !type_qualifies(memory_type_bits, memory_types@, required, j),
            Err(e) => e == NxError::NoValue && forall|j: int|
                !type_qualifies(memory_type_bits, memory_types@, required, j),
        },
{
    let mut i: usize = 0;
    while i < memory_types.len() && i < 32
        invariant
            i <= memory_types@.len(),
            i <= 32,
            forall|j: int| 0 <= j < i ==> !type_qualifies(memory_type_bits, memory_types@, required, j),
        decreases memory_types@.len() - i,
    {
        let allowed = (memory_type_bits >> (i as u32)) & 1u32 == 1u32;
        if allowed && memory_types[i].property_flags & required == required {
            return Ok(i as u32);
        }
        i = i + 1;
    }
    Err(NxError::NoValue)
}

/// A device memory allocation that backs exactly one resource, bound at offset 0.
#[derive(Clone, Copy, Debug, PartialEq, Eq, Structural)]
pub struct DeviceMemory {
    pub handle: u64,
    pub size: u64,
    pub memory_type_index: u32,
}

impl DeviceMemory {
    /// The allocation for a resource: its whole size, from the first memory
    /// type that the resource allows and that has the required properties.
    /// Each resource gets an allocation of its own: many small resources make
    /// many small allocations.
    pub fn allocate_info(
        requirements: &MemoryRequirements,
        memory_types: &[MemoryType],
        required: u32,
    ) -> (r: NxResult<MemoryAllocateInfo>)
        ensures
            match r {
                Ok(info) => info.allocation_size == requirements.size && type_qualifies(
                    requirements.memory_type_bits,
                    memory_types@,
                    required,
                    info.memory_type_index as int,
                ) && forall|j: int|
                    0 <= j < info.memory_type_index ==> !type_qualifies(
                        requirements.memory_type_bits,
                        memory_types@,
                        required,
                        j,
                    ),
                Err(e) => e == NxError::NoValue && forall|j: int|
                    !type_qualifies(requirements.memory_type_bits, memory_types@, required, j),
            },
    {
        let index = find_memory_type(requirements.memory_type_bits, memory_types, required)?;
        Ok(MemoryAllocateInfo { allocation_size: requirements.size, memory_type_index: index })
    }

    /// The memory that the driver allocated under `handle` for `info`.
    pub fn from_raw(handle: u64, info: &MemoryAllocateInfo) -> (m: Self)
        ensures
            m.handle == handle,
            m.size == info.allocation_size,
            m.memory_type_index == info.memory_type_index,
    {
        DeviceMemory { handle, size: info.allocation_size, memory_type_index: info.memory_type_index }
    }

    /// The size of the allocation.
    pub fn size(&self) -> (s: u64)
        ensures
            s == self.size,
    {
        self.size
    }
}

} // verus!
