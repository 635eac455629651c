use vstd::prelude::*;

use crate::error::{NxError, NxResult};
use crate::mem::DeviceMemory;

verus! {

/// Buffer usage bit: the buffer holds indices.
pub const BUFFER_USAGE_INDEX_BIT: u32 = 0x40;

/// Buffer usage bit: the buffer holds vertices.
pub const BUFFER_USAGE_VERTEX_BIT: u32 = 0x80;

#[derive(Clone, Copy, Debug, PartialEq, Eq, Structural)]
pub enum BufferUsage {
    Vertex,
    Index,
}

impl BufferUsage {
    pub open spec fn flags_spec(self) -> u32 {
        match self {
            BufferUsage::Vertex => BUFFER_USAGE_VERTEX_BIT,
            BufferUsage::Index => BUFFER_USAGE_INDEX_BIT,
        }
    }

    /// The driver's usage bit of this usage.
    pub fn to_flags(self) -> (f: u32)
        ensures
            f == self.flags_spec(),
    {
        match self {
            BufferUsage::Vertex => BUFFER_USAGE_VERTEX_BIT,
            BufferUsage::Index => BUFFER_USAGE_INDEX_BIT,
        }
    }
}

#[derive(Clone, Copy, Debug, PartialEq, Eq, Structural)]
pub struct BufferDescriptor {
    pub size: usize,
    pub usage: BufferUsage,
}

impl BufferDescriptor {
    pub fn empty() -> (d: Self)
        ensures
            d.size == 0,
            d.usage == BufferUsage::Vertex,
    {
        BufferDescriptor { size: 0, usage: BufferUsage::Vertex }
    }

    pub fn size(self, size: usize) -> (d: Self)
        ensures
            d == (Self { size, ..self }),
    {
        Self { size, ..self }
    }

    pub fn usage(self, usage: BufferUsage) -> (d: Self)
        ensures
            d == (Self { usage, ..self }),
    {
        Self { usage, ..self }
    }
}

/// The region after a write of `data` through a mapping of `region` into
/// a buffer of `size` bytes: the data when both lengths equal the size,
/// the region unchanged otherwise.
pub open spec fn write_effect(region: Seq<u8>, data: Seq<u8>, size: nat) -> Seq<u8> {
    if region.len() == size && data.len() == size {
        data
    } else {
        region
    }
}

/// A write succeeds when the mapped region and the data both have the
/// buffer's size.
pub open spec fn write_ok(region: Seq<u8>, data: Seq<u8>, size: nat) -> bool {
    region.len() == size && data.len() == size
}

/// What reading a buffer of `size` bytes back through a mapping of `region`
/// gives: the region's bytes, when it has the buffer's size.
pub open spec fn read_back(region: Seq<u8>, size: nat) -> Option<Seq<u8>> {
    if region.len() == size {
        Some(region)
    } else {
        None
    }
}

/// The parameters of a buffer: its size, its usage bit, used by one queue family.
#[derive(Clone, Copy, Debug, PartialEq, Eq, Structural)]
pub struct BufferCreateInfo {
    pub size: u64,
    pub usage: u32,
}

/// A GPU buffer that owns the one memory allocation backing it.
#[derive(Clone, Copy, Debug, PartialEq, Eq, Structural)]
pub struct Buffer {
    pub handle: u64,
    pub memory: DeviceMemory,
    pub size: usize,
}

impl Buffer {
    /// The parameters for creating a buffer from `descriptor`.
    pub fn create_info(descriptor: &BufferDescriptor) -> (i: BufferCreateInfo)
        ensures
            i.size == descriptor.size as u64,
            i.usage == descriptor.usage.flags_spec(),
    {
        BufferCreateInfo { size: descriptor.size as u64, usage: descriptor.usage.to_flags() }
    }

    /// The buffer that the driver created under `handle` for `descriptor`,
    /// with `memory` bound to it at offset 0.
    pub fn new(handle: u64, memory: DeviceMemory, descriptor: &BufferDescriptor) -> (b: Self)
        ensures
            b.handle == handle,
            b.memory == memory,
            b.size == descriptor.size,
    {
        Buffer { handle, memory, size: descriptor.size }
    }

    /// The size the buffer was created with, in bytes.
    pub fn size(&self) -> (s: u64)
        ensures
            s == self.size as u64,
    {
        self.size as u64
    }

    /// Copies `data` into the buffer's mapped memory, starting at offset 0.
    /// `MemoryMapFailed`, and nothing written, unless the data and the mapped
    /// region both have the buffer's size. The mapping stays open.
    pub fn write(&self, mapped: &mut [u8], data: &[u8]) -> (r: NxResult<()>)
        ensures
            r is Ok <==> write_ok(old(mapped)@, data@, self.size as nat),
            r is Err ==> r->Err_0 == NxError::MemoryMapFailed,
            final(mapped)@ == write_effect(old(mapped)@, data@, self.size as nat),
    {
        if mapped.len() != self.size || data.len() != self.size {
            return Err(NxError::MemoryMapFailed);
        }
        let n = data.len();
        let mut i: usize = 0;
        while i < n
            invariant
                n == data@.len(),
                mapped@.len() == n,
                i <= n,
                forall|j: int| 0 <= j < i ==> mapped@[j] == data@[j],
            decreases n - i,
        {
            mapped[i] = data[i];
            i = i + 1;
        }
        assert(mapped@ =~= data@);
        Ok(())
    }

    /// The bytes of the buffer, read through its mapped memory.
    /// `MemoryMapFailed` unless the mapped region has the buffer's size.
    pub fn read(&self, mapped: &[u8]) -> (r: NxResult<Vec<u8>>)
        ensures
            r is Ok <==> read_back(mapped@, self.size as nat) is Some,
            r is Ok ==> Some(r->Ok_0@) == read_back(mapped@, self.size as nat),
            r is Err ==> r->Err_0 == NxError::MemoryMapFailed,
    {
        if mapped.len() != self.size {
            return Err(NxError::MemoryMapFailed);
        }
        let mut out: Vec<u8> = Vec::new();
        let mut i: usize = 0;
        while i < mapped.len()
            invariant
                i <= mapped@.len(),
                out@ == mapped@.take(i as int),
            decreases mapped@.len() - i,
        {
            out.push(mapped[i]);
            assert(mapped@.take(i + 1) == mapped@.take(i as int).push(mapped@[i as int]));
            i = i + 1;
        }
        assert(mapped@.take(i as int) == mapped@);
        Ok(out)
    }
}

/// Writing N bytes to a buffer of N bytes and reading them back through the
/// same mapping gives the same N bytes.
pub proof fn lemma_write_read_round_trip(size: nat, region: Seq<u8>, data: Seq<u8>)
    requires
        region.len() == size,
        data.len() == size,
    ensures
        write_ok(region, data, size),
        read_back(write_effect(region, data, size), size) == Some(data),
{
}

} // verus!
