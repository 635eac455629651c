use vstd::prelude::*;

verus! {

/// Queue capability bit: the family can run graphics work.
pub const QUEUE_GRAPHICS_BIT: u32 = 1;

/// Queue capability bit: the family can run compute work.
pub const QUEUE_COMPUTE_BIT: u32 = 2;

/// Queue capability bit: the family can run transfer work.
pub const QUEUE_TRANSFER_BIT: u32 = 4;

/// What one queue family of an adapter can do.
#[derive(Clone, Copy, Debug, PartialEq, Eq, Structural)]
pub struct QueueFamilyProperties {
    pub graphic_support: bool,
    pub compute_support: bool,
    pub transfer_support: bool,
    pub queue_count: u32,
}

impl QueueFamilyProperties {
    /// A family with the given capabilities and number of queues.
    pub fn new(graphic: bool, compute: bool, transfer: bool, queue_count: u32) -> (p: Self)
        ensures
            p.graphic_support == graphic,
            p.compute_support == compute,
            p.transfer_support == transfer,
            p.queue_count == queue_count,
    {
        QueueFamilyProperties {
            graphic_support: graphic,
            compute_support: compute,
            transfer_support: transfer,
            queue_count,
        }
    }

    /// The family that capability bits and a queue count describe.
    pub open spec fn from_flags_spec(queue_flags: u32, queue_count: u32) -> Self {
        QueueFamilyProperties {
            graphic_support: queue_flags & QUEUE_GRAPHICS_BIT != 0,
            compute_support: queue_flags & QUEUE_COMPUTE_BIT != 0,
            transfer_support: queue_flags & QUEUE_TRANSFER_BIT != 0,
            queue_count,
        }
    }

    /// The family that the driver describes by its capability bits and queue count.
    pub fn from_flags(queue_flags: u32, queue_count: u32) -> (p: Self)
        ensures
            p == Self::from_flags_spec(queue_flags, queue_count),
    {
        QueueFamilyProperties {
            graphic_support: queue_flags & QUEUE_GRAPHICS_BIT != 0,
            compute_support: queue_flags & QUEUE_COMPUTE_BIT != 0,
            transfer_support: queue_flags & QUEUE_TRANSFER_BIT != 0,
            queue_count,
        }
    }

    pub fn count(&self) -> (c: u32)
        ensures
            c == self.queue_count,
    {
        self.queue_count
    }

    /// Check to see if the graphic is supported
    pub fn is_graphic_support(&self) -> (b: bool)
        ensures
            b == self.graphic_support,
    {
        self.graphic_support
    }

    /// Check to see if the compute is supported
    pub fn is_compute_support(&self) -> (b: bool)
        ensures
            b == self.compute_support,
    {
        self.compute_support
    }

    /// Check to see if the transfer is supported
    pub fn is_transfer_support(&self) -> (b: bool)
        ensures
            b == self.transfer_support,
    {
        self.transfer_support
    }
}

/// An adapter, by its place in the driver's enumeration, together with the
/// queue family that was selected on it.
#[derive(Clone, Copy, Debug, PartialEq, Eq, Structural)]
pub struct DeviceConnecter {
    pub adapter_index: usize,
    pub queue_family_index: usize,
}

impl DeviceConnecter {
    pub fn new(adapter_index: usize, queue_family_index: usize) -> (c: Self)
        ensures
            c.adapter_index == adapter_index,
            c.queue_family_index == queue_family_index,
    {
        DeviceConnecter { adapter_index, queue_family_index }
    }

    /// The adapter's place in the driver's enumeration.
    pub fn adapter(&self) -> (i: usize)
        ensures
            i == self.adapter_index,
    {
        self.adapter_index
    }

    /// The queue family selected on the adapter.
    pub fn queue_family(&self) -> (i: usize)
        ensures
            i == self.queue_family_index,
    {
        self.queue_family_index
    }
}

} // verus!
