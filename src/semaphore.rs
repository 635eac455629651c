use vstd::prelude::*;

verus! {

/// Stores information needed to create a Semaphore.
#[derive(Clone, Copy, Debug, PartialEq, Eq, Structural)]
pub struct SemaphoreDescriptor {}

impl SemaphoreDescriptor {
    /// Initializes a new descriptor with default values.
    pub fn empty() -> (d: Self)
        ensures
            d == (SemaphoreDescriptor {}),
    {
        SemaphoreDescriptor {  }
    }
}

/// A GPU-to-GPU ordering signal, by its driver handle. It has no state the
/// host can see.
#[derive(Clone, Copy, Debug, PartialEq, Eq, Structural)]
pub struct Semaphore {
    pub handle: u64,
}

impl Semaphore {
    /// The semaphore that the driver created under `handle`.
    pub fn new(handle: u64, descriptor: &SemaphoreDescriptor) -> (s: Self)
        ensures
            s.handle == handle,
    {
        Semaphore { handle }
    }
}

} // verus!
