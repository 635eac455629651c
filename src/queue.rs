use vstd::prelude::*;

use crate::fence::Fence;
use crate::recorder::{CommandRecorder, RecorderState};
use crate::semaphore::Semaphore;

verus! {

/// The driver handles of semaphores, in order.
pub open spec fn semaphore_handles(s: Seq<Semaphore>) -> Seq<u64> {
    s.map_values(|x: Semaphore| x.handle)
}

/// The driver handles of semaphores, in order.
pub fn handles_of(semaphores: &[Semaphore]) -> (r: Vec<u64>)
    ensures
        r@ == semaphore_handles(semaphores@),
{
    let mut v: Vec<u64> = Vec::new();
    let mut i: usize = 0;
    while i < semaphores.len()
        invariant
            i <= semaphores@.len(),
            v@ == semaphore_handles(semaphores@.take(i as int)),
        decreases semaphores@.len() - i,
    {
        v.push(semaphores[i].handle);
        assert(semaphores@.take(i + 1) == semaphores@.take(i as int).push(semaphores@[i as int]));
        i = i + 1;
    }
    assert(semaphores@.take(i as int) == semaphores@);
    v
}

#[derive(Clone, Debug, PartialEq, Eq)]
pub struct QueuePresentDescriptor {
    pub wait_semaphores: Vec<Semaphore>,
    pub signal_semaphores: Vec<Semaphore>,
    pub queue: Option<Queue>,
}

impl QueuePresentDescriptor {
    /// Initializes a new descriptor with default values.
    pub fn empty() -> (d: Self)
        ensures
            d.wait_semaphores@.len() == 0 && d.signal_semaphores@.len() == 0,
            d.queue is None,
    {
        QueuePresentDescriptor { wait_semaphores: Vec::new(), signal_semaphores: Vec::new(), queue: None }
    }

    /// Array to waiting semaphore.
    pub fn wait_semaphores(self, semaphore: &[Semaphore]) -> (d: Self)
        ensures
            d.wait_semaphores@ == semaphore@,
            d.signal_semaphores@ == self.signal_semaphores@,
            d.queue == self.queue,
    {
        QueuePresentDescriptor { wait_semaphores: vstd::slice::slice_to_vec(semaphore), ..self }
    }

    /// Array to semaphore to signal state.
    pub fn signal_semaphores(self, semaphore: &[Semaphore]) -> (d: Self)
        ensures
            d.wait_semaphores@ == self.wait_semaphores@,
            d.signal_semaphores@ == semaphore@,
            d.queue == self.queue,
    {
        QueuePresentDescriptor { signal_semaphores: vstd::slice::slice_to_vec(semaphore), ..self }
    }

    /// Queue to present.
    pub fn queue(self, queue: &Queue) -> (d: Self)
        ensures
            d.wait_semaphores@ == self.wait_semaphores@,
            d.signal_semaphores@ == self.signal_semaphores@,
            d.queue == Some(*queue),
    {
        QueuePresentDescriptor { queue: Some(*queue), ..self }
    }
}

#[derive(Clone, Debug, PartialEq, Eq)]
pub struct QueueSubmitDescriptor {
    pub wait_semaphores: Vec<Semaphore>,
    pub signal_semaphores: Vec<Semaphore>,
    /// The driver handle of the fence to signal, if any.
    pub fence: Option<u64>,
}

impl QueueSubmitDescriptor {
    /// Initializes a new descriptor with default values.
    pub fn empty() -> (d: Self)
        ensures
            d.wait_semaphores@.len() == 0 && d.signal_semaphores@.len() == 0,
            d.fence is None,
    {
        QueueSubmitDescriptor { wait_semaphores: Vec::new(), signal_semaphores: Vec::new(), fence: None }
    }

    /// The fence to signal when the submitted work completes.
    pub fn fence(self, fence: &Fence) -> (d: Self)
        ensures
            d.wait_semaphores@ == self.wait_semaphores@,
            d.signal_semaphores@ == self.signal_semaphores@,
            d.fence == Some(fence.raw_spec()),
    {
        QueueSubmitDescriptor { fence: Some(fence.raw()), ..self }
    }

    /// Array to waiting semaphore.
    pub fn wait_semaphores(self, semaphores: &[Semaphore]) -> (d: Self)
        ensures
            d.wait_semaphores@ == semaphores@,
            d.signal_semaphores@ == self.signal_semaphores@,
            d.fence == self.fence,
    {
        QueueSubmitDescriptor { wait_semaphores: vstd::slice::slice_to_vec(semaphores), ..self }
    }

    /// Array to semaphore to signal state.
    pub fn signal_semaphores(self, semaphores: &[Semaphore]) -> (d: Self)
        ensures
            d.wait_semaphores@ == self.wait_semaphores@,
            d.signal_semaphores@ == semaphores@,
            d.fence == self.fence,
    {
        QueueSubmitDescriptor { signal_semaphores: vstd::slice::slice_to_vec(semaphores), ..self }
    }
}

/// One submission as the driver takes it: the driver starts the command
/// buffers once every wait semaphore is signaled, and signals every signal
/// semaphore and the fence once they complete.
#[derive(Clone, Debug, PartialEq, Eq)]
pub struct SubmitInfo {
    pub wait_semaphores: Vec<u64>,
    pub signal_semaphores: Vec<u64>,
    pub command_buffers: Vec<u64>,
    pub fence: Option<u64>,
}

/// A device queue, by its driver handle.
#[derive(Clone, Copy, Debug, PartialEq, Eq, Structural)]
pub struct Queue {
    pub handle: u64,
}

impl Queue {
    pub fn from_raw(handle: u64) -> (q: Self)
        ensures
            q.handle == handle,
    {
        Queue { handle }
    }

    /// The submission of `recorders`, in order, under the descriptor's
    /// semaphores and fence. Every recorder must have ended recording.
    pub fn submit(&self, descriptor: &QueueSubmitDescriptor, recorders: &[CommandRecorder]) -> (r:
        SubmitInfo)
        requires
            forall|i: int| 0 <= i < recorders@.len() ==> (#[trigger] recorders@[i])@.state == RecorderState::Executable,
        ensures
            r.wait_semaphores@ == semaphore_handles(descriptor.wait_semaphores@),
            r.signal_semaphores@ == semaphore_handles(descriptor.signal_semaphores@),
            r.fence == descriptor.fence,
            r.command_buffers@.len() == recorders@.len(),
            forall|i: int| 0 <= i < recorders@.len() ==> r.command_buffers@[i] == (#[trigger] recorders@[i]).raw_spec(),
    {
        let mut buffers: Vec<u64> = Vec::new();
        let mut i: usize = 0;
        while i < recorders.len()
            invariant
                i <= recorders@.len(),
                buffers@.len() == i,
                forall|j: int| 0 <= j < i ==> buffers@[j] == (#[trigger] recorders@[j]).raw_spec(),
            decreases recorders@.len() - i,
        {
            buffers.push(recorders[i].raw());
            i = i + 1;
        }
        SubmitInfo {
            wait_semaphores: handles_of(descriptor.wait_semaphores.as_slice()),
            signal_semaphores: handles_of(descriptor.signal_semaphores.as_slice()),
            command_buffers: buffers,
            fence: descriptor.fence,
        }
    }
}

} // verus!
