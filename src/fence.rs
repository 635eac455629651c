use vstd::prelude::*;

use crate::error::{error_of_code, NxError, NxResult, SUCCESS, TIMEOUT};

verus! {

/// Fence creation flag: the fence starts signaled.
pub const FENCE_CREATE_SIGNALED_BIT: u32 = 1;

/// Stores information needed to create a Fence.
#[derive(Clone, Copy, Debug, PartialEq, Eq, Structural)]
pub struct FenceDescriptor {
    pub signaled: bool,
}

impl FenceDescriptor {
    /// Initializes a new descriptor with default values: unsignaled.
    pub fn empty() -> (d: Self)
        ensures
            !d.signaled,
    {
        FenceDescriptor { signaled: false }
    }

    /// Put the fence in signal state.
    pub fn signaled(self, signaled: bool) -> (d: Self)
        ensures
            d.signaled == signaled,
    {
        FenceDescriptor { signaled }
    }
}

/// What the host knows of a fence.
#[derive(Clone, Copy, Debug, PartialEq, Eq, Structural)]
pub enum FenceStatus {
    /// Unsignaled, and no submission will signal it.
    Unsignaled,
    /// A submission will signal it when its work completes.
    Pending,
    /// Signaled.
    Signaled,
}

/// What a wait on a fence comes to.
#[derive(Clone, Copy, Debug, PartialEq, Eq, Structural)]
pub enum FenceWait {
    /// The fence is signaled: the wait is over without blocking.
    Signaled,
    /// Nothing will signal the fence: the wait times out.
    TimedOut,
    /// Work that signals the fence is in flight: the driver must be waited
    /// on for at most `timeout` nanoseconds.
    Block { timeout: u64 },
}

impl FenceWait {
    /// The result of the wait, when it needs no driver wait.
    pub fn outcome(self) -> (r: Option<NxResult<()>>)
        ensures
            self is Signaled ==> r == Some(Ok::<(), NxError>(())),
            self is TimedOut ==> r == Some(Err::<(), NxError>(NxError::InternalError(TIMEOUT))),
            self is Block ==> r is None,
    {
        match self {
            FenceWait::Signaled => Some(Ok(())),
            FenceWait::TimedOut => Some(Err(NxError::InternalError(TIMEOUT))),
            FenceWait::Block { .. } => None,
        }
    }
}

/// The status of a fence just created from `d`.
pub open spec fn created_status(d: FenceDescriptor) -> FenceStatus {
    if d.signaled {
        FenceStatus::Signaled
    } else {
        FenceStatus::Unsignaled
    }
}

/// What a wait of at most `timeout` nanoseconds comes to on a fence of `status`.
pub open spec fn wait_outcome(status: FenceStatus, timeout: u64) -> FenceWait {
    match status {
        FenceStatus::Signaled => FenceWait::Signaled,
        FenceStatus::Unsignaled => FenceWait::TimedOut,
        FenceStatus::Pending => FenceWait::Block { timeout },
    }
}

/// The status of a fence after a driver wait that reported `code`.
pub open spec fn reported_status(code: i32) -> FenceStatus {
    if code == SUCCESS {
        FenceStatus::Signaled
    } else {
        FenceStatus::Pending
    }
}

/// A GPU-to-CPU completion signal, and what the host knows of it.
pub struct Fence {
    handle: u64,
    status: FenceStatus,
}

impl View for Fence {
    type V = FenceStatus;

    closed spec fn view(&self) -> FenceStatus {
        self.status
    }
}

impl Fence {
    /// The driver handle of the fence.
    pub closed spec fn raw_spec(&self) -> u64 {
        self.handle
    }

    /// The creation flags for a fence described by `descriptor`.
    pub fn create_flags(descriptor: &FenceDescriptor) -> (f: u32)
        ensures
            f == if descriptor.signaled {
                FENCE_CREATE_SIGNALED_BIT
            } else {
                0
            },
    {
        if descriptor.signaled {
            FENCE_CREATE_SIGNALED_BIT
        } else {
            0
        }
    }

    /// The fence that the driver created under `handle` from `descriptor`.
    pub fn new(handle: u64, descriptor: &FenceDescriptor) -> (f: Self)
        ensures
            f@ == created_status(*descriptor),
            f.raw_spec() == handle,
    {
        let status = if descriptor.signaled {
            FenceStatus::Signaled
        } else {
            FenceStatus::Unsignaled
        };
        Fence { handle, status }
    }

    /// The driver handle of the fence.
    pub fn raw(&self) -> (h: u64)
        ensures
            h == self.raw_spec(),
    {
        self.handle
    }

    pub fn status(&self) -> (s: FenceStatus)
        ensures
            s == self@,
    {
        self.status
    }

    /// What a wait of at most `timeout` nanoseconds comes to: over at once
    /// on a signaled fence, a timeout on a fence that nothing will signal,
    /// and a driver wait while a submission is pending.
    pub fn wait(&self, timeout: u64) -> (w: FenceWait)
        ensures
            w == wait_outcome(self@, timeout),
    {
        match self.status {
            FenceStatus::Signaled => FenceWait::Signaled,
            FenceStatus::Unsignaled => FenceWait::TimedOut,
            FenceStatus::Pending => FenceWait::Block { timeout },
        }
    }

    /// Takes in what a driver wait on the pending fence reported: success
    /// signals the fence; a timeout or a failure leaves it pending and is
    /// returned as an error.
    pub fn wait_reported(&mut self, code: i32) -> (r: NxResult<()>)
        requires
            old(self)@ == FenceStatus::Pending,
        ensures
            final(self)@ == reported_status(code),
            r is Ok <==> code == SUCCESS,
            r is Err ==> r->Err_0 == error_of_code(code),
            final(self).raw_spec() == old(self).raw_spec(),
    {
        if code == SUCCESS {
            self.status = FenceStatus::Signaled;
            Ok(())
        } else {
            Err(NxError::from_code(code))
        }
    }

    /// Reset fence status. A fence that a pending submission will signal
    /// cannot be reset.
    pub fn reset(&mut self)
        requires
            old(self)@ != FenceStatus::Pending,
        ensures
            final(self)@ == FenceStatus::Unsignaled,
            final(self).raw_spec() == old(self).raw_spec(),
    {
        self.status = FenceStatus::Unsignaled;
    }

    /// Records that a submission will signal the fence. Only an unsignaled
    /// fence can be handed to a submission.
    pub fn submitted(&mut self)
        requires
            old(self)@ == FenceStatus::Unsignaled,
        ensures
            final(self)@ == FenceStatus::Pending,
            final(self).raw_spec() == old(self).raw_spec(),
    {
        self.status = FenceStatus::Pending;
    }
}

/// A fence created signaled satisfies a wait at once, whatever its timeout
/// (0 included), without blocking; once reset, the same wait times out.
pub proof fn lemma_signaled_fence_then_reset(timeout: u64)
    ensures
        wait_outcome(created_status(FenceDescriptor { signaled: true }), timeout) == FenceWait::Signaled,
        wait_outcome(FenceStatus::Unsignaled, timeout) == FenceWait::TimedOut,
{
}

} // verus!
