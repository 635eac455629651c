use vstd::prelude::*;

use crate::error::{error_of_code, NxError, NxResult, SUCCESS};
use crate::fence::{wait_outcome, FenceStatus, FenceWait};
use crate::queue::{Queue, SubmitInfo};
use crate::recorder::{CommandRecorder, RecorderState};
use crate::semaphore::Semaphore;
use crate::swapchain::{PresentInfo, Swapchain};

verus! {

/// Where the current frame stands.
#[derive(Clone, Copy, Debug, PartialEq, Eq, Structural)]
pub enum FramePhase {
    /// No frame in progress.
    Idle,
    /// An image was acquired; its fence is still pending from the image's previous use.
    Acquired { image: usize },
    /// The image's fence was waited on and is signaled.
    Waited { image: usize },
    /// The image's fence was reset: commands for the image may be submitted.
    Ready { image: usize },
    /// The image's commands were submitted: the image may be presented.
    Submitted { image: usize },
}

/// What a frame loop is: the phase of the current frame, what the host
/// knows of each image's fence, and for each image how many times its fence
/// was waited on, how many times it was reset, and how many frames were
/// submitted for it.
pub struct FrameModel {
    pub phase: FramePhase,
    pub fences: Seq<FenceStatus>,
    pub waits: Seq<u64>,
    pub resets: Seq<u64>,
    pub uses: Seq<u64>,
}

/// Image `i` is at rest: its fence is signaled or pending, and it was
/// waited on and reset once for each frame submitted for it.
pub open spec fn at_rest(m: FrameModel, i: int) -> bool {
    &&& m.fences[i] != FenceStatus::Unsignaled
    &&& m.waits[i] == m.uses[i]
    &&& m.resets[i] == m.uses[i]
}

/// The image that the current frame renders into, if any.
pub open spec fn current_image(p: FramePhase) -> Option<int> {
    match p {
        FramePhase::Idle => None,
        FramePhase::Acquired { image } => Some(image as int),
        FramePhase::Waited { image } => Some(image as int),
        FramePhase::Ready { image } => Some(image as int),
        FramePhase::Submitted { image } => Some(image as int),
    }
}

/// The frame loop's invariant. Every image but the current one is at rest.
/// The current image's fence and counts follow the protocol: pending after
/// acquire; signaled and waited once more after the wait; unsignaled and
/// reset once more after the reset; pending and used once more after the
/// submission.
pub open spec fn frame_wf(m: FrameModel) -> bool {
    &&& m.fences.len() == m.waits.len() && m.waits.len() == m.resets.len() && m.resets.len() == m.uses.len()
    &&& m.fences.len() <= u32::MAX
    &&& forall|i: int| 0 <= i < m.fences.len() && current_image(m.phase) != Some(i) ==> #[trigger] at_rest(m, i)
    &&& match m.phase {
        FramePhase::Idle => true,
        FramePhase::Acquired { image } => {
            &&& image < m.fences.len()
            &&& m.fences[image as int] == FenceStatus::Pending
            &&& m.waits[image as int] == m.uses[image as int]
            &&& m.resets[image as int] == m.uses[image as int]
            &&& m.uses[image as int] < u64::MAX
        },
        FramePhase::Waited { image } => {
            &&& image < m.fences.len()
            &&& m.fences[image as int] == FenceStatus::Signaled
            &&& m.waits[image as int] == m.uses[image as int] + 1
            &&& m.resets[image as int] == m.uses[image as int]
        },
        FramePhase::Ready { image } => {
            &&& image < m.fences.len()
            &&& m.fences[image as int] == FenceStatus::Unsignaled
            &&& m.waits[image as int] == m.uses[image as int] + 1
            &&& m.resets[image as int] == m.uses[image as int] + 1
        },
        FramePhase::Submitted { image } => {
            &&& image < m.fences.len()
            &&& at_rest(m, image as int)
            &&& m.fences[image as int] == FenceStatus::Pending
        },
    }
}

/// Drives the steady-state present protocol for a swapchain's images:
///
/// 1. an image index is acquired, signaling `image_available`;
/// 2. the host waits on the image's fence from its previous use, then resets it;
/// 3. commands for the image are submitted, waiting on `image_available`,
///    signaling `render_finished` and the image's fence;
/// 4. the image is presented after `render_finished`.
///
/// Each step is allowed only after the one before it, so the host never
/// reuses an image whose previous frame may still be running, and the GPU
/// never renders into an image before it was acquired.
pub struct FrameSync {
    fence_handles: Vec<u64>,
    fences: Vec<FenceStatus>,
    waits: Vec<u64>,
    resets: Vec<u64>,
    uses: Vec<u64>,
    image_available: Semaphore,
    render_finished: Semaphore,
    phase: FramePhase,
}

impl View for FrameSync {
    type V = FrameModel;

    closed spec fn view(&self) -> FrameModel {
        FrameModel {
            phase: self.phase,
            fences: self.fences@,
            waits: self.waits@,
            resets: self.resets@,
            uses: self.uses@,
        }
    }
}

impl FrameSync {
    /// The driver handles of the images' fences.
    pub closed spec fn fence_handles_spec(&self) -> Seq<u64> {
        self.fence_handles@
    }

    /// The semaphore that an acquire signals and a submission waits on.
    pub closed spec fn image_available_spec(&self) -> Semaphore {
        self.image_available
    }

    /// The semaphore that a submission signals and a presentation waits on.
    pub closed spec fn render_finished_spec(&self) -> Semaphore {
        self.render_finished
    }

    /// A frame loop over one fence per swapchain image, each created
    /// signaled so that the first use of an image does not block.
    pub fn new(fence_handles: &[u64], image_available: Semaphore, render_finished: Semaphore) -> (s: Self)
        requires
            fence_handles@.len() <= u32::MAX,
        ensures
            frame_wf(s@),
            s@.phase == FramePhase::Idle,
            s@.fences.len() == fence_handles@.len(),
            forall|i: int| 0 <= i < fence_handles@.len() ==> s@.fences[i] == FenceStatus::Signaled,
            forall|i: int|
                0 <= i < fence_handles@.len() ==> s@.waits[i] == 0 && s@.resets[i] == 0 && s@.uses[i]
                    == 0,
            s.fence_handles_spec() == fence_handles@,
            s.image_available_spec() == image_available,
            s.render_finished_spec() == render_finished,
    {
        let mut fences: Vec<FenceStatus> = Vec::new();
        let mut zeros: Vec<u64> = Vec::new();
        let mut i: usize = 0;
        while i < fence_handles.len()
            invariant
                i <= fence_handles@.len(),
                fences@.len() == i && zeros@.len() == i,
                forall|j: int| 0 <= j < i ==> fences@[j] == FenceStatus::Signaled && zeros@[j] == 0,
            decreases fence_handles@.len() - i,
        {
            fences.push(FenceStatus::Signaled);
            zeros.push(0);
            i = i + 1;
        }
        FrameSync {
            fence_handles: vstd::slice::slice_to_vec(fence_handles),
            fences,
            waits: zeros.clone(),
            resets: zeros.clone(),
            uses: zeros,
            image_available,
            render_finished,
            phase: FramePhase::Idle,
        }
    }

    pub fn phase(&self) -> (p: FramePhase)
        ensures
            p == self@.phase,
    {
        self.phase
    }

    /// How many times the fence of image `image` was waited on.
    pub fn waits(&self, image: usize) -> (n: u64)
        requires
            image < self@.waits.len(),
        ensures
            n == self@.waits[image as int],
    {
        self.waits[image]
    }

    /// How many times the fence of image `image` was reset.
    pub fn resets(&self, image: usize) -> (n: u64)
        requires
            image < self@.resets.len(),
        ensures
            n == self@.resets[image as int],
    {
        self.resets[image]
    }

    /// How many frames were submitted for image `image`.
    pub fn uses(&self, image: usize) -> (n: u64)
        requires
            image < self@.uses.len(),
        ensures
            n == self@.uses[image as int],
    {
        self.uses[image]
    }

    /// The semaphore that the acquire must signal.
    pub fn image_available(&self) -> (s: Semaphore)
        ensures
            s == self.image_available_spec(),
    {
        self.image_available
    }

    /// Step 1 and the start of step 2: image `image` was acquired. The wait
    /// on its fence is over at once when its previous frame is known to be
    /// complete; otherwise the driver must wait for at most `timeout`
    /// nanoseconds and report back through `fence_reported`.
    pub fn acquired(&mut self, image: usize, timeout: u64) -> (w: FenceWait)
        requires
            frame_wf(old(self)@),
            old(self)@.phase == FramePhase::Idle,
            image < old(self)@.fences.len(),
            old(self)@.uses[image as int] < u64::MAX,
        ensures
            frame_wf(final(self)@),
            w == wait_outcome(old(self)@.fences[image as int], timeout),
            old(self)@.fences[image as int] == FenceStatus::Signaled ==> final(self)@ == (FrameModel {
                phase: FramePhase::Waited { image },
                waits: old(self)@.waits.update(image as int, (old(self)@.waits[image as int] + 1) as u64),
                ..old(self)@
            }),
            old(self)@.fences[image as int] == FenceStatus::Pending ==> final(self)@ == (FrameModel {
                phase: FramePhase::Acquired { image },
                ..old(self)@
            }),
            final(self).fence_handles_spec() == old(self).fence_handles_spec(),
            final(self).image_available_spec() == old(self).image_available_spec(),
            final(self).render_finished_spec() == old(self).render_finished_spec(),
    {
        assert(at_rest(self@, image as int));
        match self.fences[image] {
            FenceStatus::Signaled => {
                let n = self.waits[image] + 1;
                self.waits.set(image, n);
                self.phase = FramePhase::Waited { image };
                assert forall|i: int|
                    0 <= i < self@.fences.len() && current_image(self@.phase) != Some(i) implies #[trigger] at_rest(
                    self@,
                    i,
                ) by {
                    assert(at_rest(old(self)@, i));
                }
                FenceWait::Signaled
            },
            _ => {
                self.phase = FramePhase::Acquired { image };
                assert forall|i: int|
                    0 <= i < self@.fences.len() && current_image(self@.phase) != Some(i) implies #[trigger] at_rest(
                    self@,
                    i,
                ) by {
                    assert(at_rest(old(self)@, i));
                }
                FenceWait::Block { timeout }
            },
        }
    }

    /// The rest of step 2's wait: what the driver reported for the wait on
    /// the current image's fence. Success signals the fence; a timeout or a
    /// failure is returned and the wait may be tried again.
    pub fn fence_reported(&mut self, code: i32) -> (r: NxResult<()>)
        requires
            frame_wf(old(self)@),
            old(self)@.phase is Acquired,
        ensures
            frame_wf(final(self)@),
            r is Ok <==> code == SUCCESS,
            r is Err ==> r->Err_0 == error_of_code(code) && final(self)@ == old(self)@,
            r is Ok ==> {
                let image = old(self)@.phase->Acquired_image as int;
                final(self)@ == (FrameModel {
                    phase: FramePhase::Waited { image: image as usize },
                    fences: old(self)@.fences.update(image, FenceStatus::Signaled),
                    waits: old(self)@.waits.update(image, (old(self)@.waits[image] + 1) as u64),
                    ..old(self)@
                })
            },
            final(self).fence_handles_spec() == old(self).fence_handles_spec(),
            final(self).image_available_spec() == old(self).image_available_spec(),
            final(self).render_finished_spec() == old(self).render_finished_spec(),
    {
        let image = match self.phase {
            FramePhase::Acquired { image } => image,
            _ => 0,
        };
        if code != SUCCESS {
            return Err(NxError::from_code(code));
        }
        let n = self.waits[image] + 1;
        self.waits.set(image, n);
        self.fences.set(image, FenceStatus::Signaled);
        self.phase = FramePhase::Waited { image };
        assert forall|i: int|
            0 <= i < self@.fences.len() && current_image(self@.phase) != Some(i) implies #[trigger] at_rest(
            self@,
            i,
        ) by {
            assert(at_rest(old(self)@, i));
        }
        Ok(())
    }

    /// The driver handle of the current image's fence, for its wait or reset.
    pub fn current_fence(&self) -> (h: u64)
        requires
            frame_wf(self@),
            !(self@.phase is Idle),
            self.fence_handles_spec().len() == self@.fences.len(),
        ensures
            h == self.fence_handles_spec()[current_image(self@.phase)->0],
    {
        let image = match self.phase {
            FramePhase::Acquired { image } => image,
            FramePhase::Waited { image } => image,
            FramePhase::Ready { image } => image,
            FramePhase::Submitted { image } => image,
            FramePhase::Idle => 0,
        };
        self.fence_handles[image]
    }

    /// The end of step 2: the current image's fence, waited on, was reset.
    pub fn fence_reset(&mut self)
        requires
            frame_wf(old(self)@),
            old(self)@.phase is Waited,
        ensures
            frame_wf(final(self)@),
            ({
                let image = old(self)@.phase->Waited_image as int;
                final(self)@ == (FrameModel {
                    phase: FramePhase::Ready { image: image as usize },
                    fences: old(self)@.fences.update(image, FenceStatus::Unsignaled),
                    resets: old(self)@.resets.update(image, (old(self)@.resets[image] + 1) as u64),
                    ..old(self)@
                })
            }),
            final(self).fence_handles_spec() == old(self).fence_handles_spec(),
            final(self).image_available_spec() == old(self).image_available_spec(),
            final(self).render_finished_spec() == old(self).render_finished_spec(),
    {
        let image = match self.phase {
            FramePhase::Waited { image } => image,
            _ => 0,
        };
        let n = self.resets[image] + 1;
        self.resets.set(image, n);
        self.fences.set(image, FenceStatus::Unsignaled);
        self.phase = FramePhase::Ready { image };
        assert forall|i: int|
            0 <= i < self@.fences.len() && current_image(self@.phase) != Some(i) implies #[trigger] at_rest(
            self@,
            i,
        ) by {
            assert(at_rest(old(self)@, i));
        }
    }

    /// Step 3: the submission of the current image's commands. It waits on
    /// `image_available`, and signals `render_finished` and the image's fence.
    pub fn submit_info(&self, recorders: &[CommandRecorder]) -> (r: SubmitInfo)
        requires
            frame_wf(self@),
            self@.phase is Ready,
            self.fence_handles_spec().len() == self@.fences.len(),
            forall|i: int| 0 <= i < recorders@.len() ==> (#[trigger] recorders@[i])@.state == RecorderState::Executable,
        ensures
            r.wait_semaphores@ == seq![self.image_available_spec().handle],
            r.signal_semaphores@ == seq![self.render_finished_spec().handle],
            r.fence == Some(self.fence_handles_spec()[self@.phase->Ready_image as int]),
            r.command_buffers@.len() == recorders@.len(),
            forall|i: int| 0 <= i < recorders@.len() ==> r.command_buffers@[i] == (#[trigger] recorders@[i]).raw_spec(),
    {
        let image = match self.phase {
            FramePhase::Ready { image } => image,
            _ => 0,
        };
        let mut buffers: Vec<u64> = Vec::new();
        let mut i: usize = 0;
        while i < recorders.len()
            invariant
                i <= recorders@.len(),
                buffers@.len() == i,
                forall|j: int| 0 <= j < i ==> buffers@[j] == (#[trigger] recorders@[j]).raw_spec(),
            decreases recorders@.len() - i,
        {
            buffers.push(recorders[i].raw());
            i = i + 1;
        }
        let mut wait: Vec<u64> = Vec::new();
        wait.push(self.image_available.handle);
        let mut signal: Vec<u64> = Vec::new();
        signal.push(self.render_finished.handle);
        assert(wait@ =~= seq![self.image_available.handle]);
        assert(signal@ =~= seq![self.render_finished.handle]);
        SubmitInfo {
            wait_semaphores: wait,
            signal_semaphores: signal,
            command_buffers: buffers,
            fence: Some(self.fence_handles[image]),
        }
    }

    /// The end of step 3: the driver accepted the submission. The image's
    /// fence is pending until the submitted work completes.
    pub fn submitted(&mut self)
        requires
            frame_wf(old(self)@),
            old(self)@.phase is Ready,
        ensures
            frame_wf(final(self)@),
            ({
                let image = old(self)@.phase->Ready_image as int;
                final(self)@ == (FrameModel {
                    phase: FramePhase::Submitted { image: image as usize },
                    fences: old(self)@.fences.update(image, FenceStatus::Pending),
                    uses: old(self)@.uses.update(image, (old(self)@.uses[image] + 1) as u64),
                    ..old(self)@
                })
            }),
            final(self).fence_handles_spec() == old(self).fence_handles_spec(),
            final(self).image_available_spec() == old(self).image_available_spec(),
            final(self).render_finished_spec() == old(self).render_finished_spec(),
    {
        let image = match self.phase {
            FramePhase::Ready { image } => image,
            _ => 0,
        };
        let n = self.uses[image] + 1;
        self.uses.set(image, n);
        self.fences.set(image, FenceStatus::Pending);
        self.phase = FramePhase::Submitted { image };
        assert forall|i: int|
            0 <= i < self@.fences.len() && current_image(self@.phase) != Some(i) implies #[trigger] at_rest(
            self@,
            i,
        ) by {
            assert(at_rest(old(self)@, i));
        }
    }

    /// Step 4: the presentation of the current image on `queue`, after
    /// `render_finished`.
    pub fn present_info(&self, swapchain: &Swapchain, queue: &Queue) -> (r: PresentInfo)
        requires
            frame_wf(self@),
            self@.phase is Submitted,
        ensures
            r.queue == queue.handle,
            r.wait_semaphores@ == seq![self.render_finished_spec().handle],
            r.swapchain == swapchain.handle,
            r.image_index == self@.phase->Submitted_image as u32,
    {
        let image = match self.phase {
            FramePhase::Submitted { image } => image,
            _ => 0,
        };
        let mut wait: Vec<u64> = Vec::new();
        wait.push(self.render_finished.handle);
        assert(wait@ =~= seq![self.render_finished.handle]);
        PresentInfo { queue: queue.handle, wait_semaphores: wait, swapchain: swapchain.handle, image_index: image as u32 }
    }

    /// The end of step 4: the image was handed to the presentation engine.
    pub fn presented(&mut self)
        requires
            frame_wf(old(self)@),
            old(self)@.phase is Submitted,
        ensures
            frame_wf(final(self)@),
            final(self)@ == (FrameModel { phase: FramePhase::Idle, ..old(self)@ }),
            final(self).fence_handles_spec() == old(self).fence_handles_spec(),
            final(self).image_available_spec() == old(self).image_available_spec(),
            final(self).render_finished_spec() == old(self).render_finished_spec(),
    {
        self.phase = FramePhase::Idle;
        assert forall|i: int|
            0 <= i < self@.fences.len() && current_image(self@.phase) != Some(i) implies #[trigger] at_rest(
            self@,
            i,
        ) by {
            assert(at_rest(old(self)@, i));
        }
    }
}

/// Between frames, every image's fence was waited on and reset exactly
/// once for each frame submitted for the image.
pub proof fn lemma_fence_waited_and_reset_once_per_use(m: FrameModel, i: int)
    requires
        frame_wf(m),
        m.phase == FramePhase::Idle,
        0 <= i < m.fences.len(),
    ensures
        m.waits[i] == m.uses[i],
        m.resets[i] == m.uses[i],
{
    assert(at_rest(m, i));
}

} // verus!
