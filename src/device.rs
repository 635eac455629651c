use vstd::prelude::*;

use crate::adapter::DeviceConnecter;
use crate::buffer::Buffer;
use crate::error::{NxError, NxResult};
use crate::fence::Fence;
use crate::frame_buffer::FrameBuffer;
use crate::image::{Image, ImageView};
use crate::mem::DeviceMemory;
use crate::pipeline::{Pipeline, PipelineLayout, Resource, ResourceLayout, ResourcePool};
use crate::recorder::CommandPool;
use crate::renderpass::RenderPass;
use crate::semaphore::Semaphore;
use crate::shader::Shader;

verus! {

/// The kinds of object a device creates and must destroy.
#[derive(Clone, Copy, Debug, PartialEq, Eq, Structural)]
pub enum ResourceKind {
    Memory,
    Buffer,
    Image,
    ImageView,
    Shader,
    RenderPass,
    FrameBuffer,
    PipelineLayout,
    Pipeline,
    ResourceLayout,
    ResourcePool,
    Resource,
    CommandPool,
    Fence,
    Semaphore,
}

/// One object created from a device, by kind and driver handle.
#[derive(Clone, Copy, Debug, PartialEq, Eq, Structural)]
pub struct Child {
    pub kind: ResourceKind,
    pub handle: u64,
}

/// Implemented by objects that a device destroys. The device, not the
/// object, performs the destruction.
pub trait Destroy {
    spec fn child_spec(&self) -> Child;

    /// The object, as its device knows it.
    fn child(&self) -> (c: Child)
        ensures
            c == self.child_spec(),
    ;
}

/// A logical device: its driver handle, the queue family it was opened
/// for, and the objects created from it that are still alive, in order of
/// creation.
pub struct Device {
    handle: u64,
    queue_family_index: usize,
    children: Vec<Child>,
}

/// The objects of `live` that remain once `c` is destroyed: all but its
/// first occurrence.
pub open spec fn without_first(live: Seq<Child>, c: Child) -> Seq<Child> {
    let i = choose|i: int| 0 <= i < live.len() && live[i] == c && forall|j: int| 0 <= j < i ==> live[j] != c;
    live.remove(i)
}

impl View for Device {
    type V = Seq<Child>;

    closed spec fn view(&self) -> Seq<Child> {
        self.children@
    }
}

impl Device {
    pub closed spec fn raw_spec(&self) -> u64 {
        self.handle
    }

    pub closed spec fn queue_family_spec(&self) -> usize {
        self.queue_family_index
    }

    /// The device that the driver opened under `handle` on `connecter`'s
    /// adapter and queue family; nothing is created from it yet.
    pub fn from_raw(handle: u64, connecter: &DeviceConnecter) -> (d: Self)
        ensures
            d@ == Seq::<Child>::empty(),
            d.raw_spec() == handle,
            d.queue_family_spec() == connecter.queue_family_index,
    {
        Device { handle, queue_family_index: connecter.queue_family_index, children: Vec::new() }
    }

    pub fn raw(&self) -> (h: u64)
        ensures
            h == self.raw_spec(),
    {
        self.handle
    }

    pub fn queue_family_index(&self) -> (i: usize)
        ensures
            i == self.queue_family_spec(),
    {
        self.queue_family_index
    }

    /// The objects created from the device that are still alive, oldest first.
    pub fn live(&self) -> (c: &Vec<Child>)
        ensures
            c@ == self@,
    {
        &self.children
    }

    /// Records an object just created from the device.
    pub fn adopt<D: Destroy>(&mut self, object: &D)
        ensures
            final(self)@ == old(self)@.push(object.child_spec()),
            final(self).raw_spec() == old(self).raw_spec(),
            final(self).queue_family_spec() == old(self).queue_family_spec(),
    {
        self.children.push(object.child());
    }

    /// Destroys an object created from the device: it is taken off the live
    /// list. `NoValue`, and nothing changed, when it is not alive on this
    /// device (already destroyed, or created elsewhere).
    pub fn destroy<D: Destroy>(&mut self, object: &D) -> (r: NxResult<Child>)
        ensures
            r is Ok <==> old(self)@.contains(object.child_spec()),
            r is Ok ==> r->Ok_0 == object.child_spec() && final(self)@ == without_first(
                old(self)@,
                object.child_spec(),
            ),
            r is Err ==> r->Err_0 == NxError::NoValue && final(self)@ == old(self)@,
            final(self).raw_spec() == old(self).raw_spec(),
            final(self).queue_family_spec() == old(self).queue_family_spec(),
    {
        let c = object.child();
        let mut i: usize = 0;
        while i < self.children.len()
            invariant
                i <= self@.len(),
                self@ == old(self)@,
                self.raw_spec() == old(self).raw_spec(),
                self.queue_family_spec() == old(self).queue_family_spec(),
                c == object.child_spec(),
                forall|j: int| 0 <= j < i ==> self@[j] != c,
            decreases self@.len() - i,
        {
            if self.children[i] == c {
                let ghost live = self@;
                let ghost k = choose|k: int|
                    0 <= k < live.len() && live[k] == c && forall|j: int| 0 <= j < k ==> live[j] != c;
                assert(0 <= i < live.len() && live[i as int] == c && forall|j: int|
                    0 <= j < i ==> live[j] != c);
                assert(k == i) by {
                    if k < i {
                        assert(live[k] != c);
                    } else if k > i {
                        assert(live[i as int] != c);
                    }
                }
                self.children.remove(i);
                return Ok(c);
            }
            i = i + 1;
        }
        assert(!old(self)@.contains(c)) by {
            if old(self)@.contains(c) {
                let k = choose|k: int| 0 <= k < old(self)@.len() && old(self)@[k] == c;
                assert(self@[k] != c);
            }
        }
        Err(NxError::NoValue)
    }

    /// The objects still alive on the device, newest first: the order in
    /// which they are destroyed before the device itself. The live list is
    /// then empty.
    pub fn teardown(&mut self) -> (r: Vec<Child>)
        ensures
            r@ == old(self)@.reverse(),
            final(self)@ == Seq::<Child>::empty(),
            final(self).raw_spec() == old(self).raw_spec(),
            final(self).queue_family_spec() == old(self).queue_family_spec(),
    {
        let mut out: Vec<Child> = Vec::new();
        let n = self.children.len();
        let mut i: usize = n;
        while i > 0
            invariant
                i <= n,
                n == self@.len(),
                self@ == old(self)@,
                out@ == self@.subrange(i as int, n as int).reverse(),
            decreases i,
        {
            i = i - 1;
            out.push(self.children[i]);
            assert(self@.subrange(i as int, n as int).reverse() =~= self@.subrange(i + 1, n as int).reverse().push(self@[i as int]));
        }
        assert(self@.subrange(0, n as int) =~= self@);
        self.children = Vec::new();
        assert(self.children@ =~= Seq::<Child>::empty());
        out
    }
}

impl Destroy for DeviceMemory {
    open spec fn child_spec(&self) -> Child {
        Child { kind: ResourceKind::Memory, handle: self.handle }
    }

    fn child(&self) -> (c: Child) {
        Child { kind: ResourceKind::Memory, handle: self.handle }
    }
}

impl Destroy for Buffer {
    open spec fn child_spec(&self) -> Child {
        Child { kind: ResourceKind::Buffer, handle: self.handle }
    }

    fn child(&self) -> (c: Child) {
        Child { kind: ResourceKind::Buffer, handle: self.handle }
    }
}

impl Destroy for Image {
    open spec fn child_spec(&self) -> Child {
        Child { kind: ResourceKind::Image, handle: self.handle }
    }

    fn child(&self) -> (c: Child) {
        Child { kind: ResourceKind::Image, handle: self.handle }
    }
}

impl Destroy for ImageView {
    open spec fn child_spec(&self) -> Child {
        Child { kind: ResourceKind::ImageView, handle: self.handle }
    }

    fn child(&self) -> (c: Child) {
        Child { kind: ResourceKind::ImageView, handle: self.handle }
    }
}

impl Destroy for Shader {
    open spec fn child_spec(&self) -> Child {
        Child { kind: ResourceKind::Shader, handle: self.handle }
    }

    fn child(&self) -> (c: Child) {
        Child { kind: ResourceKind::Shader, handle: self.handle }
    }
}

impl Destroy for RenderPass {
    open spec fn child_spec(&self) -> Child {
        Child { kind: ResourceKind::RenderPass, handle: self.handle }
    }

    fn child(&self) -> (c: Child) {
        Child { kind: ResourceKind::RenderPass, handle: self.handle }
    }
}

impl Destroy for FrameBuffer {
    open spec fn child_spec(&self) -> Child {
        Child { kind: ResourceKind::FrameBuffer, handle: self.handle }
    }

    fn child(&self) -> (c: Child) {
        Child { kind: ResourceKind::FrameBuffer, handle: self.handle }
    }
}

impl Destroy for PipelineLayout {
    open spec fn child_spec(&self) -> Child {
        Child { kind: ResourceKind::PipelineLayout, handle: self.handle }
    }

    fn child(&self) -> (c: Child) {
        Child { kind: ResourceKind::PipelineLayout, handle: self.handle }
    }
}

impl Destroy for Pipeline {
    open spec fn child_spec(&self) -> Child {
        Child { kind: ResourceKind::Pipeline, handle: self.handle }
    }

    fn child(&self) -> (c: Child) {
        Child { kind: ResourceKind::Pipeline, handle: self.handle }
    }
}

impl Destroy for ResourceLayout {
    open spec fn child_spec(&self) -> Child {
        Child { kind: ResourceKind::ResourceLayout, handle: self.handle }
    }

    fn child(&self) -> (c: Child) {
        Child { kind: ResourceKind::ResourceLayout, handle: self.handle }
    }
}

impl Destroy for ResourcePool {
    open spec fn child_spec(&self) -> Child {
        Child { kind: ResourceKind::ResourcePool, handle: self.handle }
    }

    fn child(&self) -> (c: Child) {
        Child { kind: ResourceKind::ResourcePool, handle: self.handle }
    }
}

impl Destroy for Resource {
    open spec fn child_spec(&self) -> Child {
        Child { kind: ResourceKind::Resource, handle: self.descriptor_set }
    }

    fn child(&self) -> (c: Child) {
        Child { kind: ResourceKind::Resource, handle: self.descriptor_set }
    }
}

impl Destroy for CommandPool {
    open spec fn child_spec(&self) -> Child {
        Child { kind: ResourceKind::CommandPool, handle: self.handle }
    }

    fn child(&self) -> (c: Child) {
        Child { kind: ResourceKind::CommandPool, handle: self.handle }
    }
}

impl Destroy for Fence {
    open spec fn child_spec(&self) -> Child {
        Child { kind: ResourceKind::Fence, handle: self.raw_spec() }
    }

    fn child(&self) -> (c: Child) {
        Child { kind: ResourceKind::Fence, handle: self.raw() }
    }
}

impl Destroy for Semaphore {
    open spec fn child_spec(&self) -> Child {
        Child { kind: ResourceKind::Semaphore, handle: self.handle }
    }

    fn child(&self) -> (c: Child) {
        Child { kind: ResourceKind::Semaphore, handle: self.handle }
    }
}

} // verus!
