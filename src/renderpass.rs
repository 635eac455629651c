use vstd::prelude::*;

use crate::frame_buffer::FrameBuffer;
use crate::pipeline::BindPoint;

verus! {

/// Attachment load operation code: keep the previous contents.
pub const ATTACHMENT_LOAD_OP_LOAD: i32 = 0;

/// Attachment load operation code: clear to the clear color.
pub const ATTACHMENT_LOAD_OP_CLEAR: i32 = 1;

/// Attachment load operation code: previous contents are undefined.
pub const ATTACHMENT_LOAD_OP_DONT_CARE: i32 = 2;

/// Attachment store operation code: write the contents back.
pub const ATTACHMENT_STORE_OP_STORE: i32 = 0;

/// Attachment store operation code: the contents are not needed afterwards.
pub const ATTACHMENT_STORE_OP_DONT_CARE: i32 = 1;

/// A clear color, each channel given by the bits of its 32-bit float.
#[derive(Clone, Copy, Debug, PartialEq, Eq, Structural)]
pub struct ClearColor {
    pub r: u32,
    pub g: u32,
    pub b: u32,
    pub a: u32,
}

/// The bits of the float 1.0.
pub const FLOAT_ONE_BITS: u32 = 0x3f80_0000;

/// Stores information needed to start a render pass.
#[derive(Clone, Copy, Debug, PartialEq, Eq, Structural)]
pub struct RenderPassBeginDescriptor {
    pub frame_buffer: Option<FrameBuffer>,
    pub render_pass: Option<RenderPass>,
    pub width: u32,
    pub height: u32,
    pub x: u32,
    pub y: u32,
    pub clear_color: ClearColor,
}

impl RenderPassBeginDescriptor {
    /// Initializes a new descriptor with default values: a 100 by 100
    /// region at the origin, cleared to opaque black, with no render pass.
    pub fn empty() -> (d: Self)
        ensures
            d.frame_buffer is None,
            d.render_pass is None,
            d.width == 100 && d.height == 100 && d.x == 0 && d.y == 0,
            d.clear_color == (ClearColor { r: 0, g: 0, b: 0, a: FLOAT_ONE_BITS }),
    {
        RenderPassBeginDescriptor {
            frame_buffer: None,
            render_pass: None,
            width: 100,
            height: 100,
            x: 0,
            y: 0,
            clear_color: ClearColor { r: 0, g: 0, b: 0, a: FLOAT_ONE_BITS },
        }
    }

    /// Specifies the width of the RenderPass.
    pub fn width(self, width: u32) -> (d: Self)
        ensures
            d == (Self { width, ..self }),
    {
        Self { width, ..self }
    }

    /// Specifies the height of the RenderPass.
    pub fn height(self, height: u32) -> (d: Self)
        ensures
            d == (Self { height, ..self }),
    {
        Self { height, ..self }
    }

    /// Specifies the clear color by the bits of each channel's 32-bit float.
    pub fn clear_bits(self, r: u32, g: u32, b: u32, a: u32) -> (d: Self)
        ensures
            d == (Self { clear_color: ClearColor { r, g, b, a }, ..self }),
    {
        Self { clear_color: ClearColor { r, g, b, a }, ..self }
    }

    pub fn frame_buffer(self, frame_buffer: &FrameBuffer) -> (d: Self)
        ensures
            d == (Self { frame_buffer: Some(*frame_buffer), ..self }),
    {
        Self { frame_buffer: Some(*frame_buffer), ..self }
    }

    pub fn render_pass(self, render_pass: &RenderPass) -> (d: Self)
        ensures
            d == (Self { render_pass: Some(*render_pass), ..self }),
    {
        Self { render_pass: Some(*render_pass), ..self }
    }
}

/// What happens to an attachment's contents when a render pass starts.
#[derive(Clone, Copy, Debug, PartialEq, Eq, Structural)]
pub enum LoadOp {
    Load,
    Clear,
    DontCare,
}

impl LoadOp {
    /// The driver's code for this operation.
    pub fn to_raw(self) -> (c: i32)
        ensures
            c == match self {
                LoadOp::Load => ATTACHMENT_LOAD_OP_LOAD,
                LoadOp::Clear => ATTACHMENT_LOAD_OP_CLEAR,
                LoadOp::DontCare => ATTACHMENT_LOAD_OP_DONT_CARE,
            },
    {
        match self {
            LoadOp::Load => ATTACHMENT_LOAD_OP_LOAD,
            LoadOp::Clear => ATTACHMENT_LOAD_OP_CLEAR,
            LoadOp::DontCare => ATTACHMENT_LOAD_OP_DONT_CARE,
        }
    }
}

/// What happens to an attachment's contents when a render pass ends.
#[derive(Clone, Copy, Debug, PartialEq, Eq, Structural)]
pub enum StoreOp {
    Store,
    DontCare,
}

impl StoreOp {
    pub open spec fn raw_spec(self) -> i32 {
        match self {
            StoreOp::Store => ATTACHMENT_STORE_OP_STORE,
            StoreOp::DontCare => ATTACHMENT_STORE_OP_DONT_CARE,
        }
    }

    /// The driver's code for this operation.
    pub fn to_raw(self) -> (c: i32)
        ensures
            c == self.raw_spec(),
    {
        match self {
            StoreOp::Store => ATTACHMENT_STORE_OP_STORE,
            StoreOp::DontCare => ATTACHMENT_STORE_OP_DONT_CARE,
        }
    }
}

/// Stores information needed to create a subpass.
#[derive(Clone, Copy, Debug, PartialEq, Eq, Structural)]
pub struct SubPassDescriptor {
    pub bind_point: BindPoint,
}

impl SubPassDescriptor {
    /// Initializes a new descriptor with default values.
    pub fn empty() -> (d: Self)
        ensures
            d.bind_point == BindPoint::Graphics,
    {
        SubPassDescriptor { bind_point: BindPoint::Graphics }
    }
}

/// A subpass: one color attachment, attachment 0, used in the color attachment layout.
#[derive(Clone, Copy, Debug, PartialEq, Eq, Structural)]
pub struct SubPass {
    pub bind_point: BindPoint,
    pub color_attachment: u32,
}

impl SubPass {
    /// A subpass that draws into attachment 0 at the descriptor's bind point.
    pub fn new(descriptor: &SubPassDescriptor) -> (s: Self)
        ensures
            s.bind_point == descriptor.bind_point,
            s.color_attachment == 0,
    {
        SubPass { bind_point: descriptor.bind_point, color_attachment: 0 }
    }
}

/// Stores information needed to create a RenderPass.
#[derive(Clone, Debug)]
pub struct RenderPassDescriptor {
    pub load_op: LoadOp,
    pub store_op: StoreOp,
    pub subpasses: Vec<SubPass>,
}

impl RenderPassDescriptor {
    /// Initializes a new descriptor with default values.
    pub fn empty() -> (d: Self)
        ensures
            d.load_op == LoadOp::DontCare,
            d.store_op == StoreOp::Store,
            d.subpasses@.len() == 0,
    {
        RenderPassDescriptor { load_op: LoadOp::DontCare, store_op: StoreOp::Store, subpasses: Vec::new() }
    }

    pub fn load_op(self, load_op: LoadOp) -> (d: Self)
        ensures
            d.load_op == load_op,
            d.store_op == self.store_op,
            d.subpasses@ == self.subpasses@,
    {
        RenderPassDescriptor { load_op, ..self }
    }

    pub fn store_op(self, store_op: StoreOp) -> (d: Self)
        ensures
            d.load_op == self.load_op,
            d.store_op == store_op,
            d.subpasses@ == self.subpasses@,
    {
        RenderPassDescriptor { store_op, ..self }
    }

    pub fn subpasses(self, subpasses: &[SubPass]) -> (d: Self)
        ensures
            d.load_op == self.load_op,
            d.store_op == self.store_op,
            d.subpasses@ == subpasses@,
    {
        RenderPassDescriptor { subpasses: vstd::slice::slice_to_vec(subpasses), ..self }
    }
}

/// The color attachment format of every render pass: 8-bit RGBA, normalized.
pub const RENDER_PASS_COLOR_FORMAT: i32 = 37;

/// The parameters of a render pass: one color attachment of
/// [`RENDER_PASS_COLOR_FORMAT`], one sample, cleared when the pass starts,
/// stored as the descriptor says, going from an undefined layout to the
/// general layout; and the descriptor's subpasses.
#[derive(Clone, Debug, PartialEq, Eq)]
pub struct RenderPassCreateInfo {
    pub color_format: i32,
    pub load_op: i32,
    pub store_op: i32,
    pub subpasses: Vec<SubPass>,
}

/// A render pass, by its driver handle.
#[derive(Clone, Copy, Debug, PartialEq, Eq, Structural)]
pub struct RenderPass {
    pub handle: u64,
}

impl RenderPass {
    /// The parameters of a render pass made from `descriptor`. The color
    /// attachment is always cleared, so that a render pass begun with a
    /// clear color applies it.
    pub fn create_info(descriptor: &RenderPassDescriptor) -> (i: RenderPassCreateInfo)
        ensures
            i.color_format == RENDER_PASS_COLOR_FORMAT,
            i.load_op == ATTACHMENT_LOAD_OP_CLEAR,
            i.store_op == descriptor.store_op.raw_spec(),
            i.subpasses@ == descriptor.subpasses@,
    {
        RenderPassCreateInfo {
            color_format: RENDER_PASS_COLOR_FORMAT,
            load_op: LoadOp::Clear.to_raw(),
            store_op: descriptor.store_op.to_raw(),
            subpasses: vstd::slice::slice_to_vec(descriptor.subpasses.as_slice()),
        }
    }

    pub fn from_raw(handle: u64) -> (r: Self)
        ensures
            r.handle == handle,
    {
        RenderPass { handle }
    }
}

} // verus!
