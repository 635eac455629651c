use vstd::prelude::*;

use crate::error::{NxError, NxResult};
use crate::image::ImageView;
use crate::renderpass::RenderPass;

verus! {

/// Stores information needed to create a FrameBuffer.
#[derive(Clone, Copy, Debug, PartialEq, Eq, Structural)]
pub struct FrameBufferDescriptor {
    pub width: u32,
    pub height: u32,
    pub render_pass: Option<RenderPass>,
    pub image_view: Option<ImageView>,
}

impl FrameBufferDescriptor {
    /// Initializes a new descriptor with default values: 100 by 100, with
    /// no render pass and no image view yet.
    pub fn empty() -> (d: Self)
        ensures
            d.width == 100 && d.height == 100,
            d.render_pass is None && d.image_view is None,
    {
        FrameBufferDescriptor { width: 100, height: 100, render_pass: None, image_view: None }
    }

    /// Specifies the width of the FrameBuffer.
    pub fn width(self, width: u32) -> (d: Self)
        ensures
            d == (Self { width, ..self }),
    {
        Self { width, ..self }
    }

    /// Specifies the height of the FrameBuffer.
    pub fn height(self, height: u32) -> (d: Self)
        ensures
            d == (Self { height, ..self }),
    {
        Self { height, ..self }
    }

    /// ImageView used to create the FrameBuffer.
    pub fn image_view(self, image_view: &ImageView) -> (d: Self)
        ensures
            d == (Self { image_view: Some(*image_view), ..self }),
    {
        Self { image_view: Some(*image_view), ..self }
    }

    /// RenderPass used to create the FrameBuffer.
    pub fn render_pass(self, render_pass: &RenderPass) -> (d: Self)
        ensures
            d == (Self { render_pass: Some(*render_pass), ..self }),
    {
        Self { render_pass: Some(*render_pass), ..self }
    }
}

/// A frame buffer, by its driver handle, with the size it was made with.
#[derive(Clone, Copy, Debug, PartialEq, Eq, Structural)]
pub struct FrameBuffer {
    pub handle: u64,
    pub width: u32,
    pub height: u32,
}

impl FrameBuffer {
    /// The parameters of a frame buffer: its size, its render pass and its
    /// one attachment. `NoValue` when the descriptor lacks either of the last two.
    pub fn create_info(descriptor: &FrameBufferDescriptor) -> (r: NxResult<(RenderPass, ImageView)>)
        ensures
            r is Ok <==> (descriptor.render_pass is Some && descriptor.image_view is Some),
            r is Ok ==> r->Ok_0 == (descriptor.render_pass->0, descriptor.image_view->0),
            r is Err ==> r->Err_0 == NxError::NoValue,
    {
        match (descriptor.render_pass, descriptor.image_view) {
            (Some(rp), Some(iv)) => Ok((rp, iv)),
            _ => Err(NxError::NoValue),
        }
    }

    /// The frame buffer that the driver created under `handle` for `descriptor`.
    pub fn from_raw(handle: u64, descriptor: &FrameBufferDescriptor) -> (f: Self)
        ensures
            f.handle == handle,
            f.width == descriptor.width,
            f.height == descriptor.height,
    {
        FrameBuffer { handle, width: descriptor.width, height: descriptor.height }
    }
}

} // verus!
