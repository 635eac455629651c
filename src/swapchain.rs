use vstd::prelude::*;

use crate::error::{error_of_code, NxError, NxResult, ERROR_OUT_OF_DATE};
use crate::image::{Image, ImageFormat};
use crate::queue::{semaphore_handles, handles_of, QueuePresentDescriptor};

verus! {

/// How well a swapchain still fits its surface after an acquire.
#[derive(Clone, Copy, Debug, PartialEq, Eq, Structural)]
pub enum SwapchainState {
    /// It fits.
    Normal,
    /// Presentation works, but the swapchain should be recreated.
    SubOptimal,
    /// The surface changed: the swapchain must be recreated; the image index is meaningless.
    Broken,
}

/// What a surface allows, as the driver reports it.
#[derive(Clone, Copy, Debug, PartialEq, Eq, Structural)]
pub struct SurfaceCapabilities {
    pub min_image_count: u32,
    /// 0 when there is no upper bound.
    pub max_image_count: u32,
    pub current_width: u32,
    pub current_height: u32,
    pub current_transform: u32,
}

/// One format a surface supports.
#[derive(Clone, Copy, Debug, PartialEq, Eq, Structural)]
pub struct SurfaceFormat {
    pub format: i32,
    pub color_space: i32,
}

/// The parameters of a swapchain: color attachment images of one layer,
/// used by one queue family, clipped.
#[derive(Clone, Copy, Debug, PartialEq, Eq, Structural)]
pub struct SwapchainCreateInfo {
    pub min_image_count: u32,
    pub format: i32,
    pub color_space: i32,
    pub present_mode: i32,
    pub width: u32,
    pub height: u32,
    pub pre_transform: u32,
}

/// One image more than the surface's minimum, kept within its maximum.
pub open spec fn image_count_for(caps: SurfaceCapabilities) -> u32 {
    let wanted = if caps.min_image_count < u32::MAX {
        (caps.min_image_count + 1) as u32
    } else {
        caps.min_image_count
    };
    if caps.max_image_count != 0 && wanted > caps.max_image_count {
        caps.max_image_count
    } else {
        wanted
    }
}

/// One presentation as the driver takes it.
#[derive(Clone, Debug, PartialEq, Eq)]
pub struct PresentInfo {
    pub queue: u64,
    pub wait_semaphores: Vec<u64>,
    pub swapchain: u64,
    pub image_index: u32,
}

/// The rotating set of presentable images of a surface.
#[derive(Clone, Copy, Debug, PartialEq, Eq, Structural)]
pub struct Swapchain {
    pub handle: u64,
    pub format: ImageFormat,
}

impl Swapchain {
    /// The parameters of a swapchain for a surface: one image more than its
    /// minimum (within its maximum), its first format and present mode, its
    /// current size and transform. `HardwareError` when the adapter cannot
    /// present; `NoValue` when the surface reports no format or no present mode.
    pub fn create_info(
        supports_swapchain: bool,
        capabilities: &SurfaceCapabilities,
        formats: &[SurfaceFormat],
        present_modes: &[i32],
    ) -> (r: NxResult<SwapchainCreateInfo>)
        ensures
            !supports_swapchain ==> r == Err::<SwapchainCreateInfo, NxError>(NxError::HardwareError),
            supports_swapchain && (formats@.len() == 0 || present_modes@.len() == 0) ==> r == Err::<
                SwapchainCreateInfo,
                NxError,
            >(NxError::NoValue),
            supports_swapchain && formats@.len() > 0 && present_modes@.len() > 0 ==> r == Ok::<
                SwapchainCreateInfo,
                NxError,
            >(
                SwapchainCreateInfo {
                    min_image_count: image_count_for(*capabilities),
                    format: formats@[0].format,
                    color_space: formats@[0].color_space,
                    present_mode: present_modes@[0],
                    width: capabilities.current_width,
                    height: capabilities.current_height,
                    pre_transform: capabilities.current_transform,
                },
            ),
    {
        if !supports_swapchain {
            return Err(NxError::HardwareError);
        }
        if formats.len() == 0 || present_modes.len() == 0 {
            return Err(NxError::NoValue);
        }
        let wanted = if capabilities.min_image_count < u32::MAX {
            capabilities.min_image_count + 1
        } else {
            capabilities.min_image_count
        };
        let count = if capabilities.max_image_count != 0 && wanted > capabilities.max_image_count {
            capabilities.max_image_count
        } else {
            wanted
        };
        Ok(
            SwapchainCreateInfo {
                min_image_count: count,
                format: formats[0].format,
                color_space: formats[0].color_space,
                present_mode: present_modes[0],
                width: capabilities.current_width,
                height: capabilities.current_height,
                pre_transform: capabilities.current_transform,
            },
        )
    }

    /// The swapchain that the driver created under `handle` from `info`.
    pub fn from_raw(handle: u64, info: &SwapchainCreateInfo) -> (s: Self)
        ensures
            s.handle == handle,
            s.format == ImageFormat::from_raw_spec(info.format),
    {
        Swapchain { handle, format: ImageFormat::from_raw(info.format) }
    }

    pub fn format(&self) -> (f: ImageFormat)
        ensures
            f == self.format,
    {
        self.format
    }

    /// The image index and state of an acquire, from what the driver
    /// reported: an index and whether the swapchain is suboptimal, or a
    /// status code. An out-of-date swapchain is `Broken`; any other failure
    /// is an error.
    pub fn acquire_next_image(outcome: Result<(u32, bool), i32>) -> (r: NxResult<(usize, SwapchainState)>)
        ensures
            match outcome {
                Ok((i, suboptimal)) => r == Ok::<(usize, SwapchainState), NxError>(
                    (
                        i as usize,
                        if suboptimal {
                            SwapchainState::SubOptimal
                        } else {
                            SwapchainState::Normal
                        },
                    ),
                ),
                Err(code) => if code == ERROR_OUT_OF_DATE {
                    r == Ok::<(usize, SwapchainState), NxError>((0usize, SwapchainState::Broken))
                } else {
                    r == Err::<(usize, SwapchainState), NxError>(error_of_code(code))
                },
            },
    {
        match outcome {
            Ok((i, suboptimal)) => {
                let state = if suboptimal {
                    SwapchainState::SubOptimal
                } else {
                    SwapchainState::Normal
                };
                Ok((i as usize, state))
            },
            Err(code) => if code == ERROR_OUT_OF_DATE {
                Ok((0, SwapchainState::Broken))
            } else {
                Err(NxError::from_code(code))
            },
        }
    }

    /// The presentation of image `image` on the descriptor's queue, after
    /// its wait semaphores. `NoValue` when the descriptor names no queue.
    pub fn present(&self, descriptor: &QueuePresentDescriptor, image: u32) -> (r: NxResult<PresentInfo>)
        ensures
            descriptor.queue is None ==> r == Err::<PresentInfo, NxError>(NxError::NoValue),
            descriptor.queue is Some ==> r is Ok && r->Ok_0.queue == descriptor.queue->0.handle
                && r->Ok_0.wait_semaphores@ == semaphore_handles(descriptor.wait_semaphores@)
                && r->Ok_0.swapchain == self.handle && r->Ok_0.image_index == image,
    {
        match descriptor.queue {
            None => Err(NxError::NoValue),
            Some(q) => Ok(
                PresentInfo {
                    queue: q.handle,
                    wait_semaphores: handles_of(descriptor.wait_semaphores.as_slice()),
                    swapchain: self.handle,
                    image_index: image,
                },
            ),
        }
    }

    /// The swapchain's images, which it owns; `NoValue` when there is none.
    pub fn images(&self, handles: &[u64]) -> (r: NxResult<Vec<Image>>)
        ensures
            handles@.len() == 0 ==> r == Err::<Vec<Image>, NxError>(NxError::NoValue),
            handles@.len() > 0 ==> r is Ok && r->Ok_0@.len() == handles@.len() && forall|i: int|
                0 <= i < handles@.len() ==> #[trigger] r->Ok_0@[i] == Image::from_raw_spec(handles@[i]),
    {
        if handles.len() == 0 {
            return Err(NxError::NoValue);
        }
        let mut v: Vec<Image> = Vec::new();
        let mut i: usize = 0;
        while i < handles.len()
            invariant
                i <= handles@.len(),
                v@.len() == i,
                forall|j: int| 0 <= j < i ==> #[trigger] v@[j] == Image::from_raw_spec(handles@[j]),
            decreases handles@.len() - i,
        {
            v.push(Image::from_raw(handles[i]));
            i = i + 1;
        }
        Ok(v)
    }
}

} // verus!
