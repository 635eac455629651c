use vstd::prelude::*;

use crate::error::{NxError, NxResult};
use crate::mem::DeviceMemory;

verus! {

/// Indicates the format of the image.
#[derive(Clone, Copy, Debug, PartialEq, Eq, Structural)]
pub enum ImageFormat {
    R8G8B8A8Unorm,
    R8G8B8A8Srgb,
    R8G8B8A8Sscaled,
    R8G8B8A8Sint,
    R8G8B8A8Snorm,
    R8G8B8A8Uint,
    B8G8R8Sscaled,
    B8G8R8Srgb,
    B8G8R8Snorm,
    B8G8R8Sint,
    A1R5G5B5UnormPack16,
    A2B10G10R10SintPack32,
    A2B10G10R10SnormPack32,
    A2B10G10R10SscaledPack32,
    A2B10G10R10UintPack32,
    Undefined,
    B8G8R8A8Unorm,
}

impl ImageFormat {
    /// The driver's code for a format.
    pub open spec fn raw_spec(self) -> i32 {
        match self {
            ImageFormat::R8G8B8A8Unorm => 37,
            ImageFormat::R8G8B8A8Srgb => 43,
            ImageFormat::R8G8B8A8Sscaled => 40,
            ImageFormat::R8G8B8A8Sint => 42,
            ImageFormat::R8G8B8A8Snorm => 38,
            ImageFormat::R8G8B8A8Uint => 41,
            ImageFormat::B8G8R8Sscaled => 33,
            ImageFormat::B8G8R8Srgb => 36,
            ImageFormat::B8G8R8Snorm => 31,
            ImageFormat::B8G8R8Sint => 35,
            ImageFormat::A1R5G5B5UnormPack16 => 8,
            ImageFormat::A2B10G10R10SintPack32 => 69,
            ImageFormat::A2B10G10R10SnormPack32 => 65,
            ImageFormat::A2B10G10R10SscaledPack32 => 67,
            ImageFormat::A2B10G10R10UintPack32 => 68,
            ImageFormat::Undefined => 0,
            ImageFormat::B8G8R8A8Unorm => 44,
        }
    }

    /// The format that a driver code stands for; `Undefined` for a code of
    /// no format listed here.
    pub open spec fn from_raw_spec(code: i32) -> ImageFormat {
        if code == 37 {
            ImageFormat::R8G8B8A8Unorm
        } else if code == 43 {
            ImageFormat::R8G8B8A8Srgb
        } else if code == 40 {
            ImageFormat::R8G8B8A8Sscaled
        } else if code == 42 {
            ImageFormat::R8G8B8A8Sint
        } else if code == 38 {
            ImageFormat::R8G8B8A8Snorm
        } else if code == 41 {
            ImageFormat::R8G8B8A8Uint
        } else if code == 33 {
            ImageFormat::B8G8R8Sscaled
        } else if code == 36 {
            ImageFormat::B8G8R8Srgb
        } else if code == 31 {
            ImageFormat::B8G8R8Snorm
        } else if code == 35 {
            ImageFormat::B8G8R8Sint
        } else if code == 8 {
            ImageFormat::A1R5G5B5UnormPack16
        } else if code == 69 {
            ImageFormat::A2B10G10R10SintPack32
        } else if code == 65 {
            ImageFormat::A2B10G10R10SnormPack32
        } else if code == 67 {
            ImageFormat::A2B10G10R10SscaledPack32
        } else if code == 68 {
            ImageFormat::A2B10G10R10UintPack32
        } else if code == 44 {
            ImageFormat::B8G8R8A8Unorm
        } else {
            ImageFormat::Undefined
        }
    }

    /// The driver's code for this format.
    pub fn to_raw(self) -> (c: i32)
        ensures
            c == self.raw_spec(),
    {
        match self {
            ImageFormat::R8G8B8A8Unorm => 37,
            ImageFormat::R8G8B8A8Srgb => 43,
            ImageFormat::R8G8B8A8Sscaled => 40,
            ImageFormat::R8G8B8A8Sint => 42,
            ImageFormat::R8G8B8A8Snorm => 38,
            ImageFormat::R8G8B8A8Uint => 41,
            ImageFormat::B8G8R8Sscaled => 33,
            ImageFormat::B8G8R8Srgb => 36,
            ImageFormat::B8G8R8Snorm => 31,
            ImageFormat::B8G8R8Sint => 35,
            ImageFormat::A1R5G5B5UnormPack16 => 8,
            ImageFormat::A2B10G10R10SintPack32 => 69,
            ImageFormat::A2B10G10R10SnormPack32 => 65,
            ImageFormat::A2B10G10R10SscaledPack32 => 67,
            ImageFormat::A2B10G10R10UintPack32 => 68,
            ImageFormat::Undefined => 0,
            ImageFormat::B8G8R8A8Unorm => 44,
        }
    }

    /// The format that a driver code stands for; `Undefined` for a code of
    /// no format listed here.
    pub fn from_raw(code: i32) -> (f: ImageFormat)
        ensures
            f == Self::from_raw_spec(code),
    {
        if code == 37 {
            ImageFormat::R8G8B8A8Unorm
        } else if code == 43 {
            ImageFormat::R8G8B8A8Srgb
        } else if code == 40 {
            ImageFormat::R8G8B8A8Sscaled
        } else if code == 42 {
            ImageFormat::R8G8B8A8Sint
        } else if code == 38 {
            ImageFormat::R8G8B8A8Snorm
        } else if code == 41 {
            ImageFormat::R8G8B8A8Uint
        } else if code == 33 {
            ImageFormat::B8G8R8Sscaled
        } else if code == 36 {
            ImageFormat::B8G8R8Srgb
        } else if code == 31 {
            ImageFormat::B8G8R8Snorm
        } else if code == 35 {
            ImageFormat::B8G8R8Sint
        } else if code == 8 {
            ImageFormat::A1R5G5B5UnormPack16
        } else if code == 69 {
            ImageFormat::A2B10G10R10SintPack32
        } else if code == 65 {
            ImageFormat::A2B10G10R10SnormPack32
        } else if code == 67 {
            ImageFormat::A2B10G10R10SscaledPack32
        } else if code == 68 {
            ImageFormat::A2B10G10R10UintPack32
        } else if code == 44 {
            ImageFormat::B8G8R8A8Unorm
        } else {
            ImageFormat::Undefined
        }
    }
}

/// Driver code of a two-dimensional image.
pub const IMAGE_TYPE_2D: i32 = 1;

/// Driver code of a three-dimensional image.
pub const IMAGE_TYPE_3D: i32 = 2;

/// Represents the dimension of the image.
#[derive(Clone, Copy, Debug, PartialEq, Eq, Structural)]
pub enum ImageDimension {
    D2,
    D3,
}

impl ImageDimension {
    /// The driver's code for this dimension.
    pub fn to_raw(self) -> (c: i32)
        ensures
            c == match self {
                ImageDimension::D2 => IMAGE_TYPE_2D,
                ImageDimension::D3 => IMAGE_TYPE_3D,
            },
    {
        match self {
            ImageDimension::D2 => IMAGE_TYPE_2D,
            ImageDimension::D3 => IMAGE_TYPE_3D,
        }
    }
}

#[derive(Clone, Copy, Debug, PartialEq, Eq, Structural)]
pub struct Extent3d {
    pub width: u32,
    pub height: u32,
    pub depth: u32,
}

impl Extent3d {
    pub fn new(width: u32, height: u32, depth: u32) -> (e: Self)
        ensures
            e.width == width && e.height == height && e.depth == depth,
    {
        Extent3d { width, height, depth }
    }

    pub fn width(&self) -> (w: u32)
        ensures
            w == self.width,
    {
        self.width
    }

    pub fn height(&self) -> (h: u32)
        ensures
            h == self.height,
    {
        self.height
    }

    pub fn depth(&self) -> (d: u32)
        ensures
            d == self.depth,
    {
        self.depth
    }
}

/// Stores information needed to create a Image.
#[derive(Clone, Copy, Debug, PartialEq, Eq, Structural)]
pub struct ImageDescriptor {
    pub image_type: ImageDimension,
    pub extent: Extent3d,
    pub mip_levels: u32,
    pub array_layers: u32,
    pub format: ImageFormat,
}

impl ImageDescriptor {
    /// Initializes a new descriptor with default values: a 100 by 100 by 1
    /// two-dimensional image, one mip level, one layer, 8-bit RGBA.
    pub fn new() -> (d: Self)
        ensures
            d.image_type == ImageDimension::D2,
            d.extent == (Extent3d { width: 100, height: 100, depth: 1 }),
            d.mip_levels == 1 && d.array_layers == 1,
            d.format == ImageFormat::R8G8B8A8Unorm,
    {
        ImageDescriptor {
            image_type: ImageDimension::D2,
            extent: Extent3d { width: 100, height: 100, depth: 1 },
            mip_levels: 1,
            array_layers: 1,
            format: ImageFormat::R8G8B8A8Unorm,
        }
    }

    /// Specifies the dimension of the Image.
    pub fn image_type(self, image_type: ImageDimension) -> (d: Self)
        ensures
            d == (Self { image_type, ..self }),
    {
        Self { image_type, ..self }
    }

    /// Specifies the extent of the Image.
    pub fn extent(self, extent: Extent3d) -> (d: Self)
        ensures
            d == (Self { extent, ..self }),
    {
        Self { extent, ..self }
    }

    /// Specifies the format of the Image.
    pub fn format(self, format: ImageFormat) -> (d: Self)
        ensures
            d == (Self { format, ..self }),
    {
        Self { format, ..self }
    }
}

/// Stores information needed to create an ImageView.
#[derive(Clone, Copy, Debug, PartialEq, Eq, Structural)]
pub struct ImageViewDescriptor {
    pub format: ImageFormat,
}

impl ImageViewDescriptor {
    pub fn empty() -> (d: Self)
        ensures
            d.format == ImageFormat::R8G8B8A8Unorm,
    {
        ImageViewDescriptor { format: ImageFormat::R8G8B8A8Unorm }
    }

    pub fn format(self, format: ImageFormat) -> (d: Self)
        ensures
            d.format == format,
    {
        ImageViewDescriptor { format }
    }
}

/// The parameters of an image: linear tiling, one sample, used as a color
/// attachment by one queue family, starting in an undefined layout.
#[derive(Clone, Copy, Debug, PartialEq, Eq, Structural)]
pub struct ImageCreateInfo {
    pub image_type: i32,
    pub extent: Extent3d,
    pub mip_levels: u32,
    pub array_layers: u32,
    pub format: i32,
}

/// An image. Images that the library allocated own their memory; images of
/// a swapchain own none.
#[derive(Clone, Copy, Debug, PartialEq, Eq, Structural)]
pub struct Image {
    pub handle: u64,
    pub memory: Option<DeviceMemory>,
}

/// The byte count of a `width` by `height` region of four bytes per texel.
pub open spec fn raw_data_len(width: u32, height: u32) -> int {
    width as int * height as int * 4
}

impl Image {
    /// The parameters of an image made from `descriptor`.
    pub fn create_info(descriptor: &ImageDescriptor) -> (i: ImageCreateInfo)
        ensures
            i.image_type == (if descriptor.image_type == ImageDimension::D2 {
                IMAGE_TYPE_2D
            } else {
                IMAGE_TYPE_3D
            }),
            i.extent == descriptor.extent,
            i.mip_levels == descriptor.mip_levels,
            i.array_layers == descriptor.array_layers,
            i.format == descriptor.format.raw_spec(),
    {
        ImageCreateInfo {
            image_type: descriptor.image_type.to_raw(),
            extent: descriptor.extent,
            mip_levels: descriptor.mip_levels,
            array_layers: descriptor.array_layers,
            format: descriptor.format.to_raw(),
        }
    }

    /// An image without memory of its own.
    pub open spec fn from_raw_spec(handle: u64) -> Self {
        Image { handle, memory: None }
    }

    /// An image that the library does not own the memory of.
    pub fn from_raw(handle: u64) -> (i: Self)
        ensures
            i == Self::from_raw_spec(handle),
    {
        Image { handle, memory: None }
    }

    /// An image backed by `memory`, bound at offset 0.
    pub fn with_memory(handle: u64, memory: DeviceMemory) -> (i: Self)
        ensures
            i.handle == handle,
            i.memory == Some(memory),
    {
        Image { handle, memory: Some(memory) }
    }

    /// The first `width * height * 4` bytes of the image's mapped memory.
    /// `NoValue` for an image without memory of its own; `MemoryMapFailed`
    /// when the mapped region is shorter than that.
    pub fn as_raw_data(&self, mapped: &[u8], width: u32, height: u32) -> (r: NxResult<Vec<u8>>)
        ensures
            self.memory is None ==> r == Err::<Vec<u8>, NxError>(NxError::NoValue),
            self.memory is Some && raw_data_len(width, height) > mapped@.len() ==> r == Err::<
                Vec<u8>,
                NxError,
            >(NxError::MemoryMapFailed),
            self.memory is Some && raw_data_len(width, height) <= mapped@.len() ==> r is Ok
                && r->Ok_0@ == mapped@.subrange(0, raw_data_len(width, height)),
    {
        if self.memory.is_none() {
            return Err(NxError::NoValue);
        }
        assert(width as int * height as int <= u32::MAX as int * u32::MAX as int) by (nonlinear_arith)
            requires
                width <= u32::MAX,
                height <= u32::MAX,
        ;
        let texels = width as u64 * height as u64;
        if texels > mapped.len() as u64 / 4 {
            return Err(NxError::MemoryMapFailed);
        }
        let n = (texels * 4) as usize;
        let mut out: Vec<u8> = Vec::new();
        let mut i: usize = 0;
        while i < n
            invariant
                n == raw_data_len(width, height),
                n <= mapped@.len(),
                i <= n,
                out@ == mapped@.subrange(0, i as int),
            decreases n - i,
        {
            out.push(mapped[i]);
            i = i + 1;
        }
        Ok(out)
    }

    /// Create a image view from self.
    pub fn create_image_view(&self, handle: u64, descriptor: &ImageViewDescriptor) -> (v: ImageView)
        ensures
            v.handle == handle,
            v.image == self.handle,
            v.format == descriptor.format,
    {
        ImageView { handle, image: self.handle, format: descriptor.format }
    }
}

/// A view of an image: the same storage read in a given format. A view owns
/// no memory.
#[derive(Clone, Copy, Debug, PartialEq, Eq, Structural)]
pub struct ImageView {
    pub handle: u64,
    pub image: u64,
    pub format: ImageFormat,
}

} // verus!
