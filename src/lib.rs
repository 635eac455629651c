//! Nexg: a low-level GPU API layer over a native explicit graphics driver.
//!
//! The library holds the decisions that the driver leaves to its caller:
//! which adapter and queue family serve a request, which memory type backs a
//! resource, in which order a command recorder may be driven, when a fence
//! may be waited on or reset, and how a frame moves through the
//! acquire, wait, submit and present steps. Every decision is a verified
//! function over plain values; the calls into the driver itself are made by
//! the embedding program, which hands back what the driver reported.

mod adapter;
mod buffer;
mod device;
mod error;
mod fence;
mod frame;
mod frame_buffer;
mod image;
mod instance;
mod mem;
mod pipeline;
mod queue;
mod recorder;
mod renderpass;
mod semaphore;
mod shader;
mod swapchain;

pub use adapter::{
    DeviceConnecter, QueueFamilyProperties, QUEUE_COMPUTE_BIT, QUEUE_GRAPHICS_BIT,
    QUEUE_TRANSFER_BIT,
};
pub use buffer::{
    lemma_write_read_round_trip, Buffer, BufferCreateInfo, BufferDescriptor, BufferUsage,
    BUFFER_USAGE_INDEX_BIT, BUFFER_USAGE_VERTEX_BIT,
};
pub use error::{
    NxError, NxResult, ERROR_MEMORY_MAP_FAILED, ERROR_OUT_OF_DATE, ERROR_OUT_OF_DEVICE_MEMORY,
    ERROR_OUT_OF_HOST_MEMORY, SUBOPTIMAL, SUCCESS, TIMEOUT,
};
pub use frame_buffer::{FrameBuffer, FrameBufferDescriptor};
pub use image::{
    Extent3d, Image, ImageCreateInfo, ImageDescriptor, ImageDimension, ImageFormat, ImageView,
    ImageViewDescriptor, IMAGE_TYPE_2D, IMAGE_TYPE_3D,
};
pub use instance::{
    api_version_parts, enumerate_connecters, get_queue_family_properties, has_extension,
    message_level, request_connecter, request_connecters, MessageLevel,
    RequestConnecterDescriptor, MESSAGE_SEVERITY_ERROR, MESSAGE_SEVERITY_INFO,
    MESSAGE_SEVERITY_VERBOSE, MESSAGE_SEVERITY_WARNING,
};
pub use mem::{
    find_memory_type, DeviceMemory, MemoryAllocateInfo, MemoryRequirements, MemoryType,
    MEMORY_PROPERTY_DEVICE_LOCAL, MEMORY_PROPERTY_HOST_COHERENT, MEMORY_PROPERTY_HOST_VISIBLE,
};
pub use pipeline::{
    BindPoint, DataFormat, LayoutBindingInfo, Pipeline, PipelineCreateInfo, PipelineDescriptor,
    PipelineLayout, PipelineLayoutDescriptor, PipelineVertexInputDescriptor, PrimitiveTopology,
    Resource, ResourceBufferDescriptor, ResourceWrite, ResourceLayout, ResourceLayoutBinding, ResourcePool,
    ResourcePoolDescriptor, ResourcePoolSize, ResourceType, ResourceUpdateDescriptor,
    ShaderStageInfo, VertexAttributeInfo, VertexBindingInfo, VertexInputAttributeDescriptor,
    VertexInputBindingDescriptor, DESCRIPTOR_TYPE_UNIFORM_BUFFER,
};
pub use renderpass::{
    ClearColor, LoadOp, RenderPass, RenderPassBeginDescriptor, RenderPassCreateInfo,
    RenderPassDescriptor, StoreOp, RENDER_PASS_COLOR_FORMAT,
    SubPass, SubPassDescriptor, ATTACHMENT_LOAD_OP_CLEAR, ATTACHMENT_LOAD_OP_DONT_CARE,
    ATTACHMENT_LOAD_OP_LOAD, ATTACHMENT_STORE_OP_DONT_CARE, ATTACHMENT_STORE_OP_STORE, FLOAT_ONE_BITS,
};
pub use shader::{
    Shader, ShaderStage, ShaderStageDescriptor, Spirv, SHADER_STAGE_FRAGMENT_BIT,
    SHADER_STAGE_VERTEX_BIT, SPIRV_MAGIC,
};
pub use recorder::{
    lemma_reset_discards_recording, CommandPool, CommandPoolDescriptor, CommandRecorder,
    CommandRecorderDescriptor, Command, RecorderModel, RecorderState,
    COMMAND_POOL_RESET_COMMAND_BUFFER_BIT,
};
pub use fence::{
    lemma_signaled_fence_then_reset, Fence, FenceDescriptor, FenceStatus, FenceWait,
    FENCE_CREATE_SIGNALED_BIT,
};
pub use queue::{handles_of, Queue, QueuePresentDescriptor, QueueSubmitDescriptor, SubmitInfo};
pub use semaphore::{Semaphore, SemaphoreDescriptor};
pub use swapchain::{
    PresentInfo, SurfaceCapabilities, SurfaceFormat, Swapchain, SwapchainCreateInfo,
    SwapchainState,
};
pub use frame::{lemma_fence_waited_and_reset_once_per_use, FrameModel, FramePhase, FrameSync};
pub use device::{Child, Destroy, Device, ResourceKind};
