use nexg::{
    Buffer, BufferDescriptor, Child, DataFormat, Device, DeviceConnecter, DeviceMemory,
    Extent3d, Fence, FenceDescriptor, Image, ImageDescriptor, ImageDimension, ImageFormat,
    ImageViewDescriptor, LoadOp, MemoryAllocateInfo, NxError, Pipeline, PipelineDescriptor,
    PipelineLayout, PipelineLayoutDescriptor, PipelineVertexInputDescriptor, PrimitiveTopology,
    Queue, QueuePresentDescriptor, QueueSubmitDescriptor, RenderPass, RenderPassDescriptor,
    ResourceKind, ResourceLayout, ResourceLayoutBinding, Semaphore, SemaphoreDescriptor, Shader,
    ShaderStage, ShaderStageDescriptor, Spirv, StoreOp, SubPass, SubPassDescriptor,
    SurfaceCapabilities, SurfaceFormat, Swapchain, SwapchainCreateInfo, SwapchainState,
    VertexAttributeInfo, VertexBindingInfo, VertexInputAttributeDescriptor,
    VertexInputBindingDescriptor, CommandRecorder, ERROR_MEMORY_MAP_FAILED, ERROR_OUT_OF_DATE,
    ERROR_OUT_OF_DEVICE_MEMORY, ERROR_OUT_OF_HOST_MEMORY, SPIRV_MAGIC, SUBOPTIMAL, SUCCESS,
    TIMEOUT,
};
use ash::vk;

#[test]
fn status_codes_match_the_driver() {
    assert_eq!(SUCCESS, vk::Result::SUCCESS.as_raw());
    assert_eq!(TIMEOUT, vk::Result::TIMEOUT.as_raw());
    assert_eq!(SUBOPTIMAL, vk::Result::SUBOPTIMAL_KHR.as_raw());
    assert_eq!(ERROR_OUT_OF_HOST_MEMORY, vk::Result::ERROR_OUT_OF_HOST_MEMORY.as_raw());
    assert_eq!(ERROR_OUT_OF_DEVICE_MEMORY, vk::Result::ERROR_OUT_OF_DEVICE_MEMORY.as_raw());
    assert_eq!(ERROR_MEMORY_MAP_FAILED, vk::Result::ERROR_MEMORY_MAP_FAILED.as_raw());
    assert_eq!(ERROR_OUT_OF_DATE, vk::Result::ERROR_OUT_OF_DATE_KHR.as_raw());
}

#[test]
fn error_for_each_code() {
    assert_eq!(NxError::check(SUCCESS), Ok(()));
    assert_eq!(NxError::check(ERROR_OUT_OF_HOST_MEMORY), Err(NxError::OutOfHostMemory));
    assert_eq!(NxError::check(ERROR_OUT_OF_DEVICE_MEMORY), Err(NxError::OutOfDeviceMemory));
    assert_eq!(NxError::check(ERROR_MEMORY_MAP_FAILED), Err(NxError::MemoryMapFailed));
    assert_eq!(NxError::from_code(-3), NxError::InternalError(-3));
    assert!(NxError::from_code(TIMEOUT).is_timeout());
    assert!(!NxError::OutOfHostMemory.is_timeout());
}

#[test]
fn image_formats_match_the_driver() {
    let all = [
        (ImageFormat::R8G8B8A8Unorm, vk::Format::R8G8B8A8_UNORM),
        (ImageFormat::R8G8B8A8Srgb, vk::Format::R8G8B8A8_SRGB),
        (ImageFormat::R8G8B8A8Sscaled, vk::Format::R8G8B8A8_SSCALED),
        (ImageFormat::R8G8B8A8Sint, vk::Format::R8G8B8A8_SINT),
        (ImageFormat::R8G8B8A8Snorm, vk::Format::R8G8B8A8_SNORM),
        (ImageFormat::R8G8B8A8Uint, vk::Format::R8G8B8A8_UINT),
        (ImageFormat::B8G8R8Sscaled, vk::Format::B8G8R8_SSCALED),
        (ImageFormat::B8G8R8Srgb, vk::Format::B8G8R8_SRGB),
        (ImageFormat::B8G8R8Snorm, vk::Format::B8G8R8_SNORM),
        (ImageFormat::B8G8R8Sint, vk::Format::B8G8R8_SINT),
        (ImageFormat::A1R5G5B5UnormPack16, vk::Format::A1R5G5B5_UNORM_PACK16),
        (ImageFormat::A2B10G10R10SintPack32, vk::Format::A2B10G10R10_SINT_PACK32),
        (ImageFormat::A2B10G10R10SnormPack32, vk::Format::A2B10G10R10_SNORM_PACK32),
        (ImageFormat::A2B10G10R10SscaledPack32, vk::Format::A2B10G10R10_SSCALED_PACK32),
        (ImageFormat::A2B10G10R10UintPack32, vk::Format::A2B10G10R10_UINT_PACK32),
        (ImageFormat::Undefined, vk::Format::UNDEFINED),
        (ImageFormat::B8G8R8A8Unorm, vk::Format::B8G8R8A8_UNORM),
    ];
    for (f, raw) in all {
        assert_eq!(f.to_raw(), raw.as_raw());
        assert_eq!(ImageFormat::from_raw(raw.as_raw()), f);
    }
    assert_eq!(ImageFormat::from_raw(vk::Format::D32_SFLOAT.as_raw()), ImageFormat::Undefined);
    assert_eq!(ImageDimension::D2.to_raw(), vk::ImageType::TYPE_2D.as_raw());
    assert_eq!(ImageDimension::D3.to_raw(), vk::ImageType::TYPE_3D.as_raw());
    assert_eq!(DataFormat::R32G32SFloat.to_raw(), vk::Format::R32G32_SFLOAT.as_raw());
    assert_eq!(DataFormat::R32G32B32SFloat.to_raw(), vk::Format::R32G32B32_SFLOAT.as_raw());
    assert_eq!(DataFormat::R32G32B32A32SFloat.to_raw(), vk::Format::R32G32B32A32_SFLOAT.as_raw());
    assert_eq!(PrimitiveTopology::TriangleList.to_raw(), vk::PrimitiveTopology::TRIANGLE_LIST.as_raw());
    assert_eq!(PrimitiveTopology::TriangleFan.to_raw(), vk::PrimitiveTopology::TRIANGLE_FAN.as_raw());
    assert_eq!(PrimitiveTopology::TriangleStrip.to_raw(), vk::PrimitiveTopology::TRIANGLE_STRIP.as_raw());
    assert_eq!(PrimitiveTopology::LineStrip.to_raw(), vk::PrimitiveTopology::LINE_STRIP.as_raw());
    assert_eq!(LoadOp::Clear.to_raw(), vk::AttachmentLoadOp::CLEAR.as_raw());
    assert_eq!(LoadOp::Load.to_raw(), vk::AttachmentLoadOp::LOAD.as_raw());
    assert_eq!(LoadOp::DontCare.to_raw(), vk::AttachmentLoadOp::DONT_CARE.as_raw());
    assert_eq!(StoreOp::Store.to_raw(), vk::AttachmentStoreOp::STORE.as_raw());
    assert_eq!(StoreOp::DontCare.to_raw(), vk::AttachmentStoreOp::DONT_CARE.as_raw());
    assert_eq!(ShaderStage::Vertex.to_flags(), vk::ShaderStageFlags::VERTEX.as_raw());
    assert_eq!(ShaderStage::Fragment.to_flags(), vk::ShaderStageFlags::FRAGMENT.as_raw());
}

#[test]
fn spirv_from_bytes_reads_words() {
    let mut le = Vec::new();
    for w in [SPIRV_MAGIC, 0x0001_0000, 7] {
        le.extend_from_slice(&w.to_le_bytes());
    }
    assert_eq!(Spirv::from_raw(&le).unwrap().data, vec![SPIRV_MAGIC, 0x0001_0000, 7]);
    let mut be = Vec::new();
    for w in [SPIRV_MAGIC, 0x0001_0000, 7] {
        be.extend_from_slice(&w.to_be_bytes());
    }
    assert_eq!(Spirv::from_raw(&be).unwrap().data, vec![SPIRV_MAGIC, 0x0001_0000, 7]);
    assert!(matches!(Spirv::from_raw(&le[..5]), Err(NxError::IoError(_))));
    assert!(matches!(Spirv::from_raw(&[]), Err(NxError::IoError(_))));
    assert!(matches!(Spirv::from_raw(&[1, 2, 3, 4]), Err(NxError::IoError(_))));
}

#[test]
fn image_descriptor_defaults() {
    let d = ImageDescriptor::new();
    assert_eq!(d.image_type, ImageDimension::D2);
    assert_eq!(d.extent, Extent3d::new(100, 100, 1));
    assert_eq!((d.mip_levels, d.array_layers), (1, 1));
    assert_eq!(d.format, ImageFormat::R8G8B8A8Unorm);
    let d = d.image_type(ImageDimension::D3).extent(Extent3d::new(4, 5, 6)).format(ImageFormat::B8G8R8A8Unorm);
    assert_eq!((d.extent.width(), d.extent.height(), d.extent.depth()), (4, 5, 6));
    assert_eq!(d.image_type, ImageDimension::D3);
    assert_eq!(ImageViewDescriptor::empty().format, ImageFormat::R8G8B8A8Unorm);
    assert_eq!(ImageViewDescriptor::empty().format(ImageFormat::Undefined).format, ImageFormat::Undefined);
}

#[test]
fn image_raw_data_reads_four_bytes_per_texel() {
    let mem = DeviceMemory::from_raw(1, &MemoryAllocateInfo { allocation_size: 64, memory_type_index: 0 });
    let img = Image::with_memory(2, mem);
    let mapped: Vec<u8> = (0..40).collect();
    assert_eq!(img.as_raw_data(&mapped, 3, 2).unwrap(), (0..24).collect::<Vec<u8>>());
    assert_eq!(img.as_raw_data(&mapped, 11, 1), Err(NxError::MemoryMapFailed));
    assert_eq!(img.as_raw_data(&mapped, u32::MAX, u32::MAX), Err(NxError::MemoryMapFailed));
    assert_eq!(Image::from_raw(3).as_raw_data(&mapped, 1, 1), Err(NxError::NoValue));
    let view = img.create_image_view(9, &ImageViewDescriptor::empty());
    assert_eq!((view.handle, view.image), (9, 2));
}

#[test]
fn swapchain_parameters_from_the_surface() {
    let caps = SurfaceCapabilities { min_image_count: 2, max_image_count: 0, current_width: 800, current_height: 600, current_transform: 1 };
    let formats = [SurfaceFormat { format: 44, color_space: 0 }, SurfaceFormat { format: 37, color_space: 0 }];
    let info = Swapchain::create_info(true, &caps, &formats, &[2, 0]).unwrap();
    assert_eq!(info, SwapchainCreateInfo { min_image_count: 3, format: 44, color_space: 0, present_mode: 2, width: 800, height: 600, pre_transform: 1 });
    let capped = SurfaceCapabilities { max_image_count: 2, ..caps };
    assert_eq!(Swapchain::create_info(true, &capped, &formats, &[2]).unwrap().min_image_count, 2);
    assert_eq!(Swapchain::create_info(false, &caps, &formats, &[2]), Err(NxError::HardwareError));
    assert_eq!(Swapchain::create_info(true, &caps, &[], &[2]), Err(NxError::NoValue));
    assert_eq!(Swapchain::create_info(true, &caps, &formats, &[]), Err(NxError::NoValue));
    let sc = Swapchain::from_raw(5, &info);
    assert_eq!(sc.format(), ImageFormat::B8G8R8A8Unorm);
}

#[test]
fn acquire_states() {
    assert_eq!(Swapchain::acquire_next_image(Ok((1, false))), Ok((1, SwapchainState::Normal)));
    assert_eq!(Swapchain::acquire_next_image(Ok((0, true))), Ok((0, SwapchainState::SubOptimal)));
    assert_eq!(Swapchain::acquire_next_image(Err(ERROR_OUT_OF_DATE)), Ok((0, SwapchainState::Broken)));
    assert_eq!(Swapchain::acquire_next_image(Err(TIMEOUT)), Err(NxError::InternalError(TIMEOUT)));
}

#[test]
fn present_and_images() {
    let sc = Swapchain::from_raw(5, &SwapchainCreateInfo { min_image_count: 2, format: 37, color_space: 0, present_mode: 0, width: 1, height: 1, pre_transform: 1 });
    let s = Semaphore::new(7, &SemaphoreDescriptor::empty());
    let d = QueuePresentDescriptor::empty().wait_semaphores(&[s]);
    assert_eq!(sc.present(&d, 1), Err(NxError::NoValue));
    let q = Queue::from_raw(3);
    let p = sc.present(&d.queue(&q), 1).unwrap();
    assert_eq!((p.queue, p.wait_semaphores, p.swapchain, p.image_index), (3, vec![7], 5, 1));
    assert_eq!(sc.images(&[]), Err(NxError::NoValue));
    let imgs = sc.images(&[10, 11]).unwrap();
    assert_eq!(imgs, vec![Image::from_raw(10), Image::from_raw(11)]);
}

#[test]
fn submit_lists_semaphores_fence_and_buffers() {
    let fence = Fence::new(66, &FenceDescriptor::empty());
    let a = Semaphore::new(1, &SemaphoreDescriptor::empty());
    let b = Semaphore::new(2, &SemaphoreDescriptor::empty());
    let d = QueueSubmitDescriptor::empty().wait_semaphores(&[a]).signal_semaphores(&[b, a]).fence(&fence);
    let mut r = CommandRecorder::from_raw(90);
    r.begin(&nexg::RenderPassBeginDescriptor::empty());
    r.end();
    let info = Queue::from_raw(4).submit(&d, &[r]);
    assert_eq!(info.wait_semaphores, vec![1]);
    assert_eq!(info.signal_semaphores, vec![2, 1]);
    assert_eq!(info.fence, Some(66));
    assert_eq!(info.command_buffers, vec![90]);
}

#[test]
fn pipeline_parameters_from_descriptor() {
    let vs = Shader::from_raw(1);
    let fs = Shader::from_raw(2);
    let stages = [
        ShaderStageDescriptor::empty().shaders(&vs),
        ShaderStageDescriptor::empty().shaders(&fs).stage(ShaderStage::Fragment).entry_point("frag"),
    ];
    let input = PipelineVertexInputDescriptor::empty()
        .binding_desc(&[VertexInputBindingDescriptor::empty().stride(24)])
        .attribute_desc(&[
            VertexInputAttributeDescriptor::empty().format(DataFormat::R32G32B32A32SFloat),
            VertexInputAttributeDescriptor::empty().location(1).offset(16),
        ]);
    let desc = PipelineDescriptor::empty().width(640).height(480).shader_stages(&stages).input_descriptor(&input).topology(PrimitiveTopology::TriangleStrip);
    let layout = PipelineLayout::from_raw(8);
    let rp = RenderPass::from_raw(9);
    let info = Pipeline::create_info(&layout, &rp, &desc).unwrap();
    assert_eq!(info.stages.len(), 2);
    assert_eq!((info.stages[0].stage_flags, info.stages[0].module, info.stages[0].entry_point), (1, 1, "main"));
    assert_eq!((info.stages[1].stage_flags, info.stages[1].module, info.stages[1].entry_point), (0x10, 2, "frag"));
    assert_eq!((info.width, info.height, info.topology), (640, 480, 4));
    assert_eq!(info.bindings, vec![VertexBindingInfo { binding: 0, stride: 24 }]);
    assert_eq!(
        info.attributes,
        vec![
            VertexAttributeInfo { binding: 0, location: 0, offset: 0, format: 109 },
            VertexAttributeInfo { binding: 0, location: 1, offset: 16, format: 103 },
        ]
    );
    assert_eq!((info.layout, info.render_pass), (8, 9));
    let p = Pipeline::from_raw(70, &info);
    assert_eq!((p.width, p.height, p.layout, p.render_pass), (640, 480, 8, 9));

    let missing = PipelineDescriptor::empty().shader_stages(&[ShaderStageDescriptor::empty()]);
    assert_eq!(Pipeline::create_info(&layout, &rp, &missing), Err(NxError::NoValue));
    let wide = PipelineVertexInputDescriptor::empty().binding_desc(&[VertexInputBindingDescriptor::empty().stride(usize::MAX)]);
    let too_wide = PipelineDescriptor::empty().input_descriptor(&wide);
    assert_eq!(Pipeline::create_info(&layout, &rp, &too_wide), Err(NxError::HardwareError));
}

#[test]
fn layouts_and_render_pass_descriptors() {
    let binding = ResourceLayoutBinding::empty().binding(2).count(1).shader_stage(ShaderStage::Fragment);
    let infos = ResourceLayout::bindings_info(&[binding]);
    assert_eq!((infos[0].binding, infos[0].descriptor_type, infos[0].descriptor_count, infos[0].stage_flags), (2, 6, 1, 0x10));
    assert_eq!(vk::DescriptorType::UNIFORM_BUFFER.as_raw(), 6);
    let rl = ResourceLayout::from_raw(4);
    assert_eq!(PipelineLayout::set_layouts(&PipelineLayoutDescriptor::empty()), Vec::<u64>::new());
    assert_eq!(PipelineLayout::set_layouts(&PipelineLayoutDescriptor::empty().resource(&rl)), vec![4]);
    let sp = SubPass::new(&SubPassDescriptor::empty());
    assert_eq!(sp.color_attachment, 0);
    let rpd = RenderPassDescriptor::empty().load_op(LoadOp::Clear).store_op(StoreOp::DontCare).subpasses(&[sp]);
    assert_eq!((rpd.load_op, rpd.store_op, rpd.subpasses.len()), (LoadOp::Clear, StoreOp::DontCare, 1));
}

#[test]
fn device_tears_down_children_newest_first() {
    let mut dev = Device::from_raw(1, &DeviceConnecter::new(0, 2));
    assert_eq!(dev.queue_family_index(), 2);
    let mem = DeviceMemory::from_raw(10, &MemoryAllocateInfo { allocation_size: 4, memory_type_index: 0 });
    let buf = Buffer::new(11, mem, &BufferDescriptor::empty().size(4));
    let fence = Fence::new(12, &FenceDescriptor::empty());
    dev.adopt(&buf);
    dev.adopt(&mem);
    dev.adopt(&fence);
    assert_eq!(dev.live().len(), 3);
    assert_eq!(dev.destroy(&fence), Ok(Child { kind: ResourceKind::Fence, handle: 12 }));
    assert_eq!(dev.destroy(&fence), Err(NxError::NoValue));
    assert_eq!(
        dev.teardown(),
        vec![Child { kind: ResourceKind::Memory, handle: 10 }, Child { kind: ResourceKind::Buffer, handle: 11 }]
    );
    assert!(dev.live().is_empty());
}
