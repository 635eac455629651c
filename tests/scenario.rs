use nexg::{
    request_connecter, Buffer, BufferDescriptor, BufferUsage, CommandRecorder, DeviceConnecter,
    DeviceMemory, FenceWait, FramePhase, FrameSync, MemoryRequirements, MemoryType, Queue,
    QueueFamilyProperties, RenderPassBeginDescriptor, RequestConnecterDescriptor, Semaphore,
    SemaphoreDescriptor, Swapchain, SwapchainCreateInfo, SwapchainState,
    MEMORY_PROPERTY_HOST_VISIBLE, SUCCESS,
};

#[derive(Clone, Copy)]
struct Vertex {
    pos: [f32; 4],
    uv: [f32; 2],
}

fn bytes_of(vs: &[Vertex]) -> Vec<u8> {
    let mut out = Vec::new();
    for v in vs {
        for x in v.pos.iter().chain(v.uv.iter()) {
            out.extend_from_slice(&x.to_le_bytes());
        }
    }
    out
}

#[test]
fn quad_on_two_image_swapchain_for_three_frames() {
    // Two adapters; only the second family of adapter 1 has all three capabilities.
    let table = vec![
        vec![QueueFamilyProperties::new(true, false, true, 1)],
        vec![
            QueueFamilyProperties::new(false, true, true, 2),
            QueueFamilyProperties::new(true, true, true, 4),
        ],
    ];
    let connecter = request_connecter(&table, &RequestConnecterDescriptor::new()).unwrap();
    assert_eq!(connecter, DeviceConnecter::new(1, 1));

    // A 4-vertex / 6-index buffer pair for a textured quad.
    let quad = [
        Vertex { pos: [-1.0, -1.0, 0.0, 1.0], uv: [0.0, 0.0] },
        Vertex { pos: [1.0, -1.0, 0.0, 1.0], uv: [1.0, 0.0] },
        Vertex { pos: [1.0, 1.0, 0.0, 1.0], uv: [1.0, 1.0] },
        Vertex { pos: [-1.0, 1.0, 0.0, 1.0], uv: [0.0, 1.0] },
    ];
    let indices: [u16; 6] = [0, 1, 2, 2, 3, 0];
    let layout = [MemoryType { property_flags: 0, heap_index: 0 }, MemoryType { property_flags: MEMORY_PROPERTY_HOST_VISIBLE, heap_index: 0 }];
    let vsize = 4 * std::mem::size_of::<Vertex>();
    let vreq = MemoryRequirements { size: vsize as u64, alignment: 16, memory_type_bits: 0b11 };
    let vinfo = DeviceMemory::allocate_info(&vreq, &layout, MEMORY_PROPERTY_HOST_VISIBLE).unwrap();
    assert_eq!(vinfo.memory_type_index, 1);
    let vbuf = Buffer::new(100, DeviceMemory::from_raw(101, &vinfo), &BufferDescriptor::empty().size(vsize).usage(BufferUsage::Vertex));
    let isize = indices.len() * 2;
    let ireq = MemoryRequirements { size: isize as u64, alignment: 16, memory_type_bits: 0b10 };
    let iinfo = DeviceMemory::allocate_info(&ireq, &layout, MEMORY_PROPERTY_HOST_VISIBLE).unwrap();
    let ibuf = Buffer::new(102, DeviceMemory::from_raw(103, &iinfo), &BufferDescriptor::empty().size(isize).usage(BufferUsage::Index));
    let vdata = bytes_of(&quad);
    let mut vmapped = vec![0u8; vsize];
    vbuf.write(&mut vmapped, &vdata).unwrap();
    let idata: Vec<u8> = indices.iter().flat_map(|i| i.to_le_bytes()).collect();
    let mut imapped = vec![0u8; isize];
    ibuf.write(&mut imapped, &idata).unwrap();
    assert_eq!(vbuf.size(), (4 * std::mem::size_of::<Vertex>()) as u64);
    assert_eq!(ibuf.size(), 12);
    assert_eq!(vmapped, vdata);

    // Three frames on a two-image swapchain.
    let info = SwapchainCreateInfo { min_image_count: 2, format: 44, color_space: 0, present_mode: 2, width: 640, height: 480, pre_transform: 1 };
    let swapchain = Swapchain::from_raw(200, &info);
    let queue = Queue::from_raw(300);
    let available = Semaphore::new(400, &SemaphoreDescriptor::empty());
    let finished = Semaphore::new(401, &SemaphoreDescriptor::empty());
    let mut sync = FrameSync::new(&[500, 501], available, finished);
    let mut recorders = vec![CommandRecorder::from_raw(600), CommandRecorder::from_raw(601)];
    let acquired = [(0u32, false), (1, false), (0, false)];
    for (frame, &(index, suboptimal)) in acquired.iter().enumerate() {
        let (image, state) = Swapchain::acquire_next_image(Ok((index, suboptimal))).unwrap();
        assert_eq!(state, SwapchainState::Normal);
        let w = sync.acquired(image, 1_000_000_000);
        if frame < 2 {
            // First use of each image: its fence was created signaled.
            assert_eq!(w, FenceWait::Signaled);
        } else {
            // Reuse of image 0: the previous frame's fence must be waited on.
            assert_eq!(w, FenceWait::Block { timeout: 1_000_000_000 });
            assert_eq!(sync.current_fence(), 500);
            sync.fence_reported(SUCCESS).unwrap();
        }
        assert_eq!(sync.phase(), FramePhase::Waited { image });
        sync.fence_reset();
        let recorder = &mut recorders[image];
        if frame == 2 {
            // The wait proved image 0's previous submission complete.
            recorder.completed();
            recorder.reset();
        }
        recorder.begin(&RenderPassBeginDescriptor::empty());
        recorder.bind_vertex_buffer(&vbuf);
        recorder.bind_index_buffer(&ibuf);
        recorder.draw_indexed(6, 1, 0, 0, 0);
        recorder.end();
        let submit = sync.submit_info(std::slice::from_ref(&*recorder));
        assert_eq!(submit.wait_semaphores, vec![400]);
        assert_eq!(submit.signal_semaphores, vec![401]);
        assert_eq!(submit.fence, Some(500 + image as u64));
        assert_eq!(submit.command_buffers, vec![600 + image as u64]);
        sync.submitted();
        recorder.submitted();
        let present = sync.present_info(&swapchain, &queue);
        assert_eq!(present.wait_semaphores, vec![401]);
        assert_eq!(present.image_index, index);
        assert_eq!(present.swapchain, 200);
        assert_eq!(present.queue, 300);
        sync.presented();
    }
    // Image 0 was used twice, image 1 once: each fence waited and reset once per use.
    assert_eq!((sync.waits(0), sync.resets(0), sync.uses(0)), (2, 2, 2));
    assert_eq!((sync.waits(1), sync.resets(1), sync.uses(1)), (1, 1, 1));
}
