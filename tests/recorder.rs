use nexg::{
    Buffer, BufferDescriptor, ClearColor, Command, CommandPool, CommandPoolDescriptor,
    CommandRecorder, CommandRecorderDescriptor, DeviceMemory, FrameBuffer, FrameBufferDescriptor,
    MemoryAllocateInfo, NxError, Pipeline, PipelineCreateInfo, RecorderState, RenderPass,
    RenderPassBeginDescriptor, FLOAT_ONE_BITS,
};

fn pipeline(width: u32, height: u32) -> Pipeline {
    let info = PipelineCreateInfo {
        stages: vec![],
        width,
        height,
        topology: 3,
        bindings: vec![],
        attributes: vec![],
        layout: 5,
        render_pass: 6,
    };
    Pipeline::from_raw(40, &info)
}

fn vertex_buffer() -> Buffer {
    let mem = DeviceMemory::from_raw(1, &MemoryAllocateInfo { allocation_size: 64, memory_type_index: 0 });
    Buffer::new(50, mem, &BufferDescriptor::empty().size(64))
}

#[test]
fn begin_end_reset_leaves_nothing_behind() {
    let mut r = CommandRecorder::from_raw(11);
    assert_eq!(r.state(), RecorderState::Initial);
    r.begin(&RenderPassBeginDescriptor::empty());
    assert_eq!(r.state(), RecorderState::Recording);
    assert_eq!(r.frame_extent(), None);
    r.bind_pipeline(&pipeline(100, 100));
    r.draw(3, 1, 0, 0);
    r.end();
    assert_eq!(r.state(), RecorderState::Executable);
    assert_eq!(r.commands().len(), 2);
    r.reset();
    assert_eq!(r.state(), RecorderState::Initial);
    assert!(r.commands().is_empty());
    // begin is allowed again, and only the new recording is there.
    r.begin(&RenderPassBeginDescriptor::empty());
    r.draw(6, 1, 0, 0);
    r.end();
    assert_eq!(
        r.commands().clone(),
        vec![Command::Draw { vertex_count: 6, instance_count: 1, first_vertex: 0, first_instance: 0 }]
    );
    assert_eq!(r.raw(), 11);
}

#[test]
fn render_pass_scope_encloses_the_draws() {
    let rp = RenderPass::from_raw(6);
    let fb = FrameBuffer::from_raw(7, &FrameBufferDescriptor::empty().width(640).height(480));
    let desc = RenderPassBeginDescriptor::empty()
        .render_pass(&rp)
        .frame_buffer(&fb)
        .width(640)
        .height(480);
    let mut r = CommandRecorder::from_raw(12);
    r.begin(&desc);
    assert!(r.in_render_pass());
    assert_eq!(r.frame_extent(), Some((640, 480)));
    r.bind_pipeline(&pipeline(640, 480));
    r.bind_vertex_buffer(&vertex_buffer());
    r.bind_index_buffer(&vertex_buffer());
    r.draw_indexed(6, 1, 0, 0, 0);
    r.end();
    assert!(!r.in_render_pass());
    assert_eq!(r.frame_extent(), None);
    let cs = r.commands().clone();
    assert_eq!(cs.len(), 6);
    assert_eq!(
        cs[0],
        Command::BeginRenderPass {
            render_pass: 6,
            frame_buffer: 7,
            x: 0,
            y: 0,
            width: 640,
            height: 480,
            clear_color: ClearColor { r: 0, g: 0, b: 0, a: FLOAT_ONE_BITS },
        }
    );
    assert_eq!(cs[1], Command::BindPipeline { pipeline: 40 });
    assert_eq!(cs[2], Command::BindVertexBuffer { buffer: 50 });
    assert_eq!(cs[3], Command::BindIndexBuffer { buffer: 50 });
    assert_eq!(
        cs[4],
        Command::DrawIndexed { index_count: 6, instance_count: 1, first_index: 0, vertex_offset: 0, first_instance: 0 }
    );
    assert_eq!(cs[5], Command::EndRenderPass);
    assert_eq!(1.0f32.to_bits(), FLOAT_ONE_BITS);
}

#[test]
fn submission_makes_recorder_pending_until_completed() {
    let mut r = CommandRecorder::from_raw(13);
    r.begin(&RenderPassBeginDescriptor::empty());
    r.end();
    r.submitted();
    assert_eq!(r.state(), RecorderState::Pending);
    r.completed();
    assert_eq!(r.state(), RecorderState::Executable);
    r.reset();
    assert_eq!(r.state(), RecorderState::Initial);
}

#[test]
fn recorders_from_pool_allocation() {
    let rs = CommandRecorder::create(&CommandRecorderDescriptor::empty(), &[21]).unwrap();
    assert_eq!(rs.len(), 1);
    assert_eq!(rs[0].raw(), 21);
    assert_eq!(rs[0].state(), RecorderState::Initial);
    assert!(matches!(
        CommandRecorder::create(&CommandRecorderDescriptor::empty(), &[21, 22]),
        Err(NxError::Unknown)
    ));
}

#[test]
fn command_pool_needs_a_queue_family() {
    assert_eq!(CommandPool::create_info(&CommandPoolDescriptor::empty()), Err(NxError::NoValue));
    assert_eq!(CommandPool::create_info(&CommandPoolDescriptor::empty().queue_family_index(2)), Ok(2));
    assert_eq!(
        CommandPool::create_info(&CommandPoolDescriptor::empty().queue_family_index(usize::MAX)),
        Err(NxError::NoValue)
    );
}
