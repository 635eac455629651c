use vstd::prelude::*;

use crate::buffer::Buffer;
use crate::error::{NxError, NxResult};
use crate::pipeline::{Pipeline, PipelineLayout, Resource};
use crate::renderpass::{ClearColor, RenderPassBeginDescriptor};

verus! {

/// Command pool flag: recorders of the pool may be reset one by one.
pub const COMMAND_POOL_RESET_COMMAND_BUFFER_BIT: u32 = 2;

#[derive(Clone, Copy, Debug, PartialEq, Eq, Structural)]
pub struct CommandPoolDescriptor {
    pub queue_family_index: Option<usize>,
}

impl CommandPoolDescriptor {
    pub fn empty() -> (d: Self)
        ensures
            d.queue_family_index is None,
    {
        CommandPoolDescriptor { queue_family_index: None }
    }

    pub fn queue_family_index(self, queue_family_index: usize) -> (d: Self)
        ensures
            d.queue_family_index == Some(queue_family_index),
    {
        CommandPoolDescriptor { queue_family_index: Some(queue_family_index) }
    }
}

/// A pool of command-buffer storage tied to one queue family.
#[derive(Clone, Copy, Debug, PartialEq, Eq, Structural)]
pub struct CommandPool {
    pub handle: u64,
    pub queue_family_index: u32,
}

impl CommandPool {
    /// The queue family that a pool is created for. `NoValue` when the
    /// descriptor names none, or one past the driver's 32-bit indices.
    pub fn create_info(descriptor: &CommandPoolDescriptor) -> (r: NxResult<u32>)
        ensures
            match descriptor.queue_family_index {
                Some(i) => if i <= u32::MAX {
                    r == Ok::<u32, NxError>(i as u32)
                } else {
                    r == Err::<u32, NxError>(NxError::NoValue)
                },
                None => r == Err::<u32, NxError>(NxError::NoValue),
            },
    {
        match descriptor.queue_family_index {
            Some(i) => if i <= u32::MAX as usize {
                Ok(i as u32)
            } else {
                Err(NxError::NoValue)
            },
            None => Err(NxError::NoValue),
        }
    }

    pub fn from_raw(handle: u64, queue_family_index: u32) -> (p: Self)
        ensures
            p.handle == handle,
            p.queue_family_index == queue_family_index,
    {
        CommandPool { handle, queue_family_index }
    }
}

#[derive(Clone, Copy, Debug, PartialEq, Eq, Structural)]
pub struct CommandRecorderDescriptor {
    pub recorder_count: u32,
}

impl CommandRecorderDescriptor {
    /// One recorder.
    pub fn empty() -> (d: Self)
        ensures
            d.recorder_count == 1,
    {
        CommandRecorderDescriptor { recorder_count: 1 }
    }
}

/// Where a command recorder stands in its life cycle.
#[derive(Clone, Copy, Debug, PartialEq, Eq, Structural)]
pub enum RecorderState {
    /// Just allocated or just reset: nothing recorded.
    Initial,
    /// Between `begin` and `end`: commands are appended.
    Recording,
    /// Ended: ready to be submitted.
    Executable,
    /// Submitted, and not yet known to have completed.
    Pending,
}

/// One recorded command.
#[derive(Clone, Copy, Debug, PartialEq, Eq, Structural)]
pub enum Command {
    BeginRenderPass {
        render_pass: u64,
        frame_buffer: u64,
        x: u32,
        y: u32,
        width: u32,
        height: u32,
        clear_color: ClearColor,
    },
    EndRenderPass,
    BindPipeline { pipeline: u64 },
    BindVertexBuffer { buffer: u64 },
    BindIndexBuffer { buffer: u64 },
    BindResource { layout: u64, set: u64 },
    Draw { vertex_count: u32, instance_count: u32, first_vertex: u32, first_instance: u32 },
    DrawIndexed {
        index_count: u32,
        instance_count: u32,
        first_index: u32,
        vertex_offset: i32,
        first_instance: u32,
    },
}

/// What a command recorder is: its state, whether a render pass scope is
/// open and the size of its frame buffer, and the commands recorded since
/// it was last reset.
pub struct RecorderModel {
    pub state: RecorderState,
    pub in_render_pass: bool,
    pub frame_extent: Option<(u32, u32)>,
    pub commands: Seq<Command>,
}

/// A freshly allocated or reset recorder.
pub open spec fn initial_model() -> RecorderModel {
    RecorderModel {
        state: RecorderState::Initial,
        in_render_pass: false,
        frame_extent: None,
        commands: Seq::empty(),
    }
}

/// `begin` opens a render pass scope when it is given both a render pass and a frame buffer.
pub open spec fn opens_render_pass(d: RenderPassBeginDescriptor) -> bool {
    d.render_pass is Some && d.frame_buffer is Some
}

/// The commands that `begin` records: the start of the render pass, when it opens one.
pub open spec fn begin_commands(d: RenderPassBeginDescriptor) -> Seq<Command> {
    if opens_render_pass(d) {
        seq![
            Command::BeginRenderPass {
                render_pass: d.render_pass->0.handle,
                frame_buffer: d.frame_buffer->0.handle,
                x: d.x,
                y: d.y,
                width: d.width,
                height: d.height,
                clear_color: d.clear_color,
            },
        ]
    } else {
        Seq::empty()
    }
}

/// The size of the frame buffer whose render pass `begin` opens, if it opens one.
pub open spec fn begin_extent(d: RenderPassBeginDescriptor) -> Option<(u32, u32)> {
    if opens_render_pass(d) {
        Some((d.frame_buffer->0.width, d.frame_buffer->0.height))
    } else {
        None
    }
}

/// The recorder after `begin`.
pub open spec fn spec_begin(m: RecorderModel, d: RenderPassBeginDescriptor) -> RecorderModel {
    RecorderModel {
        state: RecorderState::Recording,
        in_render_pass: opens_render_pass(d),
        frame_extent: begin_extent(d),
        commands: m.commands + begin_commands(d),
    }
}

/// A pipeline may be bound when no render pass is open, or when its
/// viewport has the size of the open render pass's frame buffer.
pub open spec fn pipeline_fits(m: RecorderModel, p: Pipeline) -> bool {
    m.frame_extent is Some ==> m.frame_extent->0 == (p.width, p.height)
}

/// The recorder after a command is appended.
pub open spec fn spec_record(m: RecorderModel, c: Command) -> RecorderModel {
    RecorderModel { commands: m.commands.push(c), ..m }
}

/// The recorder after each of `cs` is appended in order.
pub open spec fn record_all(m: RecorderModel, cs: Seq<Command>) -> RecorderModel
    decreases cs.len(),
{
    if cs.len() == 0 {
        m
    } else {
        spec_record(record_all(m, cs.drop_last()), cs.last())
    }
}

/// The recorder after `end`: an open render pass scope is closed first.
pub open spec fn spec_end(m: RecorderModel) -> RecorderModel {
    RecorderModel {
        state: RecorderState::Executable,
        in_render_pass: false,
        frame_extent: None,
        commands: if m.in_render_pass {
            m.commands.push(Command::EndRenderPass)
        } else {
            m.commands
        },
    }
}

/// The recorder after `reset`.
pub open spec fn spec_reset(m: RecorderModel) -> RecorderModel {
    initial_model()
}

/// One primary command buffer and what has been recorded into it.
///
/// `begin` takes it from `Initial` to `Recording`, `end` to `Executable`,
/// `submitted` to `Pending` and `completed` back to `Executable`; `reset`
/// returns it to `Initial` from any state but `Pending`.
pub struct CommandRecorder {
    buffer: u64,
    state: RecorderState,
    in_render_pass: bool,
    frame_extent: Option<(u32, u32)>,
    commands: Vec<Command>,
}

impl View for CommandRecorder {
    type V = RecorderModel;

    closed spec fn view(&self) -> RecorderModel {
        RecorderModel {
            state: self.state,
            in_render_pass: self.in_render_pass,
            frame_extent: self.frame_extent,
            commands: self.commands@,
        }
    }
}

impl CommandRecorder {
    /// The driver handle of the command buffer.
    pub closed spec fn raw_spec(&self) -> u64 {
        self.buffer
    }

    /// A recorder for a freshly allocated command buffer.
    pub fn from_raw(buffer: u64) -> (r: Self)
        ensures
            r@ == initial_model(),
            r.raw_spec() == buffer,
    {
        CommandRecorder {
            buffer,
            state: RecorderState::Initial,
            in_render_pass: false,
            frame_extent: None,
            commands: Vec::new(),
        }
    }

    /// Recorders for the command buffers the driver allocated for
    /// `descriptor`, in order. `Unknown` when the driver did not hand back
    /// as many buffers as were asked for.
    pub fn create(descriptor: &CommandRecorderDescriptor, buffers: &[u64]) -> (r: NxResult<
        Vec<CommandRecorder>,
    >)
        ensures
            r is Ok <==> buffers@.len() == descriptor.recorder_count,
            r is Err ==> r->Err_0 == NxError::Unknown,
            r is Ok ==> r->Ok_0@.len() == buffers@.len() && forall|i: int|
                0 <= i < buffers@.len() ==> (#[trigger] r->Ok_0@[i])@ == initial_model()
                    && r->Ok_0@[i].raw_spec() == buffers@[i],
    {
        if buffers.len() as u64 != descriptor.recorder_count as u64 {
            return Err(NxError::Unknown);
        }
        let mut v: Vec<CommandRecorder> = Vec::new();
        let mut i: usize = 0;
        while i < buffers.len()
            invariant
                i <= buffers@.len(),
                v@.len() == i,
                forall|j: int|
                    0 <= j < i ==> (#[trigger] v@[j])@ == initial_model() && v@[j].raw_spec()
                        == buffers@[j],
            decreases buffers@.len() - i,
        {
            v.push(CommandRecorder::from_raw(buffers[i]));
            i = i + 1;
        }
        Ok(v)
    }

    /// The driver handle of the command buffer.
    pub fn raw(&self) -> (b: u64)
        ensures
            b == self.raw_spec(),
    {
        self.buffer
    }

    pub fn state(&self) -> (s: RecorderState)
        ensures
            s == self@.state,
    {
        self.state
    }

    /// The size of the frame buffer of the open render pass, if one is open.
    pub fn frame_extent(&self) -> (e: Option<(u32, u32)>)
        ensures
            e == self@.frame_extent,
    {
        self.frame_extent
    }

    /// Whether a render pass scope is open.
    pub fn in_render_pass(&self) -> (b: bool)
        ensures
            b == self@.in_render_pass,
    {
        self.in_render_pass
    }

    /// The commands recorded since the recorder was last reset.
    pub fn commands(&self) -> (c: &Vec<Command>)
        ensures
            c@ == self@.commands,
    {
        &self.commands
    }

    /// Starts recording. Given a render pass and a frame buffer, it also
    /// starts that render pass over the descriptor's region, with its clear
    /// color; the scope stays open for the draws that follow and `end`
    /// closes it.
    pub fn begin(&mut self, descriptor: &RenderPassBeginDescriptor)
        requires
            old(self)@.state == RecorderState::Initial,
        ensures
            final(self)@ == spec_begin(old(self)@, *descriptor),
            final(self).raw_spec() == old(self).raw_spec(),
    {
        self.state = RecorderState::Recording;
        match (descriptor.render_pass, descriptor.frame_buffer) {
            (Some(rp), Some(fb)) => {
                self.commands.push(
                    Command::BeginRenderPass {
                        render_pass: rp.handle,
                        frame_buffer: fb.handle,
                        x: descriptor.x,
                        y: descriptor.y,
                        width: descriptor.width,
                        height: descriptor.height,
                        clear_color: descriptor.clear_color,
                    },
                );
                self.in_render_pass = true;
                self.frame_extent = Some((fb.width, fb.height));
                assert(self.commands@ =~= old(self)@.commands + begin_commands(*descriptor));
            },
            _ => {
                self.in_render_pass = false;
                self.frame_extent = None;
                assert(self.commands@ =~= old(self)@.commands + begin_commands(*descriptor));
            },
        }
    }

    fn record(&mut self, c: Command)
        requires
            old(self)@.state == RecorderState::Recording,
        ensures
            final(self)@ == spec_record(old(self)@, c),
            final(self).raw_spec() == old(self).raw_spec(),
    {
        self.commands.push(c);
    }

    /// Binds a graphics pipeline. Inside a render pass, the pipeline's
    /// viewport must have the size of the pass's frame buffer.
    pub fn bind_pipeline(&mut self, pipeline: &Pipeline)
        requires
            old(self)@.state == RecorderState::Recording,
            pipeline_fits(old(self)@, *pipeline),
        ensures
            final(self)@ == spec_record(old(self)@, Command::BindPipeline { pipeline: pipeline.handle }),
            final(self).raw_spec() == old(self).raw_spec(),
    {
        self.record(Command::BindPipeline { pipeline: pipeline.handle });
    }

    pub fn bind_vertex_buffer(&mut self, buffer: &Buffer)
        requires
            old(self)@.state == RecorderState::Recording,
        ensures
            final(self)@ == spec_record(old(self)@, Command::BindVertexBuffer { buffer: buffer.handle }),
            final(self).raw_spec() == old(self).raw_spec(),
    {
        self.record(Command::BindVertexBuffer { buffer: buffer.handle });
    }

    /// Binds an index buffer of 16-bit indices.
    pub fn bind_index_buffer(&mut self, buffer: &Buffer)
        requires
            old(self)@.state == RecorderState::Recording,
        ensures
            final(self)@ == spec_record(old(self)@, Command::BindIndexBuffer { buffer: buffer.handle }),
            final(self).raw_spec() == old(self).raw_spec(),
    {
        self.record(Command::BindIndexBuffer { buffer: buffer.handle });
    }

    pub fn bind_resource(&mut self, resource: &Resource, layout: &PipelineLayout)
        requires
            old(self)@.state == RecorderState::Recording,
        ensures
            final(self)@ == spec_record(
                old(self)@,
                Command::BindResource { layout: layout.handle, set: resource.descriptor_set },
            ),
            final(self).raw_spec() == old(self).raw_spec(),
    {
        self.record(Command::BindResource { layout: layout.handle, set: resource.descriptor_set });
    }

    pub fn draw(&mut self, vertex_count: u32, instance_count: u32, first_vertex: u32, first_instance: u32)
        requires
            old(self)@.state == RecorderState::Recording,
        ensures
            final(self)@ == spec_record(
                old(self)@,
                Command::Draw { vertex_count, instance_count, first_vertex, first_instance },
            ),
            final(self).raw_spec() == old(self).raw_spec(),
    {
        self.record(Command::Draw { vertex_count, instance_count, first_vertex, first_instance });
    }

    pub fn draw_indexed(
        &mut self,
        index_count: u32,
        instance_count: u32,
        first_index: u32,
        vertex_offset: i32,
        first_instance: u32,
    )
        requires
            old(self)@.state == RecorderState::Recording,
        ensures
            final(self)@ == spec_record(
                old(self)@,
                Command::DrawIndexed {
                    index_count,
                    instance_count,
                    first_index,
                    vertex_offset,
                    first_instance,
                },
            ),
            final(self).raw_spec() == old(self).raw_spec(),
    {
        self.record(
            Command::DrawIndexed { index_count, instance_count, first_index, vertex_offset, first_instance },
        );
    }

    /// Ends recording, closing an open render pass scope first.
    pub fn end(&mut self)
        requires
            old(self)@.state == RecorderState::Recording,
        ensures
            final(self)@ == spec_end(old(self)@),
            final(self).raw_spec() == old(self).raw_spec(),
    {
        if self.in_render_pass {
            self.commands.push(Command::EndRenderPass);
            self.in_render_pass = false;
        }
        self.frame_extent = None;
        self.state = RecorderState::Executable;
    }

    /// Records that the recorder was submitted to a queue.
    pub fn submitted(&mut self)
        requires
            old(self)@.state == RecorderState::Executable,
        ensures
            final(self)@ == (RecorderModel { state: RecorderState::Pending, ..old(self)@ }),
            final(self).raw_spec() == old(self).raw_spec(),
    {
        self.state = RecorderState::Pending;
    }

    /// Records that the submission was proven complete, by a fence wait.
    pub fn completed(&mut self)
        requires
            old(self)@.state == RecorderState::Pending,
        ensures
            final(self)@ == (RecorderModel { state: RecorderState::Executable, ..old(self)@ }),
            final(self).raw_spec() == old(self).raw_spec(),
    {
        self.state = RecorderState::Executable;
    }

    /// Discards everything recorded. A recorder whose submission is still
    /// pending cannot be reset.
    pub fn reset(&mut self)
        requires
            old(self)@.state != RecorderState::Pending,
        ensures
            final(self)@ == spec_reset(old(self)@),
            final(self).raw_spec() == old(self).raw_spec(),
    {
        self.state = RecorderState::Initial;
        self.in_render_pass = false;
        self.frame_extent = None;
        self.commands = Vec::new();
        assert(self.commands@ =~= Seq::<Command>::empty());
    }
}

/// Appending commands leaves a recorder's state and render pass scope as they were.
proof fn lemma_record_all_keeps_state(m: RecorderModel, cs: Seq<Command>)
    ensures
        record_all(m, cs).state == m.state,
        record_all(m, cs).in_render_pass == m.in_render_pass,
        record_all(m, cs).frame_extent == m.frame_extent,
    decreases cs.len(),
{
    if cs.len() > 0 {
        lemma_record_all_keeps_state(m, cs.drop_last());
    }
}

/// `begin`, any recording, `end` and `reset` bring a recorder back to its
/// initial state, from which `begin` is allowed again, and the recorder then
/// holds only what the new `begin` recorded: nothing of the earlier
/// recording remains to be executed.
pub proof fn lemma_reset_discards_recording(
    m: RecorderModel,
    first: RenderPassBeginDescriptor,
    recorded: Seq<Command>,
    second: RenderPassBeginDescriptor,
)
    requires
        m.state == RecorderState::Initial,
    ensures
        record_all(spec_begin(m, first), recorded).state == RecorderState::Recording,
        spec_reset(spec_end(record_all(spec_begin(m, first), recorded))) == initial_model(),
        spec_begin(spec_reset(spec_end(record_all(spec_begin(m, first), recorded))), second).commands
            == begin_commands(second),
{
    lemma_record_all_keeps_state(spec_begin(m, first), recorded);
    assert(Seq::<Command>::empty() + begin_commands(second) =~= begin_commands(second));
}

} // verus!
