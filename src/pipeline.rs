use vstd::prelude::*;

use crate::buffer::Buffer;
use crate::error::{NxError, NxResult};
use crate::renderpass::RenderPass;
use crate::shader::{ShaderStage, ShaderStageDescriptor};

verus! {

#[derive(Clone, Copy, Debug, PartialEq, Eq, Structural)]
pub enum PrimitiveTopology {
    TriangleList,
    TriangleFan,
    TriangleStrip,
    LineStrip,
}

impl PrimitiveTopology {
    pub open spec fn raw_spec(self) -> i32 {
        match self {
            PrimitiveTopology::TriangleList => 3,
            PrimitiveTopology::TriangleFan => 5,
            PrimitiveTopology::TriangleStrip => 4,
            PrimitiveTopology::LineStrip => 2,
        }
    }

    /// The driver's code for this topology.
    pub fn to_raw(self) -> (c: i32)
        ensures
            c == self.raw_spec(),
    {
        match self {
            PrimitiveTopology::TriangleList => 3,
            PrimitiveTopology::TriangleFan => 5,
            PrimitiveTopology::TriangleStrip => 4,
            PrimitiveTopology::LineStrip => 2,
        }
    }
}

#[derive(Clone, Copy, Debug, PartialEq, Eq, Structural)]
pub enum BindPoint {
    Graphics,
}

impl BindPoint {
    /// The driver's code for this bind point.
    pub fn to_raw(self) -> (c: i32)
        ensures
            c == 0,
    {
        match self {
            BindPoint::Graphics => 0,
        }
    }
}

#[derive(Clone, Copy, Debug, PartialEq, Eq, Structural)]
pub struct PipelineLayoutDescriptor {
    pub render_pass: Option<RenderPass>,
    pub set_layout_descriptor: Option<ResourceLayout>,
}

impl PipelineLayoutDescriptor {
    pub fn empty() -> (d: Self)
        ensures
            d.render_pass is None && d.set_layout_descriptor is None,
    {
        PipelineLayoutDescriptor { render_pass: None, set_layout_descriptor: None }
    }

    pub fn resource(self, resource: &ResourceLayout) -> (d: Self)
        ensures
            d == (Self { set_layout_descriptor: Some(*resource), ..self }),
    {
        Self { set_layout_descriptor: Some(*resource), ..self }
    }

    pub fn render_pass(self, render_pass: &RenderPass) -> (d: Self)
        ensures
            d == (Self { render_pass: Some(*render_pass), ..self }),
    {
        Self { render_pass: Some(*render_pass), ..self }
    }
}

#[derive(Clone, Copy, Debug, PartialEq, Eq, Structural)]
pub struct VertexInputBindingDescriptor {
    pub binding: u32,
    pub stride: usize,
}

impl VertexInputBindingDescriptor {
    pub fn empty() -> (d: Self)
        ensures
            d.binding == 0 && d.stride == 0,
    {
        VertexInputBindingDescriptor { binding: 0, stride: 0 }
    }

    pub fn binding(self, binding: u32) -> (d: Self)
        ensures
            d == (Self { binding, ..self }),
    {
        Self { binding, ..self }
    }

    pub fn stride(self, stride: usize) -> (d: Self)
        ensures
            d == (Self { stride, ..self }),
    {
        Self { stride, ..self }
    }
}

#[derive(Clone, Copy, Debug, PartialEq, Eq, Structural)]
pub enum DataFormat {
    R32G32SFloat,
    R32G32B32SFloat,
    R32G32B32A32SFloat,
}

impl DataFormat {
    pub open spec fn raw_spec(self) -> i32 {
        match self {
            DataFormat::R32G32SFloat => 103,
            DataFormat::R32G32B32SFloat => 106,
            DataFormat::R32G32B32A32SFloat => 109,
        }
    }

    /// The driver's code for this format.
    pub fn to_raw(self) -> (c: i32)
        ensures
            c == self.raw_spec(),
    {
        match self {
            DataFormat::R32G32SFloat => 103,
            DataFormat::R32G32B32SFloat => 106,
            DataFormat::R32G32B32A32SFloat => 109,
        }
    }
}

#[derive(Clone, Copy, Debug, PartialEq, Eq, Structural)]
pub struct VertexInputAttributeDescriptor {
    pub binding: u32,
    pub location: u32,
    pub offset: usize,
    pub format: DataFormat,
}

impl VertexInputAttributeDescriptor {
    pub fn empty() -> (d: Self)
        ensures
            d.binding == 0 && d.location == 0 && d.offset == 0,
            d.format == DataFormat::R32G32SFloat,
    {
        VertexInputAttributeDescriptor { binding: 0, location: 0, offset: 0, format: DataFormat::R32G32SFloat }
    }

    pub fn binding(self, binding: u32) -> (d: Self)
        ensures
            d == (Self { binding, ..self }),
    {
        Self { binding, ..self }
    }

    pub fn location(self, location: u32) -> (d: Self)
        ensures
            d == (Self { location, ..self }),
    {
        Self { location, ..self }
    }

    pub fn offset(self, offset: usize) -> (d: Self)
        ensures
            d == (Self { offset, ..self }),
    {
        Self { offset, ..self }
    }

    pub fn format(self, format: DataFormat) -> (d: Self)
        ensures
            d == (Self { format, ..self }),
    {
        Self { format, ..self }
    }
}

#[derive(Clone, Debug, PartialEq, Eq)]
pub struct PipelineVertexInputDescriptor {
    pub binding_desc: Vec<VertexInputBindingDescriptor>,
    pub attribute_desc: Vec<VertexInputAttributeDescriptor>,
}

impl PipelineVertexInputDescriptor {
    pub fn empty() -> (d: Self)
        ensures
            d.binding_desc@.len() == 0 && d.attribute_desc@.len() == 0,
    {
        PipelineVertexInputDescriptor { binding_desc: Vec::new(), attribute_desc: Vec::new() }
    }

    pub fn binding_desc(self, binding_desc: &[VertexInputBindingDescriptor]) -> (d: Self)
        ensures
            d.binding_desc@ == binding_desc@,
            d.attribute_desc@ == self.attribute_desc@,
    {
        PipelineVertexInputDescriptor { binding_desc: vstd::slice::slice_to_vec(binding_desc), ..self }
    }

    pub fn attribute_desc(self, attribute_desc: &[VertexInputAttributeDescriptor]) -> (d: Self)
        ensures
            d.binding_desc@ == self.binding_desc@,
            d.attribute_desc@ == attribute_desc@,
    {
        PipelineVertexInputDescriptor { attribute_desc: vstd::slice::slice_to_vec(attribute_desc), ..self }
    }
}

/// Descriptor type code of a uniform buffer.
pub const DESCRIPTOR_TYPE_UNIFORM_BUFFER: i32 = 6;

#[derive(Clone, Copy, Debug, PartialEq, Eq, Structural)]
pub enum ResourceType {
    UniformBuffer,
}

impl ResourceType {
    /// The driver's code for this resource type.
    pub fn to_raw(self) -> (c: i32)
        ensures
            c == DESCRIPTOR_TYPE_UNIFORM_BUFFER,
    {
        match self {
            ResourceType::UniformBuffer => DESCRIPTOR_TYPE_UNIFORM_BUFFER,
        }
    }
}

#[derive(Clone, Copy, Debug, PartialEq, Eq, Structural)]
pub struct ResourcePoolSize {
    pub resource_type: ResourceType,
    pub count: u32,
}

impl ResourcePoolSize {
    pub fn empty() -> (s: Self)
        ensures
            s.resource_type == ResourceType::UniformBuffer,
            s.count == 1,
    {
        ResourcePoolSize { resource_type: ResourceType::UniformBuffer, count: 1 }
    }
}

#[derive(Clone, Debug, PartialEq, Eq)]
pub struct ResourcePoolDescriptor {
    pub pool_sizes: Vec<ResourcePoolSize>,
    pub max_sets: u32,
}

impl ResourcePoolDescriptor {
    pub fn empty() -> (d: Self)
        ensures
            d.pool_sizes@.len() == 0,
            d.max_sets == 1,
    {
        ResourcePoolDescriptor { pool_sizes: Vec::new(), max_sets: 1 }
    }

    pub fn pool_sizes(self, pool_sizes: &[ResourcePoolSize]) -> (d: Self)
        ensures
            d.pool_sizes@ == pool_sizes@,
            d.max_sets == self.max_sets,
    {
        ResourcePoolDescriptor { pool_sizes: vstd::slice::slice_to_vec(pool_sizes), ..self }
    }

    pub fn max_sets(self, max_sets: u32) -> (d: Self)
        ensures
            d.pool_sizes@ == self.pool_sizes@,
            d.max_sets == max_sets,
    {
        ResourcePoolDescriptor { max_sets, ..self }
    }
}

/// A pool that resource sets are allocated from, by its driver handle.
#[derive(Clone, Copy, Debug, PartialEq, Eq, Structural)]
pub struct ResourcePool {
    pub handle: u64,
}

/// The driver's form of a pool size: a resource type code and a count.
pub open spec fn pool_size_info(p: ResourcePoolSize) -> (i32, u32) {
    (DESCRIPTOR_TYPE_UNIFORM_BUFFER, p.count)
}

impl ResourcePool {
    /// The pool sizes of a pool made from `descriptor`, in order; the pool
    /// holds at most `descriptor.max_sets` sets.
    pub fn create_info(descriptor: &ResourcePoolDescriptor) -> (r: Vec<(i32, u32)>)
        ensures
            r@ == descriptor.pool_sizes@.map_values(|p: ResourcePoolSize| pool_size_info(p)),
    {
        let sizes = descriptor.pool_sizes.as_slice();
        let mut v: Vec<(i32, u32)> = Vec::new();
        let mut i: usize = 0;
        while i < sizes.len()
            invariant
                i <= sizes@.len(),
                sizes@ == descriptor.pool_sizes@,
                v@ == sizes@.take(i as int).map_values(|p: ResourcePoolSize| pool_size_info(p)),
            decreases sizes@.len() - i,
        {
            v.push((sizes[i].resource_type.to_raw(), sizes[i].count));
            assert(sizes@.take(i + 1) == sizes@.take(i as int).push(sizes@[i as int]));
            i = i + 1;
        }
        assert(sizes@.take(i as int) == sizes@);
        v
    }

    pub fn from_raw(handle: u64) -> (p: Self)
        ensures
            p.handle == handle,
    {
        ResourcePool { handle }
    }
}

/// One buffer bound to a resource set: the whole of a value of type `T`
/// at the start of the buffer.
#[derive(Clone, Copy, Debug, PartialEq, Eq, Structural)]
pub struct ResourceBufferDescriptor {
    pub buffer: u64,
    pub offset: u64,
    pub range: usize,
}

impl ResourceBufferDescriptor {
    pub fn new<T>(buffer: &Buffer) -> (d: Self)
        ensures
            d.buffer == buffer.handle,
            d.offset == 0,
            d.range == vstd::layout::size_of::<T>(),
    {
        let range = core::mem::size_of::<T>();
        ResourceBufferDescriptor { buffer: buffer.handle, offset: 0, range }
    }
}

#[derive(Clone, Debug, PartialEq, Eq)]
pub struct ResourceUpdateDescriptor {
    pub resource: Resource,
    pub binding: u32,
    pub array_element: u32,
    pub resource_type: ResourceType,
    pub buffer_desc: Vec<ResourceBufferDescriptor>,
}

impl ResourceUpdateDescriptor {
    pub fn new(resource: &Resource) -> (d: Self)
        ensures
            d.resource == *resource,
            d.binding == 0 && d.array_element == 0,
            d.resource_type == ResourceType::UniformBuffer,
            d.buffer_desc@.len() == 0,
    {
        ResourceUpdateDescriptor {
            resource: *resource,
            binding: 0,
            array_element: 0,
            resource_type: ResourceType::UniformBuffer,
            buffer_desc: Vec::new(),
        }
    }

    pub fn buffer_desc(self, buffer_desc: &[ResourceBufferDescriptor]) -> (d: Self)
        ensures
            d.resource == self.resource,
            d.binding == self.binding && d.array_element == self.array_element,
            d.resource_type == self.resource_type,
            d.buffer_desc@ == buffer_desc@,
    {
        ResourceUpdateDescriptor { buffer_desc: vstd::slice::slice_to_vec(buffer_desc), ..self }
    }
}

/// One update of a resource set as the driver takes it: buffers bound from
/// `binding` and `array_element` on, each as `(buffer, offset, range)`.
#[derive(Clone, Debug, PartialEq, Eq)]
pub struct ResourceWrite {
    pub set: u64,
    pub binding: u32,
    pub array_element: u32,
    pub descriptor_type: i32,
    pub buffers: Vec<(u64, u64, u64)>,
}

/// The driver's form of one buffer of an update.
pub open spec fn buffer_write_info(b: ResourceBufferDescriptor) -> (u64, u64, u64) {
    (b.buffer, b.offset, b.range as u64)
}

impl ResourceUpdateDescriptor {
    /// The update of the descriptor's resource set with its buffers.
    pub fn write_info(&self) -> (w: ResourceWrite)
        ensures
            w.set == self.resource.descriptor_set,
            w.binding == self.binding && w.array_element == self.array_element,
            w.descriptor_type == DESCRIPTOR_TYPE_UNIFORM_BUFFER,
            w.buffers@ == self.buffer_desc@.map_values(|b: ResourceBufferDescriptor| buffer_write_info(b)),
    {
        let descs = self.buffer_desc.as_slice();
        let mut v: Vec<(u64, u64, u64)> = Vec::new();
        let mut i: usize = 0;
        while i < descs.len()
            invariant
                i <= descs@.len(),
                descs@ == self.buffer_desc@,
                v@ == descs@.take(i as int).map_values(|b: ResourceBufferDescriptor| buffer_write_info(b)),
            decreases descs@.len() - i,
        {
            let b = descs[i];
            v.push((b.buffer, b.offset, b.range as u64));
            assert(descs@.take(i + 1) == descs@.take(i as int).push(descs@[i as int]));
            i = i + 1;
        }
        assert(descs@.take(i as int) == descs@);
        ResourceWrite {
            set: self.resource.descriptor_set,
            binding: self.binding,
            array_element: self.array_element,
            descriptor_type: self.resource_type.to_raw(),
            buffers: v,
        }
    }
}

/// A resource set, by its driver handle and the pool it came from.
#[derive(Clone, Copy, Debug, PartialEq, Eq, Structural)]
pub struct Resource {
    pub descriptor_set: u64,
    pub pool: u64,
}

impl Resource {
    /// The resource sets that the driver allocated from `pool`, in order.
    pub fn allocate(pool: &ResourcePool, sets: &[u64]) -> (r: Vec<Resource>)
        ensures
            r@.len() == sets@.len(),
            forall|i: int|
                0 <= i < sets@.len() ==> #[trigger] r@[i] == (Resource {
                    descriptor_set: sets@[i],
                    pool: pool.handle,
                }),
    {
        let mut v: Vec<Resource> = Vec::new();
        let mut i: usize = 0;
        while i < sets.len()
            invariant
                i <= sets@.len(),
                v@.len() == i,
                forall|j: int|
                    0 <= j < i ==> #[trigger] v@[j] == (Resource {
                        descriptor_set: sets@[j],
                        pool: pool.handle,
                    }),
            decreases sets@.len() - i,
        {
            v.push(Resource { descriptor_set: sets[i], pool: pool.handle });
            i = i + 1;
        }
        v
    }
}

#[derive(Clone, Copy, Debug, PartialEq, Eq, Structural)]
pub struct ResourceLayoutBinding {
    pub binding: u32,
    pub desc_type: ResourceType,
    pub count: u32,
    pub flags: ShaderStage,
}

impl ResourceLayoutBinding {
    pub fn empty() -> (b: Self)
        ensures
            b.binding == 0 && b.count == 0,
            b.desc_type == ResourceType::UniformBuffer,
            b.flags == ShaderStage::Vertex,
    {
        ResourceLayoutBinding {
            binding: 0,
            desc_type: ResourceType::UniformBuffer,
            count: 0,
            flags: ShaderStage::Vertex,
        }
    }

    pub fn binding(self, binding: u32) -> (b: Self)
        ensures
            b == (Self { binding, ..self }),
    {
        Self { binding, ..self }
    }

    pub fn resource_type(self, desc_type: ResourceType) -> (b: Self)
        ensures
            b == (Self { desc_type, ..self }),
    {
        Self { desc_type, ..self }
    }

    pub fn count(self, count: u32) -> (b: Self)
        ensures
            b == (Self { count, ..self }),
    {
        Self { count, ..self }
    }

    pub fn shader_stage(self, stage: ShaderStage) -> (b: Self)
        ensures
            b == (Self { flags: stage, ..self }),
    {
        Self { flags: stage, ..self }
    }
}

/// One binding of a resource layout as the driver takes it.
#[derive(Clone, Copy, Debug, PartialEq, Eq, Structural)]
pub struct LayoutBindingInfo {
    pub binding: u32,
    pub descriptor_type: i32,
    pub descriptor_count: u32,
    pub stage_flags: u32,
}

/// A resource layout, by its driver handle.
#[derive(Clone, Copy, Debug, PartialEq, Eq, Structural)]
pub struct ResourceLayout {
    pub handle: u64,
}

impl ResourceLayout {
    /// The bindings of a layout, in the order given.
    pub fn bindings_info(descriptor: &[ResourceLayoutBinding]) -> (r: Vec<LayoutBindingInfo>)
        ensures
            r@.len() == descriptor@.len(),
            forall|i: int|
                0 <= i < descriptor@.len() ==> #[trigger] r@[i] == (LayoutBindingInfo {
                    binding: descriptor@[i].binding,
                    descriptor_type: DESCRIPTOR_TYPE_UNIFORM_BUFFER,
                    descriptor_count: descriptor@[i].count,
                    stage_flags: descriptor@[i].flags.flags_spec(),
                }),
    {
        let mut v: Vec<LayoutBindingInfo> = Vec::new();
        let mut i: usize = 0;
        while i < descriptor.len()
            invariant
                i <= descriptor@.len(),
                v@.len() == i,
                forall|j: int|
                    0 <= j < i ==> #[trigger] v@[j] == (LayoutBindingInfo {
                        binding: descriptor@[j].binding,
                        descriptor_type: DESCRIPTOR_TYPE_UNIFORM_BUFFER,
                        descriptor_count: descriptor@[j].count,
                        stage_flags: descriptor@[j].flags.flags_spec(),
                    }),
            decreases descriptor@.len() - i,
        {
            let b = descriptor[i];
            v.push(
                LayoutBindingInfo {
                    binding: b.binding,
                    descriptor_type: b.desc_type.to_raw(),
                    descriptor_count: b.count,
                    stage_flags: b.flags.to_flags(),
                },
            );
            i = i + 1;
        }
        v
    }

    pub fn from_raw(handle: u64) -> (l: Self)
        ensures
            l.handle == handle,
    {
        ResourceLayout { handle }
    }
}

} // verus!

verus! {

/// Stores information needed to create a graphics pipeline. The viewport
/// and scissor cover `width` by `height` from the origin; the viewport's
/// depth range is always 0 to 1.
#[derive(Clone, Debug, PartialEq, Eq)]
pub struct PipelineDescriptor<'a> {
    pub width: u32,
    pub height: u32,
    pub topology: PrimitiveTopology,
    pub shader_stages: Vec<ShaderStageDescriptor<'a>>,
    pub input_descriptor: Option<PipelineVertexInputDescriptor>,
}

impl<'a> PipelineDescriptor<'a> {
    pub fn empty() -> (d: Self)
        ensures
            d.width == 100 && d.height == 100,
            d.topology == PrimitiveTopology::TriangleList,
            d.shader_stages@.len() == 0,
            d.input_descriptor is None,
    {
        PipelineDescriptor {
            width: 100,
            height: 100,
            topology: PrimitiveTopology::TriangleList,
            shader_stages: Vec::new(),
            input_descriptor: None,
        }
    }

    pub fn topology(self, topology: PrimitiveTopology) -> (d: Self)
        ensures
            d.topology == topology,
            d.width == self.width && d.height == self.height,
            d.shader_stages@ == self.shader_stages@,
            d.input_descriptor == self.input_descriptor,
    {
        PipelineDescriptor { topology, ..self }
    }

    pub fn input_descriptor(self, input_descriptor: &PipelineVertexInputDescriptor) -> (d: Self)
        ensures
            d.input_descriptor is Some,
            d.input_descriptor->0.binding_desc@ == input_descriptor.binding_desc@,
            d.input_descriptor->0.attribute_desc@ == input_descriptor.attribute_desc@,
            d.topology == self.topology,
            d.width == self.width && d.height == self.height,
            d.shader_stages@ == self.shader_stages@,
    {
        let copy = PipelineVertexInputDescriptor {
            binding_desc: vstd::slice::slice_to_vec(input_descriptor.binding_desc.as_slice()),
            attribute_desc: vstd::slice::slice_to_vec(input_descriptor.attribute_desc.as_slice()),
        };
        PipelineDescriptor { input_descriptor: Some(copy), ..self }
    }

    pub fn width(self, width: u32) -> (d: Self)
        ensures
            d.width == width && d.height == self.height,
            d.topology == self.topology,
            d.shader_stages@ == self.shader_stages@,
            d.input_descriptor == self.input_descriptor,
    {
        PipelineDescriptor { width, ..self }
    }

    pub fn height(self, height: u32) -> (d: Self)
        ensures
            d.width == self.width && d.height == height,
            d.topology == self.topology,
            d.shader_stages@ == self.shader_stages@,
            d.input_descriptor == self.input_descriptor,
    {
        PipelineDescriptor { height, ..self }
    }

    pub fn shader_stages(self, shader_stages: &[ShaderStageDescriptor<'a>]) -> (d: Self)
        ensures
            d.width == self.width && d.height == self.height,
            d.topology == self.topology,
            d.shader_stages@ == shader_stages@,
            d.input_descriptor == self.input_descriptor,
    {
        PipelineDescriptor { shader_stages: vstd::slice::slice_to_vec(shader_stages), ..self }
    }
}

/// A pipeline layout, by its driver handle.
#[derive(Clone, Copy, Debug, PartialEq, Eq, Structural)]
pub struct PipelineLayout {
    pub handle: u64,
}

impl PipelineLayout {
    /// The resource layouts that a pipeline layout is made of: the
    /// descriptor's one layout, or none.
    pub fn set_layouts(descriptor: &PipelineLayoutDescriptor) -> (r: Vec<u64>)
        ensures
            descriptor.set_layout_descriptor is None ==> r@.len() == 0,
            descriptor.set_layout_descriptor is Some ==> r@ == seq![
                descriptor.set_layout_descriptor->0.handle,
            ],
    {
        let mut v: Vec<u64> = Vec::new();
        match descriptor.set_layout_descriptor {
            None => {},
            Some(l) => {
                v.push(l.handle);
            },
        }
        v
    }

    pub fn from_raw(handle: u64) -> (l: Self)
        ensures
            l.handle == handle,
    {
        PipelineLayout { handle }
    }
}

/// One shader stage as the driver takes it.
#[derive(Clone, Copy, Debug, PartialEq, Eq)]
pub struct ShaderStageInfo<'a> {
    pub stage_flags: u32,
    pub module: u64,
    pub entry_point: &'a str,
}

/// One vertex buffer binding as the driver takes it; vertices advance per vertex.
#[derive(Clone, Copy, Debug, PartialEq, Eq, Structural)]
pub struct VertexBindingInfo {
    pub binding: u32,
    pub stride: u32,
}

/// One vertex attribute as the driver takes it.
#[derive(Clone, Copy, Debug, PartialEq, Eq, Structural)]
pub struct VertexAttributeInfo {
    pub binding: u32,
    pub location: u32,
    pub offset: u32,
    pub format: i32,
}

/// The parameters of a graphics pipeline that depend on its descriptor. The
/// fixed-function state the driver gets besides is constant: filled
/// polygons, back faces culled, clockwise front faces, one sample, no
/// blending, every color channel written, subpass 0.
#[derive(Clone, Debug, PartialEq, Eq)]
pub struct PipelineCreateInfo<'a> {
    pub stages: Vec<ShaderStageInfo<'a>>,
    pub width: u32,
    pub height: u32,
    pub topology: i32,
    pub bindings: Vec<VertexBindingInfo>,
    pub attributes: Vec<VertexAttributeInfo>,
    pub layout: u64,
    pub render_pass: u64,
}

/// The driver's form of a stage that names its shader.
pub open spec fn stage_info(s: ShaderStageDescriptor) -> ShaderStageInfo {
    ShaderStageInfo { stage_flags: s.stage.flags_spec(), module: s.shaders->0.handle, entry_point: s.entry_point }
}

/// Every stage names its shader.
pub open spec fn stages_complete(stages: Seq<ShaderStageDescriptor>) -> bool {
    forall|i: int| 0 <= i < stages.len() ==> (#[trigger] stages[i]).shaders is Some
}

/// Every stride and offset of the vertex input fits the driver's 32 bits.
pub open spec fn input_fits(input: Option<PipelineVertexInputDescriptor>) -> bool {
    match input {
        None => true,
        Some(d) => {
            &&& forall|i: int|
                0 <= i < d.binding_desc@.len() ==> (#[trigger] d.binding_desc@[i]).stride <= u32::MAX
            &&& forall|i: int|
                0 <= i < d.attribute_desc@.len() ==> (#[trigger] d.attribute_desc@[i]).offset <= u32::MAX
        },
    }
}

/// The driver's form of a vertex binding whose stride fits.
pub open spec fn binding_info(b: VertexInputBindingDescriptor) -> VertexBindingInfo {
    VertexBindingInfo { binding: b.binding, stride: b.stride as u32 }
}

/// The driver's form of a vertex attribute whose offset fits.
pub open spec fn attribute_info(a: VertexInputAttributeDescriptor) -> VertexAttributeInfo {
    VertexAttributeInfo {
        binding: a.binding,
        location: a.location,
        offset: a.offset as u32,
        format: a.format.raw_spec(),
    }
}

/// The vertex bindings of a descriptor's vertex input, none without one.
pub open spec fn input_bindings(input: Option<PipelineVertexInputDescriptor>) -> Seq<VertexBindingInfo> {
    match input {
        None => Seq::empty(),
        Some(d) => d.binding_desc@.map_values(|b: VertexInputBindingDescriptor| binding_info(b)),
    }
}

/// The vertex attributes of a descriptor's vertex input, none without one.
pub open spec fn input_attributes(input: Option<PipelineVertexInputDescriptor>) -> Seq<VertexAttributeInfo> {
    match input {
        None => Seq::empty(),
        Some(d) => d.attribute_desc@.map_values(|a: VertexInputAttributeDescriptor| attribute_info(a)),
    }
}

fn stage_infos<'a>(stages: &[ShaderStageDescriptor<'a>]) -> (r: NxResult<Vec<ShaderStageInfo<'a>>>)
    ensures
        r is Ok <==> stages_complete(stages@),
        r is Ok ==> r->Ok_0@ == stages@.map_values(|s: ShaderStageDescriptor<'a>| stage_info(s)),
        r is Err ==> r->Err_0 == NxError::NoValue,
{
    let mut v: Vec<ShaderStageInfo<'a>> = Vec::new();
    let mut i: usize = 0;
    while i < stages.len()
        invariant
            i <= stages@.len(),
            stages_complete(stages@.take(i as int)),
            v@ == stages@.take(i as int).map_values(|s: ShaderStageDescriptor<'a>| stage_info(s)),
        decreases stages@.len() - i,
    {
        let s = stages[i];
        match s.shaders {
            None => {
                assert((stages@[i as int]).shaders is None);
                return Err(NxError::NoValue);
            },
            Some(shader) => {
                v.push(ShaderStageInfo { stage_flags: s.stage.to_flags(), module: shader.handle, entry_point: s.entry_point });
            },
        }
        assert(stages@.take(i + 1) == stages@.take(i as int).push(stages@[i as int]));
        i = i + 1;
    }
    assert(stages@.take(i as int) == stages@);
    Ok(v)
}

fn vertex_bindings(desc: &[VertexInputBindingDescriptor]) -> (r: NxResult<Vec<VertexBindingInfo>>)
    ensures
        r is Ok <==> forall|i: int| 0 <= i < desc@.len() ==> (#[trigger] desc@[i]).stride <= u32::MAX,
        r is Ok ==> r->Ok_0@ == desc@.map_values(|b: VertexInputBindingDescriptor| binding_info(b)),
        r is Err ==> r->Err_0 == NxError::HardwareError,
{
    let mut v: Vec<VertexBindingInfo> = Vec::new();
    let mut i: usize = 0;
    while i < desc.len()
        invariant
            i <= desc@.len(),
            forall|j: int| 0 <= j < i ==> (#[trigger] desc@[j]).stride <= u32::MAX,
            v@ == desc@.take(i as int).map_values(|b: VertexInputBindingDescriptor| binding_info(b)),
        decreases desc@.len() - i,
    {
        let b = desc[i];
        if b.stride > u32::MAX as usize {
            return Err(NxError::HardwareError);
        }
        v.push(VertexBindingInfo { binding: b.binding, stride: b.stride as u32 });
        assert(desc@.take(i + 1) == desc@.take(i as int).push(desc@[i as int]));
        i = i + 1;
    }
    assert(desc@.take(i as int) == desc@);
    Ok(v)
}

fn vertex_attributes(desc: &[VertexInputAttributeDescriptor]) -> (r: NxResult<Vec<VertexAttributeInfo>>)
    ensures
        r is Ok <==> forall|i: int| 0 <= i < desc@.len() ==> (#[trigger] desc@[i]).offset <= u32::MAX,
        r is Ok ==> r->Ok_0@ == desc@.map_values(|a: VertexInputAttributeDescriptor| attribute_info(a)),
        r is Err ==> r->Err_0 == NxError::HardwareError,
{
    let mut v: Vec<VertexAttributeInfo> = Vec::new();
    let mut i: usize = 0;
    while i < desc.len()
        invariant
            i <= desc@.len(),
            forall|j: int| 0 <= j < i ==> (#[trigger] desc@[j]).offset <= u32::MAX,
            v@ == desc@.take(i as int).map_values(|a: VertexInputAttributeDescriptor| attribute_info(a)),
        decreases desc@.len() - i,
    {
        let a = desc[i];
        if a.offset > u32::MAX as usize {
            return Err(NxError::HardwareError);
        }
        v.push(
            VertexAttributeInfo {
                binding: a.binding,
                location: a.location,
                offset: a.offset as u32,
                format: a.format.to_raw(),
            },
        );
        assert(desc@.take(i + 1) == desc@.take(i as int).push(desc@[i as int]));
        i = i + 1;
    }
    assert(desc@.take(i as int) == desc@);
    Ok(v)
}

/// A graphics pipeline, by its driver handle, with the layout, render pass
/// and viewport size it was made with; none of them can change afterwards.
#[derive(Clone, Copy, Debug, PartialEq, Eq, Structural)]
pub struct Pipeline {
    pub handle: u64,
    pub layout: u64,
    pub render_pass: u64,
    pub width: u32,
    pub height: u32,
}

impl Pipeline {
    /// The parameters of a graphics pipeline: the descriptor's shader
    /// stages, a viewport and scissor of its size, its topology and vertex
    /// input, with the given layout and render pass. `NoValue` when a stage
    /// names no shader; otherwise `HardwareError` when a vertex stride or
    /// offset does not fit in 32 bits.
    pub fn create_info<'a>(
        layout: &PipelineLayout,
        render_pass: &RenderPass,
        descriptor: &PipelineDescriptor<'a>,
    ) -> (r: NxResult<PipelineCreateInfo<'a>>)
        ensures
            r is Ok <==> stages_complete(descriptor.shader_stages@) && input_fits(descriptor.input_descriptor),
            !stages_complete(descriptor.shader_stages@) ==> r == Err::<PipelineCreateInfo<'a>, NxError>(
                NxError::NoValue,
            ),
            stages_complete(descriptor.shader_stages@) && !input_fits(descriptor.input_descriptor) ==> r
                == Err::<PipelineCreateInfo<'a>, NxError>(NxError::HardwareError),
            r is Ok ==> {
                let info = r->Ok_0;
                &&& info.stages@ == descriptor.shader_stages@.map_values(
                    |s: ShaderStageDescriptor<'a>| stage_info(s),
                )
                &&& info.width == descriptor.width && info.height == descriptor.height
                &&& info.topology == descriptor.topology.raw_spec()
                &&& info.bindings@ == input_bindings(descriptor.input_descriptor)
                &&& info.attributes@ == input_attributes(descriptor.input_descriptor)
                &&& info.layout == layout.handle && info.render_pass == render_pass.handle
            },
    {
        let stages = stage_infos(descriptor.shader_stages.as_slice())?;
        let (bindings, attributes) = match &descriptor.input_descriptor {
            None => (Vec::new(), Vec::new()),
            Some(d) => {
                let b = vertex_bindings(d.binding_desc.as_slice())?;
                let a = vertex_attributes(d.attribute_desc.as_slice())?;
                (b, a)
            },
        };
        Ok(
            PipelineCreateInfo {
                stages,
                width: descriptor.width,
                height: descriptor.height,
                topology: descriptor.topology.to_raw(),
                bindings,
                attributes,
                layout: layout.handle,
                render_pass: render_pass.handle,
            },
        )
    }

    /// The pipeline that the driver created under `handle` from `info`.
    pub fn from_raw(handle: u64, info: &PipelineCreateInfo) -> (p: Self)
        ensures
            p.handle == handle,
            p.layout == info.layout && p.render_pass == info.render_pass,
            p.width == info.width && p.height == info.height,
    {
        Pipeline { handle, layout: info.layout, render_pass: info.render_pass, width: info.width, height: info.height }
    }
}

} // verus!
