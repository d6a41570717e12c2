//! Memory layout of the two vertex-stage buffer streams.
//!
//! The pipeline consumes stream 0 once per vertex (position, color, texture
//! coordinates) and stream 1 once per instance (a 4x4 transform split across
//! four vector attributes). The descriptors here fix strides, offsets,
//! formats and shader locations, and their well-formedness — attributes
//! inside the stride, pairwise disjoint, locations unique — is proved.

use vstd::prelude::*;

verus! {

/// Stride of the per-vertex stream: eight 32-bit components.
pub const VERTEX_STRIDE: u64 = 32;

/// Stride of the per-instance stream: a 4x4 matrix of 32-bit entries.
pub const INSTANCE_STRIDE: u64 = 64;

/// Format of one vertex attribute: a vector of 32-bit floats.
#[derive(Clone, Copy, Debug, PartialEq, Eq, Structural)]
pub enum AttributeFormat {
    Float32x2,
    Float32x3,
    Float32x4,
}

impl AttributeFormat {
    /// Size of the attribute in bytes.
    pub open spec fn spec_size(self) -> u64 {
        match self {
            AttributeFormat::Float32x2 => 8,
            AttributeFormat::Float32x3 => 12,
            AttributeFormat::Float32x4 => 16,
        }
    }

    /// Size of the attribute in bytes.
    pub fn size(&self) -> (n: u64)
        ensures
            n == self.spec_size(),
    {
        match self {
            AttributeFormat::Float32x2 => 8,
            AttributeFormat::Float32x3 => 12,
            AttributeFormat::Float32x4 => 16,
        }
    }
}

/// Whether a stream advances per vertex or per instance.
#[derive(Clone, Copy, Debug, PartialEq, Eq, Structural)]
pub enum StepMode {
    Vertex,
    Instance,
}

/// One attribute of a buffer stream.
#[derive(Clone, Copy, Debug, PartialEq, Eq, Structural)]
pub struct BufferAttribute {
    pub format: AttributeFormat,
    pub offset: u64,
    pub shader_location: u32,
}

/// The layout of one vertex-stage buffer stream.
#[derive(Debug)]
pub struct BufferLayout {
    pub array_stride: u64,
    pub step_mode: StepMode,
    pub attributes: Vec<BufferAttribute>,
}

impl BufferLayout {
    /// Attributes lie inside the stride, in increasing order without overlap,
    /// and no two share a shader location.
    pub open spec fn wf(&self) -> bool {
        &&& forall|i: int|
            0 <= i < self.attributes@.len() ==> (#[trigger] self.attributes@[i]).offset
                + self.attributes@[i].format.spec_size() <= self.array_stride
        &&& forall|i: int, j: int|
            0 <= i < j < self.attributes@.len() ==> (#[trigger] self.attributes@[i]).offset
                + self.attributes@[i].format.spec_size() <= (#[trigger] self.attributes@[j]).offset
        &&& forall|i: int, j: int|
            0 <= i < j < self.attributes@.len() ==> (#[trigger] self.attributes@[i]).shader_location
                != (#[trigger] self.attributes@[j]).shader_location
    }

    /// The set of shader locations the stream occupies.
    pub open spec fn spec_locations(&self) -> Set<u32> {
        Set::new(
            |loc: u32|
                exists|i: int|
                    0 <= i < self.attributes@.len() && (#[trigger] self.attributes@[i]).shader_location
                        == loc,
        )
    }
}

/// The exact per-vertex stream: position, color and texture coordinates at
/// offsets 0, 12 and 24 of a 32-byte record, shader locations 0 to 2.
pub open spec fn is_vertex_layout(l: BufferLayout) -> bool {
    &&& l.array_stride == VERTEX_STRIDE
    &&& l.step_mode == StepMode::Vertex
    &&& l.attributes@ =~= seq![
        (BufferAttribute { format: AttributeFormat::Float32x3, offset: 0, shader_location: 0 }),
        (BufferAttribute { format: AttributeFormat::Float32x3, offset: 12, shader_location: 1 }),
        (BufferAttribute { format: AttributeFormat::Float32x2, offset: 24, shader_location: 2 }),
    ]
}

/// The exact per-instance stream: a 4x4 matrix as four 16-byte columns at
/// offsets 0, 16, 32 and 48, shader locations 5 to 8.
pub open spec fn is_instance_layout(l: BufferLayout) -> bool {
    &&& l.array_stride == INSTANCE_STRIDE
    &&& l.step_mode == StepMode::Instance
    &&& l.attributes@ =~= seq![
        (BufferAttribute { format: AttributeFormat::Float32x4, offset: 0, shader_location: 5 }),
        (BufferAttribute { format: AttributeFormat::Float32x4, offset: 16, shader_location: 6 }),
        (BufferAttribute { format: AttributeFormat::Float32x4, offset: 32, shader_location: 7 }),
        (BufferAttribute { format: AttributeFormat::Float32x4, offset: 48, shader_location: 8 }),
    ]
}

/// The layout of the per-vertex stream, slot 0 of the pipeline.
pub fn vertex_buffer_layout() -> (l: BufferLayout)
    ensures
        is_vertex_layout(l),
        l.wf(),
{
    let attributes: Vec<BufferAttribute> = vec![
        BufferAttribute { format: AttributeFormat::Float32x3, offset: 0, shader_location: 0 },
        BufferAttribute { format: AttributeFormat::Float32x3, offset: 12, shader_location: 1 },
        BufferAttribute { format: AttributeFormat::Float32x2, offset: 24, shader_location: 2 },
    ];
    let l = BufferLayout { array_stride: VERTEX_STRIDE, step_mode: StepMode::Vertex, attributes };
    proof {
        lemma_vertex_layout_wf(l);
    }
    l
}

/// The layout of the per-instance stream, slot 1 of the pipeline.
pub fn instance_buffer_layout() -> (l: BufferLayout)
    ensures
        is_instance_layout(l),
        l.wf(),
{
    let attributes: Vec<BufferAttribute> = vec![
        BufferAttribute { format: AttributeFormat::Float32x4, offset: 0, shader_location: 5 },
        BufferAttribute { format: AttributeFormat::Float32x4, offset: 16, shader_location: 6 },
        BufferAttribute { format: AttributeFormat::Float32x4, offset: 32, shader_location: 7 },
        BufferAttribute { format: AttributeFormat::Float32x4, offset: 48, shader_location: 8 },
    ];
    let l = BufferLayout {
        array_stride: INSTANCE_STRIDE,
        step_mode: StepMode::Instance,
        attributes,
    };
    proof {
        lemma_instance_layout_wf(l);
    }
    l
}

/// The per-vertex stream is well formed.
pub proof fn lemma_vertex_layout_wf(l: BufferLayout)
    requires
        is_vertex_layout(l),
    ensures
        l.wf(),
{
}

/// The per-instance stream is well formed.
pub proof fn lemma_instance_layout_wf(l: BufferLayout)
    requires
        is_instance_layout(l),
    ensures
        l.wf(),
{
}

/// The two streams never claim the same shader location, so both can feed one
/// pipeline.
pub proof fn lemma_stream_locations_disjoint(v: BufferLayout, m: BufferLayout)
    requires
        is_vertex_layout(v),
        is_instance_layout(m),
    ensures
        v.spec_locations().disjoint(m.spec_locations()),
{
    assert forall|loc: u32| v.spec_locations().contains(loc) implies !m.spec_locations().contains(
        loc,
    ) by {
        assert(forall|i: int|
            0 <= i < v.attributes@.len() ==> (#[trigger] v.attributes@[i]).shader_location < 3);
        assert(forall|i: int|
            0 <= i < m.attributes@.len() ==> (#[trigger] m.attributes@[i]).shader_location >= 5);
    }
}

} // verus!
