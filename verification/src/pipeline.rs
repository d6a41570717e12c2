//! The fixed render pipeline: one configuration, decided at build time,
//! used for every draw the renderer submits.
//!
//! The descriptor pins the vertex-stage inputs (the two buffer streams of
//! [`crate::layout`]), the bind groups (camera uniform at group 0, material
//! texture and sampler at group 1), triangle-list topology with back-face
//! culling and a clockwise front convention, a depth test writing with the
//! "less" comparison and no stencil, and no multisampling.

use vstd::prelude::*;

use crate::layout::{instance_buffer_layout, is_instance_layout, is_vertex_layout,
    vertex_buffer_layout, BufferLayout};
use crate::surface::SurfaceFormat;

verus! {

/// How vertices are assembled into primitives.
#[derive(Clone, Copy, Debug, PartialEq, Eq, Structural)]
pub enum PrimitiveTopology {
    PointList,
    LineList,
    LineStrip,
    TriangleList,
    TriangleStrip,
}

/// Which winding a front-facing primitive has.
#[derive(Clone, Copy, Debug, PartialEq, Eq, Structural)]
pub enum FrontFace {
    Clockwise,
    CounterClockwise,
}

/// Which side of a primitive is discarded by culling.
#[derive(Clone, Copy, Debug, PartialEq, Eq, Structural)]
pub enum CullFace {
    Front,
    Back,
}

/// The comparison a fragment's depth must pass against the stored depth.
#[derive(Clone, Copy, Debug, PartialEq, Eq, Structural)]
pub enum CompareFunction {
    Never,
    Less,
    Equal,
    LessEqual,
    Greater,
    NotEqual,
    GreaterEqual,
    Always,
}

/// The depth-stencil state of the pipeline.
#[derive(Clone, Copy, Debug, PartialEq, Eq, Structural)]
pub struct DepthStencilDesc {
    pub depth_write_enabled: bool,
    pub depth_compare: CompareFunction,
    pub stencil_enabled: bool,
}

/// The shader stage a binding is visible to.
#[derive(Clone, Copy, Debug, PartialEq, Eq, Structural)]
pub enum ShaderStage {
    Vertex,
    Fragment,
}

/// What kind of resource a binding carries.
#[derive(Clone, Copy, Debug, PartialEq, Eq, Structural)]
pub enum BindingType {
    /// A uniform buffer.
    UniformBuffer,
    /// A filterable two-dimensional color texture.
    FilterableTexture2d,
    /// A filtering sampler.
    FilteringSampler,
}

/// One binding of a bind group.
#[derive(Clone, Copy, Debug, PartialEq, Eq, Structural)]
pub struct BindGroupEntryDesc {
    pub binding: u32,
    pub visibility: ShaderStage,
    pub ty: BindingType,
}

/// The layout of one bind group.
#[derive(Debug)]
pub struct BindGroupLayoutDesc {
    pub entries: Vec<BindGroupEntryDesc>,
}

/// The whole pipeline configuration.
#[derive(Debug)]
pub struct PipelineDesc {
    /// The vertex-stage buffer streams: per-vertex at slot 0, per-instance
    /// at slot 1.
    pub vertex_buffers: Vec<BufferLayout>,
    /// The bind groups: camera uniform at group 0, material at group 1.
    pub bind_group_layouts: Vec<BindGroupLayoutDesc>,
    /// The color format of the surface the pipeline renders to.
    pub color_format: SurfaceFormat,
    pub topology: PrimitiveTopology,
    pub front_face: FrontFace,
    pub cull_mode: Option<CullFace>,
    pub depth_stencil: DepthStencilDesc,
    /// One sample per pixel: no multisampling.
    pub sample_count: u32,
}

/// The one pipeline configuration this renderer builds, for a given surface
/// color format.
pub open spec fn is_standard_pipeline(p: PipelineDesc, format: SurfaceFormat) -> bool {
    &&& p.vertex_buffers@.len() == 2
    &&& is_vertex_layout(p.vertex_buffers@[0])
    &&& is_instance_layout(p.vertex_buffers@[1])
    &&& p.bind_group_layouts@.len() == 2
    &&& p.bind_group_layouts@[0].entries@ =~= seq![
        (BindGroupEntryDesc {
            binding: 0,
            visibility: ShaderStage::Vertex,
            ty: BindingType::UniformBuffer,
        }),
    ]
    &&& p.bind_group_layouts@[1].entries@ =~= seq![
        (BindGroupEntryDesc {
            binding: 0,
            visibility: ShaderStage::Fragment,
            ty: BindingType::FilterableTexture2d,
        }),
        (BindGroupEntryDesc {
            binding: 1,
            visibility: ShaderStage::Fragment,
            ty: BindingType::FilteringSampler,
        }),
    ]
    &&& p.color_format == format
    &&& p.topology == PrimitiveTopology::TriangleList
    &&& p.front_face == FrontFace::Clockwise
    &&& p.cull_mode == Some(CullFace::Back)
    &&& p.depth_stencil == (DepthStencilDesc {
        depth_write_enabled: true,
        depth_compare: CompareFunction::Less,
        stencil_enabled: false,
    })
    &&& p.sample_count == 1
}

/// Builds the pipeline configuration for the given surface color format.
pub fn pipeline_descriptor(format: &SurfaceFormat) -> (p: PipelineDesc)
    ensures
        is_standard_pipeline(p, *format),
{
    let vertex_buffers: Vec<BufferLayout> = vec![vertex_buffer_layout(), instance_buffer_layout()];
    let camera_group = BindGroupLayoutDesc {
        entries: vec![
            BindGroupEntryDesc {
                binding: 0,
                visibility: ShaderStage::Vertex,
                ty: BindingType::UniformBuffer,
            },
        ],
    };
    let material_group = BindGroupLayoutDesc {
        entries: vec![
            BindGroupEntryDesc {
                binding: 0,
                visibility: ShaderStage::Fragment,
                ty: BindingType::FilterableTexture2d,
            },
            BindGroupEntryDesc {
                binding: 1,
                visibility: ShaderStage::Fragment,
                ty: BindingType::FilteringSampler,
            },
        ],
    };
    let bind_group_layouts: Vec<BindGroupLayoutDesc> = vec![camera_group, material_group];
    PipelineDesc {
        vertex_buffers,
        bind_group_layouts,
        color_format: *format,
        topology: PrimitiveTopology::TriangleList,
        front_face: FrontFace::Clockwise,
        cull_mode: Some(CullFace::Back),
        depth_stencil: DepthStencilDesc {
            depth_write_enabled: true,
            depth_compare: CompareFunction::Less,
            stencil_enabled: false,
        },
        sample_count: 1,
    }
}

} // verus!
