//! The single place where render-pipeline policy is decided.
//!
//! Every renderer describes its pipeline through `create_pipeline`, so the
//! fixed-function defaults (no bound resources, opaque replace blending, all
//! channels written, one sample, no depth or stencil) are the same for all.
use vstd::prelude::*;
use vstd::string::StringExecFns;

use wgpu::TextureFormat;
use crate::vertex::VertexBufferLayout;

verus! {

/// Write mask that enables the red, green, blue and alpha channels.
pub const COLOR_WRITES_ALL: u32 = 0xF;

/// Entry point of the vertex stage in every shader a pipeline is built from.
pub const VERTEX_ENTRY: &'static str = "vs_main";

/// Entry point of the fragment stage in every shader a pipeline is built from.
pub const FRAGMENT_ENTRY: &'static str = "fs_main";

/// How vertices are assembled into primitives.
#[derive(Clone, Copy, Debug, PartialEq, Eq, Structural)]
pub enum PrimitiveTopology {
    PointList,
    LineList,
    LineStrip,
    TriangleList,
    TriangleStrip,
}

/// How a fragment's color is combined with what the target already holds.
#[derive(Clone, Copy, Debug, PartialEq, Eq, Structural)]
pub enum BlendMode {
    /// The fragment's color replaces the target's.
    Replace,
    /// The fragment's color is blended over the target's by its alpha.
    AlphaBlending,
}

/// The one color attachment a pipeline writes to.
#[derive(Clone, Copy, Debug)]
pub struct ColorTargetState {
    pub format: TextureFormat,
    pub blend: BlendMode,
    pub write_mask: u32,
}

/// Everything the graphics API needs, besides the shader module itself, to
/// build a render pipeline.
#[derive(Debug)]
pub struct PipelineDesc {
    pub label: String,
    pub layout_label: String,
    /// Number of bind group layouts in the pipeline layout.
    pub bind_group_layouts: usize,
    pub vertex_entry: String,
    pub fragment_entry: String,
    pub buffers: Vec<VertexBufferLayout>,
    pub targets: Vec<ColorTargetState>,
    pub topology: PrimitiveTopology,
    pub depth_stencil: bool,
    pub sample_count: u32,
}

/// The color target of every pipeline: opaque, all channels, in `format`.
pub open spec fn opaque_target(format: TextureFormat) -> ColorTargetState {
    ColorTargetState { format, blend: BlendMode::Replace, write_mask: COLOR_WRITES_ALL }
}

/// `d` is what `create_pipeline` describes for these arguments.
pub open spec fn is_pipeline_for(
    d: PipelineDesc,
    buffers: Seq<VertexBufferLayout>,
    format: TextureFormat,
    topology: PrimitiveTopology,
    label: Seq<char>,
) -> bool {
    &&& d.label@ == label
    &&& d.layout_label@ == label + " Layout"@
    &&& d.bind_group_layouts == 0
    &&& d.vertex_entry@ == VERTEX_ENTRY@
    &&& d.fragment_entry@ == FRAGMENT_ENTRY@
    &&& d.buffers@ == buffers
    &&& d.targets@ == seq![opaque_target(format)]
    &&& d.topology == topology
    &&& !d.depth_stencil
    &&& d.sample_count == 1
}

/// Describes a render pipeline that reads `vertex_layouts`, assembles
/// primitives by `topology` and writes opaquely into one target of `format`.
pub fn create_pipeline(
    vertex_layouts: Vec<VertexBufferLayout>,
    format: TextureFormat,
    topology: PrimitiveTopology,
    label: &str,
) -> (r: PipelineDesc)
    ensures
        is_pipeline_for(r, vertex_layouts@, format, topology, label@),
        r.topology == topology,
        r.targets@.len() == 1,
        r.targets@[0].format == format,
        r.targets@[0].write_mask == COLOR_WRITES_ALL,
{
    let layout_label = String::from_str(label).concat(" Layout");
    let targets = vec![
        ColorTargetState { format, blend: BlendMode::Replace, write_mask: COLOR_WRITES_ALL },
    ];
    assert(targets@ =~= seq![opaque_target(format)]);
    PipelineDesc {
        label: String::from_str(label),
        layout_label,
        bind_group_layouts: 0,
        vertex_entry: String::from_str(VERTEX_ENTRY),
        fragment_entry: String::from_str(FRAGMENT_ENTRY),
        buffers: vertex_layouts,
        targets,
        topology,
        depth_stencil: false,
        sample_count: 1,
    }
}

} // verus!
