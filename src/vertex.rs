//! The binary layout of a 2D point consumed by the vertex stage.
use vstd::prelude::*;

verus! {

/// Clip-space coordinates are held in thousandths of a clip unit, so the
/// visible area spans `-CLIP_SCALE ..= CLIP_SCALE` on each axis.
pub const CLIP_SCALE: i32 = 1000;

/// Size in bytes of one 32-bit float component on the GPU.
pub const FLOAT32_SIZE: u64 = 4;

/// Distance in bytes between two consecutive vertices in a vertex buffer:
/// one position of two 32-bit floats.
pub const VERTEX_STRIDE: u64 = 8;

/// A point in clip space, in thousandths of a clip unit.
#[derive(Clone, Copy, Debug, PartialEq, Eq, Structural)]
pub struct Vertex2D {
    pub x: i32,
    pub y: i32,
}

/// Format of one vertex attribute as the shader reads it.
#[derive(Clone, Copy, Debug, PartialEq, Eq, Structural)]
pub enum VertexFormat {
    Float32,
    Float32x2,
    Float32x3,
    Float32x4,
}

/// Whether a buffer advances per vertex or per instance.
#[derive(Clone, Copy, Debug, PartialEq, Eq, Structural)]
pub enum VertexStepMode {
    Vertex,
    Instance,
}

/// One attribute of a vertex: its format, its byte offset inside the vertex
/// and the shader location it binds to.
#[derive(Clone, Copy, Debug, PartialEq, Eq, Structural)]
pub struct VertexAttribute {
    pub format: VertexFormat,
    pub offset: u64,
    pub shader_location: u32,
}

/// How one vertex buffer is laid out in memory.
#[derive(Debug)]
pub struct VertexBufferLayout {
    pub array_stride: u64,
    pub step_mode: VertexStepMode,
    pub attributes: Vec<VertexAttribute>,
}

/// Number of bytes that an attribute of format `f` occupies.
pub open spec fn format_size(f: VertexFormat) -> nat {
    match f {
        VertexFormat::Float32 => 4,
        VertexFormat::Float32x2 => 8,
        VertexFormat::Float32x3 => 12,
        VertexFormat::Float32x4 => 16,
    }
}

/// The attribute list of a `Vertex2D`: its position, two floats at offset 0,
/// bound to shader location 0.
pub open spec fn vertex2d_attributes() -> Seq<VertexAttribute> {
    seq![VertexAttribute { format: VertexFormat::Float32x2, offset: 0, shader_location: 0 }]
}

/// `l` is the layout that reads `Vertex2D` values.
pub open spec fn is_vertex2d_layout(l: VertexBufferLayout) -> bool {
    &&& l.array_stride == VERTEX_STRIDE
    &&& l.step_mode == VertexStepMode::Vertex
    &&& l.attributes@ == vertex2d_attributes()
}

impl Vertex2D {
    pub open spec fn at(x: int, y: int) -> Vertex2D {
        Vertex2D { x: x as i32, y: y as i32 }
    }

    /// The buffer layout that the vertex stage uses to read `Vertex2D` values.
    pub fn desc() -> (r: VertexBufferLayout)
        ensures
            is_vertex2d_layout(r),
            r.array_stride == VERTEX_STRIDE,
            r.step_mode == VertexStepMode::Vertex,
            r.attributes@ == vertex2d_attributes(),
            r.array_stride == format_size(VertexFormat::Float32x2),
            r.array_stride == 2 * FLOAT32_SIZE,
    {
        let attributes = vec![
            VertexAttribute { format: VertexFormat::Float32x2, offset: 0, shader_location: 0 },
        ];
        assert(attributes@ =~= vertex2d_attributes());
        VertexBufferLayout { array_stride: VERTEX_STRIDE, step_mode: VertexStepMode::Vertex, attributes }
    }
}

} // verus!
