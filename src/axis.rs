//! A pair of thin orthogonal lines spanning the whole clip area.
use vstd::prelude::*;

use wgpu::TextureFormat;

use crate::pass::{count_draws, PassCommand, RenderPass};
use crate::pipeline::{create_pipeline, is_pipeline_for, PipelineDesc, PrimitiveTopology};
use crate::vertex::{is_vertex2d_layout, Vertex2D, VertexBufferLayout, CLIP_SCALE};

verus! {

/// Half the width of each axis line, in thousandths of a clip unit (0.002
/// clip units). Lines keep this width in clip space whatever the surface's
/// resolution.
pub const AXIS_THICKNESS: i32 = 2;

/// Label of the axis pipeline.
pub const AXIS_LABEL: &'static str = "Axis Pipeline";

/// The eight vertices of the two strips: a horizontal bar across
/// `x = -1 ..= 1`, then a vertical bar across `y = -1 ..= 1`.
pub open spec fn axis_vertices() -> Seq<Vertex2D> {
    let s = CLIP_SCALE as int;
    let t = AXIS_THICKNESS as int;
    seq![
        Vertex2D::at(-s, t),
        Vertex2D::at(-s, -t),
        Vertex2D::at(s, t),
        Vertex2D::at(s, -t),
        Vertex2D::at(t, s),
        Vertex2D::at(-t, s),
        Vertex2D::at(t, -s),
        Vertex2D::at(-t, -s),
    ]
}

/// `v` lies on the horizontal bar's outline: at a clip edge in x, at the
/// line's half-width in y.
pub open spec fn on_horizontal_bar(v: Vertex2D) -> bool {
    &&& (v.x == CLIP_SCALE || v.x == -CLIP_SCALE)
    &&& (v.y == AXIS_THICKNESS || v.y == -AXIS_THICKNESS)
}

/// `v` lies on the vertical bar's outline: at the line's half-width in x, at
/// a clip edge in y.
pub open spec fn on_vertical_bar(v: Vertex2D) -> bool {
    &&& (v.x == AXIS_THICKNESS || v.x == -AXIS_THICKNESS)
    &&& (v.y == CLIP_SCALE || v.y == -CLIP_SCALE)
}

/// What `draw` records: bind the pipeline and the vertex buffer, then one
/// single-instance strip over vertices `0..4` and one over `4..8`.
pub open spec fn axis_draw_commands() -> Seq<PassCommand> {
    seq![
        PassCommand::SetPipeline,
        PassCommand::SetVertexBuffer { slot: 0 },
        PassCommand::Draw { first_vertex: 0, end_vertex: 4, first_instance: 0, end_instance: 1 },
        PassCommand::Draw { first_vertex: 4, end_vertex: 8, first_instance: 0, end_instance: 1 },
    ]
}

/// Renders the two axis lines. Geometry and pipeline are fixed when it is
/// built.
pub struct AxisRenderer {
    pipeline: PipelineDesc,
    vertices: Vec<Vertex2D>,
    vertex_count: u32,
}

impl AxisRenderer {
    /// The vertices held for upload into the vertex buffer.
    pub closed spec fn spec_vertices(&self) -> Seq<Vertex2D> {
        self.vertices@
    }

    /// The pipeline the lines are drawn with.
    pub closed spec fn spec_pipeline(&self) -> PipelineDesc {
        self.pipeline
    }

    /// Number of vertices in the vertex buffer.
    pub closed spec fn spec_vertex_count(&self) -> nat {
        self.vertex_count as nat
    }

    /// Builds the axis geometry and a triangle-strip pipeline that targets
    /// `format`.
    pub fn new(format: TextureFormat) -> (r: Self)
        ensures
            r.spec_vertices() == axis_vertices(),
            r.spec_vertex_count() == 8,
            r.spec_vertices().len() == r.spec_vertex_count(),
            forall|i: int| 0 <= i < 4 ==> #[trigger] on_horizontal_bar(r.spec_vertices()[i]),
            forall|i: int| 4 <= i < 8 ==> #[trigger] on_vertical_bar(r.spec_vertices()[i]),
            is_pipeline_for(
                r.spec_pipeline(),
                r.spec_pipeline().buffers@,
                format,
                PrimitiveTopology::TriangleStrip,
                AXIS_LABEL@,
            ),
            r.spec_pipeline().buffers@.len() == 1,
            is_vertex2d_layout(r.spec_pipeline().buffers@[0]),
    {
        let s = CLIP_SCALE;
        let t = AXIS_THICKNESS;
        let ns = -s;
        let nt = -t;
        let vertices = vec![
            // horizontal bar
            Vertex2D { x: ns, y: t },
            Vertex2D { x: ns, y: nt },
            Vertex2D { x: s, y: t },
            Vertex2D { x: s, y: nt },
            // vertical bar
            Vertex2D { x: t, y: s },
            Vertex2D { x: nt, y: s },
            Vertex2D { x: t, y: ns },
            Vertex2D { x: nt, y: ns },
        ];
        assert(vertices@ =~= axis_vertices());
        let vertex_count = vertices.len() as u32;
        let layouts: Vec<VertexBufferLayout> = vec![Vertex2D::desc()];
        assert(layouts@.len() == 1 && is_vertex2d_layout(layouts@[0]));
        let pipeline = create_pipeline(layouts, format, PrimitiveTopology::TriangleStrip, AXIS_LABEL);
        AxisRenderer { pipeline, vertices, vertex_count }
    }

    /// The vertices to upload into the vertex buffer.
    pub fn vertices(&self) -> (r: &Vec<Vertex2D>)
        ensures
            r@ == self.spec_vertices(),
    {
        &self.vertices
    }

    /// The pipeline the lines are drawn with.
    pub fn pipeline(&self) -> (r: &PipelineDesc)
        ensures
            *r == self.spec_pipeline(),
    {
        &self.pipeline
    }

    /// Number of vertices in the vertex buffer.
    pub fn vertex_count(&self) -> (r: u32)
        ensures
            r == self.spec_vertex_count(),
    {
        self.vertex_count
    }

    /// Records the two axis strips into the open `pass`.
    pub fn draw(&self, pass: &mut RenderPass)
        ensures
            final(pass)@ == old(pass)@ + axis_draw_commands(),
            count_draws(final(pass)@) == count_draws(old(pass)@) + 2,
    {
        pass.record(PassCommand::SetPipeline);
        pass.record(PassCommand::SetVertexBuffer { slot: 0 });
        // horizontal
        pass.record(PassCommand::Draw { first_vertex: 0, end_vertex: 4, first_instance: 0, end_instance: 1 });
        // vertical
        pass.record(PassCommand::Draw { first_vertex: 4, end_vertex: 8, first_instance: 0, end_instance: 1 });
        proof {
            let s0 = old(pass)@;
            let s = pass@;
            assert(s =~= s0 + axis_draw_commands());
            let s3 = s.drop_last();
            let s2 = s3.drop_last();
            let s1 = s2.drop_last();
            assert(s1.drop_last() =~= s0);
            assert(count_draws(s1) == count_draws(s0));
            assert(count_draws(s2) == count_draws(s0));
            assert(count_draws(s3) == count_draws(s0) + 1);
        }
    }
}

} // verus!
