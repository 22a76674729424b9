//! A mesh: one drawable unit made of a placement, a vertex array, a kind of
//! primitive and the range of elements to draw.

use crate::gfx::context::{Call, Context, Target};
use crate::gfx::native;
use crate::gfx::shader::ActiveProgram;
use crate::gfx::vertex_array::{draw_call, teardown_calls, VertexArray};
use crate::transform::Transform;
use core::ops::Range;
use vstd::prelude::*;

verus! {

/// The kind of primitive that a run of elements is assembled into.
#[derive(Clone, Copy, Debug, PartialEq, Eq, Structural)]
pub enum DrawMode {
    Points,
    Lines,
    LineStrip,
    Triangles,
    TriangleStrip,
    TriangleFan,
}

impl DrawMode {
    /// The native name of the primitive.
    pub open spec fn native_name(self) -> u32 {
        match self {
            DrawMode::Points => 0,
            DrawMode::Lines => 1,
            DrawMode::LineStrip => 3,
            DrawMode::Triangles => 4,
            DrawMode::TriangleStrip => 5,
            DrawMode::TriangleFan => 6,
        }
    }
}

impl From<DrawMode> for u32 {
    /// The native name of the primitive.
    fn from(mode: DrawMode) -> (r: u32) {
        match mode {
            DrawMode::Points => native::points(),
            DrawMode::Lines => native::lines(),
            DrawMode::LineStrip => native::line_strip(),
            DrawMode::Triangles => native::triangles(),
            DrawMode::TriangleStrip => native::triangle_strip(),
            DrawMode::TriangleFan => native::triangle_fan(),
        }
    }
}

impl vstd::std_specs::convert::FromSpecImpl<DrawMode> for u32 {
    open spec fn obeys_from_spec() -> bool {
        true
    }

    open spec fn from_spec(mode: DrawMode) -> u32 {
        mode.native_name()
    }
}

/// Largest element count that a draw call can name.
pub const MAX_ELEMENTS: usize = 0x7fff_ffff;

/// Whether `range` is a range of elements that a vertex array with
/// `element_count` buffered elements can draw.
pub open spec fn range_fits(range: Range<usize>, element_count: usize) -> bool {
    range.start <= range.end && range.end <= element_count && element_count <= MAX_ELEMENTS
}

/// The calls that drawing elements `start..end` of the vertex array `vao`
/// as primitives of kind `mode` records: bind the vertex array, draw,
/// unbind it.
pub open spec fn mesh_draw_calls(vao: VertexArray, mode: DrawMode, start: int, end: int) -> Seq<
    Call,
> {
    seq![
        Call::BindVertexArray { id: vao.handle() },
        draw_call(vao.is_indexed(), mode.native_name(), start as i32, (end - start) as i32),
        Call::BindVertexArray { id: 0 },
    ]
}

/// A drawable unit. The range of elements always lies within the elements
/// that were buffered for the vertex array.
pub struct Mesh {
    transform: Transform,
    vao: VertexArray,
    draw_mode: DrawMode,
    range: Range<usize>,
}

impl Mesh {
    #[verifier::type_invariant]
    spec fn range_is_drawable(self) -> bool {
        self.range.start <= self.range.end && self.range.end <= MAX_ELEMENTS
    }

    /// The placement of the mesh.
    pub closed spec fn placement(self) -> Transform {
        self.transform
    }

    /// The vertex array of the mesh.
    pub closed spec fn vertex_array(self) -> VertexArray {
        self.vao
    }

    /// The kind of primitive that the mesh is drawn as.
    pub closed spec fn mode(self) -> DrawMode {
        self.draw_mode
    }

    /// The elements that are drawn.
    pub closed spec fn elements(self) -> Range<usize> {
        self.range
    }

    /// Makes a mesh that draws the elements `range` of `vao`, of which
    /// `element_count` elements were buffered. A range that does not lie
    /// within those elements is refused, and the vertex array is handed
    /// back.
    pub fn new(
        transform: Transform,
        vao: VertexArray,
        draw_mode: DrawMode,
        range: Range<usize>,
        element_count: usize,
    ) -> (r: Result<Mesh, VertexArray>)
        ensures
            range_fits(range, element_count) ==> (r matches Ok(mesh) && mesh.placement()
                == transform && mesh.vertex_array() == vao && mesh.mode() == draw_mode
                && mesh.elements() == range),
            !range_fits(range, element_count) ==> r == Err::<Mesh, VertexArray>(vao),
    {
        if range.start <= range.end && range.end <= element_count && element_count <= MAX_ELEMENTS {
            Ok(Mesh { transform, vao, draw_mode, range })
        } else {
            Err(vao)
        }
    }

    /// The placement of the mesh.
    pub fn transform(&self) -> (t: Transform)
        ensures
            t == self.placement(),
    {
        self.transform
    }

    /// Replaces the placement of the mesh; nothing else changes.
    pub fn set_transform(&mut self, transform: Transform)
        ensures
            final(self).placement() == transform,
            final(self).vertex_array() == old(self).vertex_array(),
            final(self).mode() == old(self).mode(),
            final(self).elements() == old(self).elements(),
    {
        proof {
            use_type_invariant(&*self);
        }
        self.transform = transform;
    }

    /// The vertex array of the mesh.
    pub fn vao(&self) -> (vao: &VertexArray)
        ensures
            *vao == self.vertex_array(),
    {
        &self.vao
    }

    /// The elements that are drawn.
    pub fn range(&self) -> (range: Range<usize>)
        ensures
            range == self.elements(),
            range.start <= range.end <= MAX_ELEMENTS,
    {
        proof {
            use_type_invariant(self);
        }
        Range { start: self.range.start, end: self.range.end }
    }

    /// The kind of primitive that the mesh is drawn as.
    pub fn draw_mode(&self) -> (mode: DrawMode)
        ensures
            mode == self.mode(),
    {
        self.draw_mode
    }

    /// Number of elements that one draw of the mesh covers.
    pub fn len(&self) -> (n: usize)
        ensures
            n == self.elements().end - self.elements().start,
            self.elements().start <= self.elements().end <= MAX_ELEMENTS,
    {
        proof {
            use_type_invariant(self);
        }
        self.range.end - self.range.start
    }

    /// Draws the mesh with the given program: binds its vertex array,
    /// issues one draw of its range, and unbinds the vertex array again.
    pub fn draw(&self, ctx: &mut Context, program: &ActiveProgram)
        requires
            program.is_live(*old(ctx)),
        ensures
            final(ctx).calls() == old(ctx).calls() + mesh_draw_calls(
                self.vertex_array(),
                self.mode(),
                self.elements().start as int,
                self.elements().end as int,
            ),
            final(ctx).pending() == old(ctx).pending() + mesh_draw_calls(
                self.vertex_array(),
                self.mode(),
                self.elements().start as int,
                self.elements().end as int,
            ),
            final(ctx).bindings() == old(ctx).bindings().set(Target::VertexArray, 0),
    {
        proof {
            use_type_invariant(self);
        }
        let start = self.range.start as i32;
        let len = (self.range.end - self.range.start) as i32;
        let active = self.vao.bind(ctx);
        active.draw(ctx, program, u32::from(self.draw_mode), start, len);
        active.release(ctx);
        let ghost calls = mesh_draw_calls(
            self.vertex_array(),
            self.mode(),
            self.elements().start as int,
            self.elements().end as int,
        );
        assert(ctx.calls() =~= old(ctx).calls() + calls);
        assert(ctx.pending() =~= old(ctx).pending() + calls);
        assert(ctx.bindings() =~= old(ctx).bindings().set(Target::VertexArray, 0));
    }

    /// Takes the mesh apart and releases its vertex array with the buffers
    /// it owns.
    pub fn delete(self, ctx: &mut Context)
        ensures
            final(ctx).calls() == old(ctx).calls() + teardown_calls(
                self.vertex_array().handle(),
                self.vertex_array().vertex_buffer(),
                self.vertex_array().index_buffer(),
            ),
            final(ctx).pending() == old(ctx).pending() + teardown_calls(
                self.vertex_array().handle(),
                self.vertex_array().vertex_buffer(),
                self.vertex_array().index_buffer(),
            ),
            final(ctx).bindings() == old(ctx).bindings(),
    {
        let Mesh { transform: _, vao, draw_mode: _, range: _ } = self;
        vao.delete(ctx);
    }
}

} // verus!
