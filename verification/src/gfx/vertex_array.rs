//! Vertex arrays: the record of how the bytes of a vertex buffer feed the
//! attribute slots of a program, with an optional index buffer.

use crate::gfx::buffer::Buffer;
use crate::gfx::context::{Bindings, Call, Command, Context, Target};
use crate::gfx::native;
use crate::gfx::shader::ActiveProgram;
use vstd::prelude::*;

verus! {

/// Number of bytes that one index occupies in an index buffer.
pub const INDEX_SIZE: i64 = 2;

/// The native name of the type of an index: 16 bits, unsigned.
pub open spec fn index_type_name() -> u32 {
    0x1403
}

/// The native name of the type of an attribute component: a 32-bit float.
pub open spec fn component_type_name() -> u32 {
    0x1406
}

/// How one attribute slot reads the vertex buffer: `size` 32-bit float
/// components per vertex, starting `start` bytes into the buffer and
/// `stride` bytes apart.
#[derive(Clone, Copy, Debug, PartialEq, Eq)]
pub struct VertexAttrib {
    pub location: u32,
    pub size: i32,
    pub stride: i32,
    pub start: usize,
}

/// A native vertex array object together with the buffers it captured. It
/// owns its buffers: they are released with it.
#[derive(Debug)]
pub struct VertexArray {
    id: u32,
    vbo: Buffer,
    ibo: Option<Buffer>,
    attribs: Vec<VertexAttrib>,
}

/// Evidence that a vertex array was bound. While the guard is live, the
/// vertex array is the current one.
pub struct ActiveVAO<'a> {
    vao: &'a VertexArray,
}

/// The calls that enable and describe one attribute slot. The components
/// are 32-bit floats and are handed to the program as they are.
pub open spec fn attrib_calls(a: VertexAttrib) -> Seq<Call> {
    seq![
        Call::EnableVertexAttribArray { location: a.location },
        Call::VertexAttribPointer {
            location: a.location,
            size: a.size,
            ty: component_type_name(),
            normalized: false,
            stride: a.stride,
            start: a.start,
        },
    ]
}

/// The calls that enable and describe every attribute slot, in the order
/// of the descriptors.
pub open spec fn layout_calls(attribs: Seq<VertexAttrib>) -> Seq<Call>
    decreases attribs.len(),
{
    if attribs.len() == 0 {
        Seq::empty()
    } else {
        layout_calls(attribs.drop_last()) + attrib_calls(attribs.last())
    }
}

/// The calls that bind the buffers of a vertex array for good: the vertex
/// buffer, then the index buffer if there is one.
pub open spec fn capture_calls(vbo: Buffer, ibo: Option<Buffer>) -> Seq<Call> {
    let first = seq![Call::BindBuffer { kind: vbo.kind(), id: vbo.handle() }];
    match ibo {
        Some(b) => first.push(Call::BindBuffer { kind: b.kind(), id: b.handle() }),
        None => first,
    }
}

/// The calls that set up a vertex array: bind it, capture its buffers,
/// describe its attributes, unbind it.
pub open spec fn setup_calls(
    id: u32,
    vbo: Buffer,
    ibo: Option<Buffer>,
    attribs: Seq<VertexAttrib>,
) -> Seq<Call> {
    seq![Call::BindVertexArray { id }] + capture_calls(vbo, ibo) + layout_calls(attribs)
        + seq![Call::BindVertexArray { id: 0 }]
}

/// The bindings that setting up a vertex array leaves behind: its buffers
/// stay in their slots, the vertex array slot is empty.
pub open spec fn setup_bindings(before: Bindings, vbo: Buffer, ibo: Option<Buffer>) -> Bindings {
    let with_vbo = before.set(vbo.kind().target(), vbo.handle());
    let with_ibo = match ibo {
        Some(b) => with_vbo.set(b.kind().target(), b.handle()),
        None => with_vbo,
    };
    with_ibo.set(Target::VertexArray, 0)
}

/// The calls that release a vertex array and the buffers it owns.
pub open spec fn teardown_calls(id: u32, vbo: Buffer, ibo: Option<Buffer>) -> Seq<Call> {
    let first = seq![Call::DeleteVertexArray { id }, Call::DeleteBuffer { id: vbo.handle() }];
    match ibo {
        Some(b) => first.push(Call::DeleteBuffer { id: b.handle() }),
        None => first,
    }
}

/// The one call that a draw amounts to. With an index buffer it is the
/// indexed draw of `len` 16-bit indices, the first of them `start` indices
/// into the index buffer; without one it is the draw of `len` vertices from
/// vertex `start` on.
pub open spec fn draw_call(indexed: bool, prim: u32, start: i32, len: i32) -> Call {
    if indexed {
        Call::DrawElements {
            mode: prim,
            count: len,
            index_type: index_type_name(),
            offset: (INDEX_SIZE * start) as i64,
        }
    } else {
        Call::DrawArrays { mode: prim, first: start, count: len }
    }
}

/// A copy of the descriptors.
fn copy_attribs(attribs: &[VertexAttrib]) -> (out: Vec<VertexAttrib>)
    ensures
        out@ == attribs@,
{
    let mut out: Vec<VertexAttrib> = Vec::new();
    let mut i: usize = 0;
    while i < attribs.len()
        invariant
            i <= attribs@.len(),
            out@ == attribs@.subrange(0, i as int),
        decreases attribs@.len() - i,
    {
        out.push(attribs[i]);
        assert(attribs@.subrange(0, i + 1) =~= attribs@.subrange(0, i as int).push(
            attribs@[i as int],
        ));
        i += 1;
    }
    assert(attribs@.subrange(0, i as int) =~= attribs@);
    out
}

impl VertexArray {
    /// The native handle of the vertex array.
    pub closed spec fn handle(self) -> u32 {
        self.id
    }

    /// The captured vertex buffer.
    pub closed spec fn vertex_buffer(self) -> Buffer {
        self.vbo
    }

    /// The captured index buffer, if any.
    pub closed spec fn index_buffer(self) -> Option<Buffer> {
        self.ibo
    }

    /// The layout of the attributes, fixed when the vertex array is made.
    pub closed spec fn layout(self) -> Seq<VertexAttrib> {
        self.attribs@
    }

    /// Whether draws through this vertex array are indexed.
    pub open spec fn is_indexed(self) -> bool {
        self.index_buffer().is_some()
    }

    /// Makes a vertex array with the freshly generated native handle `id`
    /// out of a vertex buffer, an optional index buffer and the layout of
    /// the attributes. The buffers are bound for good while the vertex
    /// array is bound, so that it captures them; then each attribute slot
    /// is enabled and described against the vertex buffer.
    pub fn new(
        ctx: &mut Context,
        id: u32,
        vbo: Buffer,
        ibo: Option<Buffer>,
        attribs: &[VertexAttrib],
    ) -> (vao: VertexArray)
        ensures
            vao.handle() == id,
            vao.vertex_buffer() == vbo,
            vao.index_buffer() == ibo,
            vao.layout() == attribs@,
            final(ctx).calls() == old(ctx).calls() + setup_calls(id, vbo, ibo, attribs@),
            final(ctx).pending() == old(ctx).pending() + setup_calls(id, vbo, ibo, attribs@),
            final(ctx).bindings() == setup_bindings(old(ctx).bindings(), vbo, ibo),
    {
        let vao = VertexArray { id, vbo, ibo, attribs: copy_attribs(attribs) };
        let active = vao.bind(ctx);
        vao.vbo.bind_permanently(ctx);
        if let Some(ref ibo) = vao.ibo {
            ibo.bind_permanently(ctx);
        }
        let ghost head = seq![Call::BindVertexArray { id }] + capture_calls(vbo, ibo);
        let ghost bound = ctx.bindings();
        assert(ctx.calls() =~= old(ctx).calls() + head);
        assert(ctx.pending() =~= old(ctx).pending() + head);
        let mut k: usize = 0;
        while k < attribs.len()
            invariant
                k <= attribs@.len(),
                active.is_live(*ctx),
                ctx.bindings() == bound,
                ctx.calls() == old(ctx).calls() + head + layout_calls(attribs@.subrange(0, k as int)),
                ctx.pending() == old(ctx).pending() + head + layout_calls(
                    attribs@.subrange(0, k as int),
                ),
            decreases attribs@.len() - k,
        {
            let a = &attribs[k];
            active.vertex_attrib_pointer(ctx, a.location, a.size, a.stride, a.start);
            proof {
                let next = attribs@.subrange(0, k + 1);
                assert(next.drop_last() =~= attribs@.subrange(0, k as int));
                assert(next.last() == attribs@[k as int]);
                assert(ctx.calls() =~= old(ctx).calls() + head + layout_calls(next));
                assert(ctx.pending() =~= old(ctx).pending() + head + layout_calls(next));
            }
            k += 1;
        }
        assert(attribs@.subrange(0, k as int) =~= attribs@);
        active.release(ctx);
        assert(ctx.calls() =~= old(ctx).calls() + setup_calls(id, vbo, ibo, attribs@));
        assert(ctx.pending() =~= old(ctx).pending() + setup_calls(id, vbo, ibo, attribs@));
        vao
    }

    /// The native handle of the vertex array.
    pub fn id(&self) -> (id: u32)
        ensures
            id == self.handle(),
    {
        self.id
    }

    /// The layout of the attributes.
    pub fn attribs(&self) -> (attribs: &Vec<VertexAttrib>)
        ensures
            attribs@ == self.layout(),
    {
        &self.attribs
    }

    /// Whether draws through this vertex array are indexed.
    pub fn has_index_buffer(&self) -> (b: bool)
        ensures
            b == self.is_indexed(),
    {
        self.ibo.is_some()
    }

    /// Makes the vertex array, and with it the buffers it captured, current
    /// and returns the guard that stands for that binding.
    pub fn bind<'a>(&'a self, ctx: &mut Context) -> (guard: ActiveVAO<'a>)
        ensures
            guard.resource() == *self,
            guard.is_live(*final(ctx)),
            final(ctx).calls() == old(ctx).calls().push(
                Call::BindVertexArray { id: self.handle() },
            ),
            final(ctx).pending() == old(ctx).pending().push(
                Call::BindVertexArray { id: self.handle() },
            ),
            final(ctx).bindings() == old(ctx).bindings().set(Target::VertexArray, self.handle()),
    {
        ctx.issue(Command::BindVertexArray { id: self.id });
        ActiveVAO { vao: self }
    }

    /// Releases the native vertex array, then the buffers it owns.
    pub fn delete(self, ctx: &mut Context)
        ensures
            final(ctx).calls() == old(ctx).calls() + teardown_calls(
                self.handle(),
                self.vertex_buffer(),
                self.index_buffer(),
            ),
            final(ctx).pending() == old(ctx).pending() + teardown_calls(
                self.handle(),
                self.vertex_buffer(),
                self.index_buffer(),
            ),
            final(ctx).bindings() == old(ctx).bindings(),
    {
        let ghost calls = teardown_calls(self.handle(), self.vertex_buffer(), self.index_buffer());
        let VertexArray { id, vbo, ibo, attribs: _ } = self;
        ctx.issue(Command::DeleteVertexArray { id });
        vbo.delete(ctx);
        if let Some(b) = ibo {
            b.delete(ctx);
        }
        assert(ctx.calls() =~= old(ctx).calls() + calls);
        assert(ctx.pending() =~= old(ctx).pending() + calls);
    }
}

impl<'a> ActiveVAO<'a> {
    /// The vertex array that the guard stands for.
    pub closed spec fn resource(self) -> VertexArray {
        *self.vao
    }

    /// Whether the guard's vertex array is the current one.
    pub open spec fn is_live(self, ctx: Context) -> bool {
        ctx.bindings().get(Target::VertexArray) == self.resource().handle()
    }

    /// Whether the guard's vertex array is the current one.
    pub fn live(&self, ctx: &Context) -> (b: bool)
        ensures
            b == self.is_live(*ctx),
    {
        ctx.current(Target::VertexArray) == self.vao.id
    }

    /// Enables one attribute slot of the bound vertex array and describes
    /// how it reads the vertex buffer.
    fn vertex_attrib_pointer(
        &self,
        ctx: &mut Context,
        location: u32,
        size: i32,
        stride: i32,
        start: usize,
    )
        requires
            self.is_live(*old(ctx)),
        ensures
            final(ctx).calls() == old(ctx).calls() + attrib_calls(
                VertexAttrib { location, size, stride, start },
            ),
            final(ctx).pending() == old(ctx).pending() + attrib_calls(
                VertexAttrib { location, size, stride, start },
            ),
            final(ctx).bindings() == old(ctx).bindings(),
    {
        ctx.issue(Command::EnableVertexAttribArray { location });
        ctx.issue(
            Command::VertexAttribPointer {
                location,
                size,
                ty: native::float_component(),
                normalized: false,
                stride,
                start,
            },
        );
        assert(ctx.calls() =~= old(ctx).calls() + attrib_calls(
            VertexAttrib { location, size, stride, start },
        ));
        assert(ctx.pending() =~= old(ctx).pending() + attrib_calls(
            VertexAttrib { location, size, stride, start },
        ));
    }

    /// Draws `len` elements of kind `prim` from element `start` on, with
    /// the given program: through the index buffer if the vertex array has
    /// one, straight from the vertex buffer if not. The program guard is
    /// the evidence that a program is current.
    pub fn draw(
        &self,
        ctx: &mut Context,
        program: &ActiveProgram,
        prim: u32,
        start: i32,
        len: i32,
    )
        requires
            self.is_live(*old(ctx)),
            program.is_live(*old(ctx)),
        ensures
            final(ctx).calls() == old(ctx).calls().push(
                draw_call(self.resource().is_indexed(), prim, start, len),
            ),
            final(ctx).pending() == old(ctx).pending().push(
                draw_call(self.resource().is_indexed(), prim, start, len),
            ),
            final(ctx).bindings() == old(ctx).bindings(),
    {
        match self.vao.ibo {
            Some(_) => {
                let first: i64 = start as i64;
                ctx.issue(
                    Command::DrawElements {
                        mode: prim,
                        count: len,
                        index_type: native::unsigned_short(),
                        offset: INDEX_SIZE * first,
                    },
                );
            },
            None => {
                ctx.issue(Command::DrawArrays { mode: prim, first: start, count: len });
            },
        }
    }

    /// Ends the binding: no vertex array is current afterwards.
    pub fn release(self, ctx: &mut Context)
        ensures
            final(ctx).calls() == old(ctx).calls().push(Call::BindVertexArray { id: 0 }),
            final(ctx).pending() == old(ctx).pending().push(Call::BindVertexArray { id: 0 }),
            final(ctx).bindings() == old(ctx).bindings().set(Target::VertexArray, 0),
            final(ctx).bindings().get(Target::VertexArray) == 0,
    {
        ctx.issue(Command::BindVertexArray { id: 0 });
    }
}

} // verus!
