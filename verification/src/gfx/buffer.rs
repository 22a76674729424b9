//! Buffers: blocks of native memory that hold vertex or index data.

use crate::gfx::context::{Call, Command, Context, Target};
use crate::gfx::native;
use vstd::prelude::*;

verus! {

/// What a buffer holds; fixed when the buffer is made.
#[derive(Debug, Clone, Copy, PartialEq, Eq, Structural)]
pub enum BufferType {
    Vertex,
    Index,
}

impl BufferType {
    /// The binding slot that buffers of this kind occupy.
    pub open spec fn target(self) -> Target {
        match self {
            BufferType::Vertex => Target::ArrayBuffer,
            BufferType::Index => Target::ElementArrayBuffer,
        }
    }

    /// The native name of that slot.
    pub open spec fn native_name(self) -> u32 {
        match self {
            BufferType::Vertex => 0x8892,
            BufferType::Index => 0x8893,
        }
    }

    /// The binding slot that buffers of this kind occupy.
    pub fn slot(self) -> (t: Target)
        ensures
            t == self.target(),
    {
        match self {
            BufferType::Vertex => Target::ArrayBuffer,
            BufferType::Index => Target::ElementArrayBuffer,
        }
    }
}

impl From<BufferType> for u32 {
    /// The native name of the slot for this kind of buffer.
    fn from(buffer: BufferType) -> (r: u32) {
        match buffer {
            BufferType::Vertex => native::array_buffer(),
            BufferType::Index => native::element_array_buffer(),
        }
    }
}

impl vstd::std_specs::convert::FromSpecImpl<BufferType> for u32 {
    open spec fn obeys_from_spec() -> bool {
        true
    }

    open spec fn from_spec(buffer: BufferType) -> u32 {
        buffer.native_name()
    }
}

/// The native name of the usage hint that every upload carries: the data is
/// written once and drawn many times.
pub open spec fn usage_name() -> u32 {
    0x88E4
}

/// A native buffer object. It owns its handle: the handle is valid from
/// [`Buffer::new`] to [`Buffer::delete`].
#[derive(Debug)]
pub struct Buffer {
    ty: BufferType,
    id: u32,
}

/// Evidence that a buffer was bound to the slot of its kind. While the guard
/// is live, the buffer is the current one of that slot.
pub struct ActiveBuffer<'a> {
    buffer: &'a Buffer,
}

/// A copy of `data`.
pub fn copy_bytes(data: &[u8]) -> (out: Vec<u8>)
    ensures
        out@ == data@,
{
    let mut out: Vec<u8> = Vec::new();
    let mut i: usize = 0;
    while i < data.len()
        invariant
            i <= data@.len(),
            out@ == data@.subrange(0, i as int),
        decreases data@.len() - i,
    {
        out.push(data[i]);
        assert(data@.subrange(0, i + 1) =~= data@.subrange(0, i as int).push(data@[i as int]));
        i += 1;
    }
    assert(data@.subrange(0, i as int) =~= data@);
    out
}

impl Buffer {
    /// The kind of the buffer.
    pub closed spec fn kind(self) -> BufferType {
        self.ty
    }

    /// The native handle of the buffer.
    pub closed spec fn handle(self) -> u32 {
        self.id
    }

    /// Wraps the handle `id` of a freshly generated native buffer of the
    /// given kind. The buffer has no data yet.
    pub fn new(ty: BufferType, id: u32) -> (buffer: Buffer)
        ensures
            buffer.kind() == ty,
            buffer.handle() == id,
    {
        Buffer { ty, id }
    }

    /// The kind of the buffer.
    pub fn ty(&self) -> (ty: BufferType)
        ensures
            ty == self.kind(),
    {
        self.ty
    }

    /// The native handle of the buffer.
    pub fn id(&self) -> (id: u32)
        ensures
            id == self.handle(),
    {
        self.id
    }

    /// Makes the buffer the current one of its slot and returns the guard
    /// that stands for that binding.
    pub fn bind<'a>(&'a self, ctx: &mut Context) -> (guard: ActiveBuffer<'a>)
        ensures
            guard.resource() == *self,
            guard.is_live(*final(ctx)),
            final(ctx).calls() == old(ctx).calls().push(
                Call::BindBuffer { kind: self.kind(), id: self.handle() },
            ),
            final(ctx).pending() == old(ctx).pending().push(
                Call::BindBuffer { kind: self.kind(), id: self.handle() },
            ),
            final(ctx).bindings() == old(ctx).bindings().set(self.kind().target(), self.handle()),
    {
        ctx.issue(Command::BindBuffer { kind: self.ty, id: self.id });
        ActiveBuffer { buffer: self }
    }

    /// Binds the buffer to its slot for good: no guard is returned, so
    /// nothing will empty the slot on the buffer's behalf. A vertex array
    /// captures its buffers this way.
    pub fn bind_permanently(&self, ctx: &mut Context)
        ensures
            final(ctx).calls() == old(ctx).calls().push(
                Call::BindBuffer { kind: self.kind(), id: self.handle() },
            ),
            final(ctx).pending() == old(ctx).pending().push(
                Call::BindBuffer { kind: self.kind(), id: self.handle() },
            ),
            final(ctx).bindings() == old(ctx).bindings().set(self.kind().target(), self.handle()),
    {
        ctx.issue(Command::BindBuffer { kind: self.ty, id: self.id });
    }

    /// Releases the native buffer. The value is consumed, so no guard can
    /// refer to the buffer afterwards.
    pub fn delete(self, ctx: &mut Context)
        ensures
            final(ctx).calls() == old(ctx).calls().push(Call::DeleteBuffer { id: self.handle() }),
            final(ctx).pending() == old(ctx).pending().push(
                Call::DeleteBuffer { id: self.handle() },
            ),
            final(ctx).bindings() == old(ctx).bindings(),
    {
        ctx.issue(Command::DeleteBuffer { id: self.id });
    }
}

impl<'a> ActiveBuffer<'a> {
    /// The buffer that the guard stands for.
    pub closed spec fn resource(self) -> Buffer {
        *self.buffer
    }

    /// Whether the guard's buffer is the current one of its slot.
    pub open spec fn is_live(self, ctx: Context) -> bool {
        ctx.bindings().get(self.resource().kind().target()) == self.resource().handle()
    }

    /// Whether the guard's buffer is the current one of its slot.
    pub fn live(&self, ctx: &Context) -> (b: bool)
        ensures
            b == self.is_live(*ctx),
    {
        ctx.current(self.buffer.ty.slot()) == self.buffer.id
    }

    /// Replaces the whole contents of the bound buffer with `data`, with the
    /// hint that the data will not change.
    pub fn buffer(&self, ctx: &mut Context, data: &[u8])
        requires
            self.is_live(*old(ctx)),
        ensures
            final(ctx).calls() == old(ctx).calls().push(
                Call::BufferData { kind: self.resource().kind(), usage: usage_name(), data: data@ },
            ),
            final(ctx).pending() == old(ctx).pending().push(
                Call::BufferData { kind: self.resource().kind(), usage: usage_name(), data: data@ },
            ),
            final(ctx).bindings() == old(ctx).bindings(),
    {
        let bytes = copy_bytes(data);
        ctx.issue(
            Command::BufferData { kind: self.buffer.ty, usage: native::static_draw(), data: bytes },
        );
    }

    /// Ends the binding: the slot of the buffer's kind becomes empty.
    pub fn release(self, ctx: &mut Context)
        ensures
            final(ctx).calls() == old(ctx).calls().push(
                Call::BindBuffer { kind: self.resource().kind(), id: 0 },
            ),
            final(ctx).pending() == old(ctx).pending().push(
                Call::BindBuffer { kind: self.resource().kind(), id: 0 },
            ),
            final(ctx).bindings() == old(ctx).bindings().set(self.resource().kind().target(), 0),
            final(ctx).bindings().get(self.resource().kind().target()) == 0,
    {
        ctx.issue(Command::BindBuffer { kind: self.buffer.ty, id: 0 });
    }
}

} // verus!
