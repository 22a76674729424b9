//! The binding context: an explicit value that stands for the process-wide
//! state of the native graphics API. Every wrapper operation records the
//! native call it amounts to and updates the slot it binds, so that the
//! bind / use / unbind discipline can be stated and checked.

use crate::gfx::buffer::BufferType;
use vstd::prelude::*;

verus! {

/// A binding target: a slot of the native API that holds at most one
/// resource at a time.
#[derive(Clone, Copy, Debug, PartialEq, Eq, Structural)]
pub enum Target {
    ArrayBuffer,
    ElementArrayBuffer,
    Program,
    Texture,
    VertexArray,
}

/// The handle that occupies each binding target; 0 stands for "none".
#[derive(Clone, Copy, Debug, PartialEq, Eq, Structural)]
pub struct Bindings {
    pub array_buffer: u32,
    pub element_array_buffer: u32,
    pub program: u32,
    pub texture: u32,
    pub vertex_array: u32,
}

impl Bindings {
    /// Every target empty.
    pub open spec fn none() -> Bindings {
        Bindings {
            array_buffer: 0,
            element_array_buffer: 0,
            program: 0,
            texture: 0,
            vertex_array: 0,
        }
    }

    /// The handle in one slot.
    pub open spec fn get(self, target: Target) -> u32 {
        match target {
            Target::ArrayBuffer => self.array_buffer,
            Target::ElementArrayBuffer => self.element_array_buffer,
            Target::Program => self.program,
            Target::Texture => self.texture,
            Target::VertexArray => self.vertex_array,
        }
    }

    /// These bindings with one slot replaced.
    pub open spec fn set(self, target: Target, id: u32) -> Bindings {
        match target {
            Target::ArrayBuffer => Bindings { array_buffer: id, ..self },
            Target::ElementArrayBuffer => Bindings { element_array_buffer: id, ..self },
            Target::Program => Bindings { program: id, ..self },
            Target::Texture => Bindings { texture: id, ..self },
            Target::VertexArray => Bindings { vertex_array: id, ..self },
        }
    }
}

/// One native call with its arguments. Handles, counts and offsets are
/// plain numbers; targets, formats, types and modes are the names that the
/// native API gives them. Whoever carries a command out hands its fields to
/// the native function as they are.
#[allow(inconsistent_fields)]
#[derive(Debug, PartialEq, Eq)]
pub enum Command {
    BindBuffer { kind: BufferType, id: u32 },
    BufferData { kind: BufferType, usage: u32, data: Vec<u8> },
    DeleteBuffer { id: u32 },
    ShaderSource { id: u32, text: String },
    CompileShader { id: u32 },
    DeleteShader { id: u32 },
    AttachShader { program: u32, shader: u32 },
    LinkProgram { id: u32 },
    UseProgram { id: u32 },
    UniformMatrix4 { location: i32, transpose: bool, value: [u32; 16] },
    Uniform1i { location: i32, value: i32 },
    DeleteProgram { id: u32 },
    BindTexture { target: u32, id: u32 },
    TexImage {
        target: u32,
        level: i32,
        internal_format: i32,
        width: u32,
        height: u32,
        border: i32,
        format: u32,
        ty: u32,
        pixels: Vec<u8>,
    },
    TexParameter { target: u32, pname: u32, value: i32 },
    DeleteTexture { id: u32 },
    BindVertexArray { id: u32 },
    EnableVertexAttribArray { location: u32 },
    VertexAttribPointer {
        location: u32,
        size: i32,
        ty: u32,
        normalized: bool,
        stride: i32,
        start: usize,
    },
    DrawElements { mode: u32, count: i32, index_type: u32, offset: i64 },
    DrawArrays { mode: u32, first: i32, count: i32 },
    DeleteVertexArray { id: u32 },
}

/// The mathematical content of a [`Command`].
#[allow(inconsistent_fields)]
pub enum Call {
    BindBuffer { kind: BufferType, id: u32 },
    BufferData { kind: BufferType, usage: u32, data: Seq<u8> },
    DeleteBuffer { id: u32 },
    ShaderSource { id: u32, text: Seq<char> },
    CompileShader { id: u32 },
    DeleteShader { id: u32 },
    AttachShader { program: u32, shader: u32 },
    LinkProgram { id: u32 },
    UseProgram { id: u32 },
    UniformMatrix4 { location: i32, transpose: bool, value: Seq<u32> },
    Uniform1i { location: i32, value: i32 },
    DeleteProgram { id: u32 },
    BindTexture { target: u32, id: u32 },
    TexImage {
        target: u32,
        level: i32,
        internal_format: i32,
        width: u32,
        height: u32,
        border: i32,
        format: u32,
        ty: u32,
        pixels: Seq<u8>,
    },
    TexParameter { target: u32, pname: u32, value: i32 },
    DeleteTexture { id: u32 },
    BindVertexArray { id: u32 },
    EnableVertexAttribArray { location: u32 },
    VertexAttribPointer {
        location: u32,
        size: i32,
        ty: u32,
        normalized: bool,
        stride: i32,
        start: usize,
    },
    DrawElements { mode: u32, count: i32, index_type: u32, offset: i64 },
    DrawArrays { mode: u32, first: i32, count: i32 },
    DeleteVertexArray { id: u32 },
}

impl View for Command {
    type V = Call;

    open spec fn view(&self) -> Call {
        match *self {
            Command::BindBuffer { kind, id } => Call::BindBuffer { kind, id },
            Command::BufferData { kind, usage, data } => Call::BufferData {
                kind,
                usage,
                data: data@,
            },
            Command::DeleteBuffer { id } => Call::DeleteBuffer { id },
            Command::ShaderSource { id, text } => Call::ShaderSource { id, text: text@ },
            Command::CompileShader { id } => Call::CompileShader { id },
            Command::DeleteShader { id } => Call::DeleteShader { id },
            Command::AttachShader { program, shader } => Call::AttachShader { program, shader },
            Command::LinkProgram { id } => Call::LinkProgram { id },
            Command::UseProgram { id } => Call::UseProgram { id },
            Command::UniformMatrix4 { location, transpose, value } => Call::UniformMatrix4 {
                location,
                transpose,
                value: value@,
            },
            Command::Uniform1i { location, value } => Call::Uniform1i { location, value },
            Command::DeleteProgram { id } => Call::DeleteProgram { id },
            Command::BindTexture { target, id } => Call::BindTexture { target, id },
            Command::TexImage {
                target,
                level,
                internal_format,
                width,
                height,
                border,
                format,
                ty,
                pixels,
            } => Call::TexImage {
                target,
                level,
                internal_format,
                width,
                height,
                border,
                format,
                ty,
                pixels: pixels@,
            },
            Command::TexParameter { target, pname, value } => Call::TexParameter {
                target,
                pname,
                value,
            },
            Command::DeleteTexture { id } => Call::DeleteTexture { id },
            Command::BindVertexArray { id } => Call::BindVertexArray { id },
            Command::EnableVertexAttribArray { location } => Call::EnableVertexAttribArray {
                location,
            },
            Command::VertexAttribPointer { location, size, ty, normalized, stride, start } => {
                Call::VertexAttribPointer { location, size, ty, normalized, stride, start }
            },
            Command::DrawElements { mode, count, index_type, offset } => Call::DrawElements {
                mode,
                count,
                index_type,
                offset,
            },
            Command::DrawArrays { mode, first, count } => Call::DrawArrays { mode, first, count },
            Command::DeleteVertexArray { id } => Call::DeleteVertexArray { id },
        }
    }
}

/// The views of a run of commands, in order.
pub open spec fn calls_of(commands: Seq<Command>) -> Seq<Call> {
    Seq::new(commands.len(), |i: int| commands[i]@)
}

/// What one call does to the binding slots: a bind call replaces the handle
/// in its slot, every other call leaves all slots alone.
pub open spec fn step(bindings: Bindings, call: Call) -> Bindings {
    match call {
        Call::BindBuffer { kind, id } => bindings.set(kind.target(), id),
        Call::UseProgram { id } => bindings.set(Target::Program, id),
        Call::BindTexture { target: _, id } => bindings.set(Target::Texture, id),
        Call::BindVertexArray { id } => bindings.set(Target::VertexArray, id),
        _ => bindings,
    }
}

/// The bindings that a history of calls leaves behind, starting from empty
/// slots.
pub open spec fn replay(calls: Seq<Call>) -> Bindings
    decreases calls.len(),
{
    if calls.len() == 0 {
        Bindings::none()
    } else {
        step(replay(calls.drop_last()), calls.last())
    }
}

/// Replaying a history extended by one call is one step from replaying the
/// history.
pub proof fn replay_push(calls: Seq<Call>, call: Call)
    ensures
        replay(calls.push(call)) == step(replay(calls), call),
{
    assert(calls.push(call).drop_last() =~= calls);
}

/// The binding slots together with the history of calls that filled them.
struct Tracker {
    slots: Bindings,
    history: Ghost<Seq<Call>>,
}

impl Tracker {
    #[verifier::type_invariant]
    spec fn slots_follow_history(self) -> bool {
        self.slots == replay(self.history@)
    }

    fn new() -> (t: Tracker)
        ensures
            t.slots == Bindings::none(),
            t.history@ == Seq::<Call>::empty(),
    {
        Tracker {
            slots: Bindings {
                array_buffer: 0,
                element_array_buffer: 0,
                program: 0,
                texture: 0,
                vertex_array: 0,
            },
            history: Ghost(Seq::empty()),
        }
    }

    /// The tracker after one more call.
    fn after(&self, command: &Command) -> (t: Tracker)
        ensures
            t.slots == step(self.slots, command@),
            t.history@ == self.history@.push(command@),
    {
        proof {
            use_type_invariant(self);
            replay_push(self.history@, command@);
        }
        let b = self.slots;
        let slots = match command {
            Command::BindBuffer { kind, id } => match kind {
                BufferType::Vertex => Bindings { array_buffer: *id, ..b },
                BufferType::Index => Bindings { element_array_buffer: *id, ..b },
            },
            Command::UseProgram { id } => Bindings { program: *id, ..b },
            Command::BindTexture { target: _, id } => Bindings { texture: *id, ..b },
            Command::BindVertexArray { id } => Bindings { vertex_array: *id, ..b },
            _ => b,
        };
        Tracker { slots, history: Ghost(self.history@.push(command@)) }
    }
}

/// The binding context. It keeps the commands that still have to be carried
/// out, the handle in each binding slot, and the whole history of calls.
pub struct Context {
    queue: Vec<Command>,
    tracker: Tracker,
}

impl Context {
    /// Every call recorded since the context was made, oldest first.
    pub closed spec fn calls(self) -> Seq<Call> {
        self.tracker.history@
    }

    /// The recorded calls that have not been handed out yet, oldest first.
    pub closed spec fn pending(self) -> Seq<Call> {
        calls_of(self.queue@)
    }

    /// The handle in each binding slot.
    pub closed spec fn bindings(self) -> Bindings {
        self.tracker.slots
    }

    /// A context with nothing recorded and nothing bound.
    pub fn new() -> (ctx: Context)
        ensures
            ctx.calls() == Seq::<Call>::empty(),
            ctx.pending() == Seq::<Call>::empty(),
            ctx.bindings() == Bindings::none(),
    {
        let ctx = Context { queue: Vec::new(), tracker: Tracker::new() };
        assert(ctx.pending() =~= Seq::<Call>::empty());
        ctx
    }

    /// The handle currently bound to `target`, 0 if none is. The slots
    /// always hold what replaying the whole history from empty slots gives:
    /// "current" means "named by the latest bind call for that slot".
    pub fn current(&self, target: Target) -> (id: u32)
        ensures
            id == self.bindings().get(target),
            self.bindings() == replay(self.calls()),
    {
        proof {
            use_type_invariant(&self.tracker);
        }
        match target {
            Target::ArrayBuffer => self.tracker.slots.array_buffer,
            Target::ElementArrayBuffer => self.tracker.slots.element_array_buffer,
            Target::Program => self.tracker.slots.program,
            Target::Texture => self.tracker.slots.texture,
            Target::VertexArray => self.tracker.slots.vertex_array,
        }
    }

    /// Number of recorded commands that have not been handed out yet.
    pub fn pending_len(&self) -> (n: usize)
        ensures
            n == self.pending().len(),
    {
        self.queue.len()
    }

    /// Records one call: it joins the history and the queue, and the slot it
    /// binds, if any, takes its handle.
    pub(crate) fn issue(&mut self, command: Command)
        ensures
            final(self).calls() == old(self).calls().push(command@),
            final(self).pending() == old(self).pending().push(command@),
            final(self).bindings() == step(old(self).bindings(), command@),
            final(self).bindings() == replay(final(self).calls()),
    {
        let ghost before = self.queue@;
        let ghost call = command@;
        let next = self.tracker.after(&command);
        proof {
            use_type_invariant(&next);
        }
        self.tracker = next;
        self.queue.push(command);
        assert(calls_of(self.queue@) =~= calls_of(before).push(call));
    }

    /// Hands out the queued commands, oldest first, for the caller to carry
    /// out against the native API. The history and the slots stay as they
    /// are.
    pub fn take_commands(&mut self) -> (commands: Vec<Command>)
        ensures
            calls_of(commands@) == old(self).pending(),
            final(self).pending() == Seq::<Call>::empty(),
            final(self).calls() == old(self).calls(),
            final(self).bindings() == old(self).bindings(),
    {
        let mut out: Vec<Command> = Vec::new();
        core::mem::swap(&mut out, &mut self.queue);
        assert(calls_of(self.queue@) =~= Seq::<Call>::empty());
        out
    }
}

} // verus!
