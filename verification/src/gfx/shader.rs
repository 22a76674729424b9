//! Shader stages and linked programs.
//!
//! Building either one takes two steps, because the native API reports the
//! outcome only after the build calls were carried out: the first step
//! records the build calls, the second turns the reported status into a
//! value or an error.

use crate::gfx::context::{Call, Command, Context, Target};
use crate::gfx::native;
use vstd::prelude::*;

verus! {

/// The stage of the pipeline that a shader runs in.
#[derive(Clone, Copy, Debug, PartialEq, Eq, Structural)]
pub enum ShaderStage {
    Vertex,
    Fragment,
}

impl ShaderStage {
    /// The native name of the stage.
    pub open spec fn native_name(self) -> u32 {
        match self {
            ShaderStage::Vertex => 0x8B31,
            ShaderStage::Fragment => 0x8B30,
        }
    }
}

impl From<ShaderStage> for u32 {
    /// The native name of the stage.
    fn from(stage: ShaderStage) -> (r: u32) {
        match stage {
            ShaderStage::Vertex => native::vertex_shader(),
            ShaderStage::Fragment => native::fragment_shader(),
        }
    }
}

impl vstd::std_specs::convert::FromSpecImpl<ShaderStage> for u32 {
    open spec fn obeys_from_spec() -> bool {
        true
    }

    open spec fn from_spec(stage: ShaderStage) -> u32 {
        stage.native_name()
    }
}

/// Why a shader or a program could not be built.
#[derive(Debug, PartialEq, Eq)]
pub enum ShaderError {
    /// A stage did not compile; `diagnostic` is the compiler's text.
    CompileFailed { stage: ShaderStage, diagnostic: Vec<u8> },
    /// A program did not link; `diagnostic` is the linker's text.
    LinkFailed { diagnostic: Vec<u8> },
}

/// The text of an info log: the log as the native API wrote it, without the
/// terminator that ends it.
pub open spec fn diagnostic_of(log: Seq<u8>) -> Seq<u8> {
    if log.len() > 0 {
        log.drop_last()
    } else {
        log
    }
}

/// Whether a reported build status means success: it does if and only if
/// it is the native API's "true", 1.
pub open spec fn succeeded(status: i32) -> bool {
    status == 1
}

/// Drops the terminator from an info log.
pub fn diagnostic(log: Vec<u8>) -> (text: Vec<u8>)
    ensures
        text@ == diagnostic_of(log@),
{
    let mut text = log;
    let _ = text.pop();
    text
}

/// A value that a uniform can take.
#[derive(Clone, Copy, Debug)]
pub enum UniformValue {
    /// A 4x4 matrix: the bit patterns of its sixteen 32-bit floats, column
    /// by column.
    Matrix4([u32; 16]),
    /// A single integer.
    I1(i32),
}

/// The location that stands for "no such uniform".
pub const NO_LOCATION: i32 = -1;

/// Source text for one stage.
pub struct ShaderSource<'a> {
    stage: ShaderStage,
    src: &'a str,
}

impl<'a> ShaderSource<'a> {
    /// The stage that the text is for.
    pub closed spec fn stage(self) -> ShaderStage {
        self.stage
    }

    /// The text.
    pub closed spec fn text(self) -> Seq<char> {
        self.src@
    }

    /// Source text `src` for the stage `stage`.
    pub fn new(stage: ShaderStage, src: &'a str) -> (source: Self)
        ensures
            source.stage() == stage,
            source.text() == src@,
    {
        ShaderSource { stage: stage, src: src }
    }
}

/// A shader whose compilation was requested and whose outcome is not known
/// yet.
pub struct PendingShader {
    stage: ShaderStage,
    id: u32,
}

/// A compiled shader stage.
#[derive(Debug)]
pub struct Shader {
    stage: ShaderStage,
    id: u32,
}

impl Shader {
    /// The stage of the shader.
    pub closed spec fn stage(self) -> ShaderStage {
        self.stage
    }

    /// The native handle of the shader.
    pub closed spec fn handle(self) -> u32 {
        self.id
    }

    /// The native handle of the shader.
    pub fn id(&self) -> (id: u32)
        ensures
            id == self.handle(),
    {
        self.id
    }

    /// The stage of the shader.
    pub fn kind(&self) -> (stage: ShaderStage)
        ensures
            stage == self.stage(),
    {
        self.stage
    }

    /// Requests the compilation of `source` for `stage` into the native
    /// shader object `id`.
    pub fn from_source(ctx: &mut Context, stage: ShaderStage, source: &str, id: u32) -> (pending:
        PendingShader)
        ensures
            pending.stage() == stage,
            pending.handle() == id,
            final(ctx).calls() == old(ctx).calls() + compile_calls(id, source@),
            final(ctx).pending() == old(ctx).pending() + compile_calls(id, source@),
            final(ctx).bindings() == old(ctx).bindings(),
    {
        Self::compile_source(ctx, ShaderSource::new(stage, source), id)
    }

    /// Requests the compilation of `source` into the native shader object
    /// `id`: hands the text over, then compiles it.
    pub fn compile_source<'a>(ctx: &mut Context, source: ShaderSource<'a>, id: u32) -> (pending:
        PendingShader)
        ensures
            pending.stage() == source.stage(),
            pending.handle() == id,
            final(ctx).calls() == old(ctx).calls() + compile_calls(id, source.text()),
            final(ctx).pending() == old(ctx).pending() + compile_calls(id, source.text()),
            final(ctx).bindings() == old(ctx).bindings(),
    {
        ctx.issue(Command::ShaderSource { id, text: source.src.to_owned() });
        ctx.issue(Command::CompileShader { id });
        assert(ctx.calls() =~= old(ctx).calls() + compile_calls(id, source.text()));
        assert(ctx.pending() =~= old(ctx).pending() + compile_calls(id, source.text()));
        PendingShader { stage: source.stage, id }
    }

    /// Releases the native shader object.
    pub fn delete(self, ctx: &mut Context)
        ensures
            final(ctx).calls() == old(ctx).calls().push(Call::DeleteShader { id: self.handle() }),
            final(ctx).pending() == old(ctx).pending().push(Call::DeleteShader { id: self.handle() }),
            final(ctx).bindings() == old(ctx).bindings(),
    {
        ctx.issue(Command::DeleteShader { id: self.id });
    }
}

/// The calls that compile `text` into the shader object `id`.
pub open spec fn compile_calls(id: u32, text: Seq<char>) -> Seq<Call> {
    seq![Call::ShaderSource { id, text }, Call::CompileShader { id }]
}

impl PendingShader {
    /// The stage being compiled.
    pub closed spec fn stage(self) -> ShaderStage {
        self.stage
    }

    /// The native shader object being compiled into.
    pub closed spec fn handle(self) -> u32 {
        self.id
    }

    /// The native shader object being compiled into.
    pub fn id(&self) -> (id: u32)
        ensures
            id == self.handle(),
    {
        self.id
    }

    /// Turns the reported outcome of the compilation into a shader or an
    /// error. `status` is the compile status; `log` is the info log as the
    /// native API wrote it, terminator included, and is looked at only when
    /// the compilation failed.
    pub fn finish(self, status: i32, log: Vec<u8>) -> (r: Result<Shader, ShaderError>)
        ensures
            succeeded(status) ==> (r matches Ok(shader) && shader.stage() == self.stage()
                && shader.handle() == self.handle()),
            !succeeded(status) ==> (r matches Err(ShaderError::CompileFailed { stage, diagnostic })
                && stage == self.stage() && diagnostic@ == diagnostic_of(log@)),
    {
        let expected: u8 = native::status_true();
        if status != expected as i32 {
            Err(ShaderError::CompileFailed { stage: self.stage, diagnostic: diagnostic(log) })
        } else {
            Ok(Shader { stage: self.stage, id: self.id })
        }
    }
}

/// A program whose linking was requested and whose outcome is not known yet.
pub struct PendingProgram {
    id: u32,
}

/// A linked program, with the locations of the uniforms that were resolved
/// so far.
#[derive(Debug)]
pub struct Program {
    id: u32,
    uniforms: Vec<(String, i32)>,
}

/// Evidence that a program was made current. While the guard is live, the
/// program is the current one.
pub struct ActiveProgram<'a> {
    program: &'a Program,
}

/// The calls that attach the shaders `shaders`, in order, to the program
/// `id` and then link it.
pub open spec fn link_calls(id: u32, shaders: Seq<Shader>) -> Seq<Call> {
    Seq::new(shaders.len(), |i: int| Call::AttachShader { program: id, shader: shaders[i].handle() }).push(
        Call::LinkProgram { id },
    )
}

/// The location remembered for `name` in a list of resolved uniforms: that
/// of the first entry with that name, if there is one.
pub open spec fn lookup(entries: Seq<(Seq<char>, i32)>, name: Seq<char>) -> Option<i32>
    decreases entries.len(),
{
    if entries.len() == 0 {
        None
    } else if entries[0].0 == name {
        Some(entries[0].1)
    } else {
        lookup(entries.drop_first(), name)
    }
}

/// Remembering one more location changes nothing that was remembered
/// before: a name that was known keeps its location, the new name becomes
/// known with the new location, every other name stays unknown.
pub proof fn lookup_push(entries: Seq<(Seq<char>, i32)>, entry: (Seq<char>, i32), name: Seq<char>)
    ensures
        lookup(entries.push(entry), name) == match lookup(entries, name) {
            Some(location) => Some(location),
            None => if entry.0 == name {
                Some(entry.1)
            } else {
                None
            },
        },
    decreases entries.len(),
{
    if entries.len() == 0 {
        assert(entries.push(entry).drop_first().len() == 0);
    } else {
        assert(entries.push(entry).drop_first() =~= entries.drop_first().push(entry));
        lookup_push(entries.drop_first(), entry, name);
    }
}

impl Program {
    /// The native handle of the program.
    pub closed spec fn handle(self) -> u32 {
        self.id
    }

    /// The uniforms resolved so far, oldest first, each with its location.
    pub closed spec fn resolved(self) -> Seq<(Seq<char>, i32)> {
        Seq::new(self.uniforms@.len(), |i: int| (self.uniforms@[i].0@, self.uniforms@[i].1))
    }

    /// The location of the uniform `name`, if it was resolved before. `None`
    /// means that the native API has to be asked.
    pub fn get_uniform_location(&self, name: &str) -> (r: Option<i32>)
        ensures
            r == lookup(self.resolved(), name@),
    {
        let key = name.to_owned();
        let n = self.uniforms.len();
        let ghost all = self.resolved();
        let mut k: usize = 0;
        assert(all.subrange(0, n as int) =~= all);
        while k < n
            invariant
                k <= n,
                n == self.uniforms@.len(),
                all == self.resolved(),
                key@ == name@,
                lookup(all, name@) == lookup(all.subrange(k as int, n as int), name@),
            decreases n - k,
        {
            let ghost rest = all.subrange(k as int, n as int);
            assert(rest[0] == all[k as int]);
            assert(rest.drop_first() =~= all.subrange(k + 1, n as int));
            if self.uniforms[k].0 == key {
                return Some(self.uniforms[k].1);
            }
            k += 1;
        }
        None
    }

    /// Remembers that the native API gave `location` for the uniform
    /// `name`. The location that stands for "no such uniform" is remembered
    /// like any other. A name that was resolved before keeps its location.
    pub fn remember_uniform_location(&mut self, name: &str, location: i32)
        ensures
            final(self).handle() == old(self).handle(),
            final(self).resolved() == old(self).resolved().push((name@, location)),
            final(self).resolved().len() == old(self).resolved().len() + 1,
    {
        self.uniforms.push((name.to_owned(), location));
        assert(self.resolved() =~= old(self).resolved().push((name@, location)));
    }

    /// The native handle of the program.
    pub fn id(&self) -> (id: u32)
        ensures
            id == self.handle(),
    {
        self.id
    }

    /// Requests the linking of the given compiled stages into the native
    /// program object `id`: attaches each stage in order, then links.
    pub fn from_shaders(ctx: &mut Context, shaders: &[Shader], id: u32) -> (pending: PendingProgram)
        ensures
            pending.handle() == id,
            final(ctx).calls() == old(ctx).calls() + link_calls(id, shaders@),
            final(ctx).pending() == old(ctx).pending() + link_calls(id, shaders@),
            final(ctx).bindings() == old(ctx).bindings(),
    {
        let ghost attach = Seq::new(
            shaders@.len(),
            |i: int| Call::AttachShader { program: id, shader: shaders@[i].handle() },
        );
        let mut k: usize = 0;
        while k < shaders.len()
            invariant
                k <= shaders@.len(),
                attach == Seq::new(
                    shaders@.len(),
                    |i: int| Call::AttachShader { program: id, shader: shaders@[i].handle() },
                ),
                ctx.calls() == old(ctx).calls() + attach.subrange(0, k as int),
                ctx.pending() == old(ctx).pending() + attach.subrange(0, k as int),
                ctx.bindings() == old(ctx).bindings(),
            decreases shaders@.len() - k,
        {
            ctx.issue(Command::AttachShader { program: id, shader: shaders[k].id });
            assert(attach.subrange(0, k + 1) =~= attach.subrange(0, k as int).push(attach[k as int]));
            assert(ctx.calls() =~= old(ctx).calls() + attach.subrange(0, k + 1));
            assert(ctx.pending() =~= old(ctx).pending() + attach.subrange(0, k + 1));
            k += 1;
        }
        assert(attach.subrange(0, k as int) =~= attach);
        ctx.issue(Command::LinkProgram { id });
        assert(ctx.calls() =~= old(ctx).calls() + link_calls(id, shaders@));
        assert(ctx.pending() =~= old(ctx).pending() + link_calls(id, shaders@));
        PendingProgram { id }
    }

    /// Makes the program current and returns the guard that stands for that
    /// binding.
    pub fn bind<'a>(&'a self, ctx: &mut Context) -> (guard: ActiveProgram<'a>)
        ensures
            guard.resource() == *self,
            guard.is_live(*final(ctx)),
            final(ctx).calls() == old(ctx).calls().push(Call::UseProgram { id: self.handle() }),
            final(ctx).pending() == old(ctx).pending().push(Call::UseProgram { id: self.handle() }),
            final(ctx).bindings() == old(ctx).bindings().set(Target::Program, self.handle()),
    {
        ctx.issue(Command::UseProgram { id: self.id });
        ActiveProgram { program: self }
    }

    /// Releases the native program object.
    pub fn delete(self, ctx: &mut Context)
        ensures
            final(ctx).calls() == old(ctx).calls().push(Call::DeleteProgram { id: self.handle() }),
            final(ctx).pending() == old(ctx).pending().push(Call::DeleteProgram { id: self.handle() }),
            final(ctx).bindings() == old(ctx).bindings(),
    {
        ctx.issue(Command::DeleteProgram { id: self.id });
    }
}

impl PendingProgram {
    /// The native program object being linked.
    pub closed spec fn handle(self) -> u32 {
        self.id
    }

    /// The native program object being linked.
    pub fn id(&self) -> (id: u32)
        ensures
            id == self.handle(),
    {
        self.id
    }

    /// Turns the reported outcome of the linking into a program or an
    /// error. `status` is the link status; `log` is the info log as the
    /// native API wrote it, terminator included, and is looked at only when
    /// the linking failed.
    pub fn finish(self, status: i32, log: Vec<u8>) -> (r: Result<Program, ShaderError>)
        ensures
            succeeded(status) ==> (r matches Ok(program) && program.handle() == self.handle()
                && program.resolved() == Seq::<(Seq<char>, i32)>::empty()),
            !succeeded(status) ==> (r matches Err(ShaderError::LinkFailed { diagnostic })
                && diagnostic@ == diagnostic_of(log@)),
    {
        let expected: u8 = native::status_true();
        if status != expected as i32 {
            Err(ShaderError::LinkFailed { diagnostic: diagnostic(log) })
        } else {
            let program = Program { id: self.id, uniforms: Vec::new() };
            assert(program.resolved() =~= Seq::<(Seq<char>, i32)>::empty());
            Ok(program)
        }
    }
}

/// The call that sets the uniform at `location` to `value`. A matrix is
/// handed over column by column, as it is stored.
pub open spec fn uniform_call(location: i32, value: UniformValue) -> Call {
    match value {
        UniformValue::Matrix4(m) => Call::UniformMatrix4 { location, transpose: false, value: m@ },
        UniformValue::I1(i) => Call::Uniform1i { location, value: i },
    }
}

impl<'a> ActiveProgram<'a> {
    /// The program that the guard stands for.
    pub closed spec fn resource(self) -> Program {
        *self.program
    }

    /// Whether the guard's program is the current one.
    pub open spec fn is_live(self, ctx: Context) -> bool {
        ctx.bindings().get(Target::Program) == self.resource().handle()
    }

    /// Whether the guard's program is the current one.
    pub fn live(&self, ctx: &Context) -> (b: bool)
        ensures
            b == self.is_live(*ctx),
    {
        ctx.current(Target::Program) == self.program.id
    }

    /// Sets the uniform at `location` of the bound program. With the
    /// location that stands for "no such uniform" nothing happens.
    pub fn uniform(&self, ctx: &mut Context, location: i32, val: UniformValue)
        requires
            self.is_live(*old(ctx)),
        ensures
            location == NO_LOCATION ==> final(ctx).calls() == old(ctx).calls(),
            location == NO_LOCATION ==> final(ctx).pending() == old(ctx).pending(),
            location != NO_LOCATION ==> final(ctx).calls() == old(ctx).calls().push(
                uniform_call(location, val),
            ),
            location != NO_LOCATION ==> final(ctx).pending() == old(ctx).pending().push(
                uniform_call(location, val),
            ),
            final(ctx).bindings() == old(ctx).bindings(),
    {
        if location != NO_LOCATION {
            match val {
                UniformValue::Matrix4(mat4) => {
                    ctx.issue(Command::UniformMatrix4 { location, transpose: false, value: mat4 });
                },
                UniformValue::I1(i) => {
                    ctx.issue(Command::Uniform1i { location, value: i });
                },
            }
        }
    }

    /// Ends the binding: no program is current afterwards.
    pub fn release(self, ctx: &mut Context)
        ensures
            final(ctx).calls() == old(ctx).calls().push(Call::UseProgram { id: 0 }),
            final(ctx).pending() == old(ctx).pending().push(Call::UseProgram { id: 0 }),
            final(ctx).bindings() == old(ctx).bindings().set(Target::Program, 0),
            final(ctx).bindings().get(Target::Program) == 0,
    {
        ctx.issue(Command::UseProgram { id: 0 });
    }
}

} // verus!
