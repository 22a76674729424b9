use gl_sandbox::gfx::buffer::{copy_bytes, Buffer, BufferType};
use gl_sandbox::gfx::context::{Command, Context, Target};
use gl_sandbox::gfx::shader::{PendingProgram, Program, Shader, ShaderStage};
use gl_sandbox::gfx::texture::{ColorType, DecodedImage, DecodingResult, Texture};
use gl_sandbox::gfx::vertex_array::VertexArray;

const TARGETS: [Target; 5] = [
    Target::ArrayBuffer,
    Target::ElementArrayBuffer,
    Target::Program,
    Target::Texture,
    Target::VertexArray,
];

fn linked(ctx: &mut Context, id: u32) -> Program {
    let pending: PendingProgram = Program::from_shaders(ctx, &[], id);
    pending.finish(1, Vec::new()).unwrap()
}

fn small_texture(ctx: &mut Context, id: u32) -> Texture {
    let image = DecodedImage {
        width: 1,
        height: 1,
        color: ColorType::RGB(8),
        data: DecodingResult::U8(vec![1, 2, 3]),
    };
    Texture::new(ctx, id, image).unwrap()
}

#[test]
fn new_context_has_nothing_bound_and_nothing_queued() {
    let mut ctx = Context::new();
    for t in TARGETS {
        assert_eq!(ctx.current(t), 0);
    }
    assert_eq!(ctx.pending_len(), 0);
    assert_eq!(ctx.take_commands(), Vec::<Command>::new());
}

#[test]
fn buffer_guard_binds_its_slot_and_release_empties_it() {
    let mut ctx = Context::new();
    let vbo = Buffer::new(BufferType::Vertex, 7);
    assert_eq!(vbo.id(), 7);
    assert_eq!(vbo.ty(), BufferType::Vertex);
    let guard = vbo.bind(&mut ctx);
    assert!(guard.live(&ctx));
    assert_eq!(ctx.current(Target::ArrayBuffer), 7);
    assert_eq!(ctx.current(Target::ElementArrayBuffer), 0);
    guard.release(&mut ctx);
    assert_eq!(ctx.current(Target::ArrayBuffer), 0);
    assert_eq!(
        ctx.take_commands(),
        vec![
            Command::BindBuffer { kind: BufferType::Vertex, id: 7 },
            Command::BindBuffer { kind: BufferType::Vertex, id: 0 },
        ]
    );
}

#[test]
fn index_buffer_uses_its_own_slot() {
    let mut ctx = Context::new();
    let vbo = Buffer::new(BufferType::Vertex, 1);
    let ibo = Buffer::new(BufferType::Index, 2);
    assert_eq!(BufferType::Vertex.slot(), Target::ArrayBuffer);
    assert_eq!(BufferType::Index.slot(), Target::ElementArrayBuffer);
    let a = vbo.bind(&mut ctx);
    let b = ibo.bind(&mut ctx);
    assert_eq!(ctx.current(Target::ArrayBuffer), 1);
    assert_eq!(ctx.current(Target::ElementArrayBuffer), 2);
    b.release(&mut ctx);
    assert_eq!(ctx.current(Target::ArrayBuffer), 1);
    assert_eq!(ctx.current(Target::ElementArrayBuffer), 0);
    assert!(a.live(&ctx));
    a.release(&mut ctx);
    assert_eq!(ctx.current(Target::ArrayBuffer), 0);
}

#[test]
fn a_second_bind_takes_the_slot_from_the_first_guard() {
    let mut ctx = Context::new();
    let first = Buffer::new(BufferType::Vertex, 1);
    let second = Buffer::new(BufferType::Vertex, 2);
    let a = first.bind(&mut ctx);
    let b = second.bind(&mut ctx);
    assert!(!a.live(&ctx));
    assert!(b.live(&ctx));
    assert_eq!(ctx.current(Target::ArrayBuffer), 2);
}

#[test]
fn upload_records_the_bytes_for_the_bound_kind() {
    let mut ctx = Context::new();
    let ibo = Buffer::new(BufferType::Index, 3);
    let guard = ibo.bind(&mut ctx);
    guard.buffer(&mut ctx, &[0, 0, 1, 0, 2, 0]);
    guard.release(&mut ctx);
    assert_eq!(
        ctx.take_commands(),
        vec![
            Command::BindBuffer { kind: BufferType::Index, id: 3 },
            Command::BufferData {
                kind: BufferType::Index,
                usage: gl::STATIC_DRAW,
                data: vec![0, 0, 1, 0, 2, 0],
            },
            Command::BindBuffer { kind: BufferType::Index, id: 0 },
        ]
    );
}

#[test]
fn copy_bytes_copies() {
    assert_eq!(copy_bytes(&[]), Vec::<u8>::new());
    assert_eq!(copy_bytes(&[9, 8, 7]), vec![9, 8, 7]);
}

#[test]
fn permanent_bind_stays() {
    let mut ctx = Context::new();
    let vbo = Buffer::new(BufferType::Vertex, 4);
    vbo.bind_permanently(&mut ctx);
    assert_eq!(ctx.current(Target::ArrayBuffer), 4);
    assert_eq!(
        ctx.take_commands(),
        vec![Command::BindBuffer { kind: BufferType::Vertex, id: 4 }]
    );
}

#[test]
fn deleting_a_buffer_records_the_release() {
    let mut ctx = Context::new();
    let vbo = Buffer::new(BufferType::Vertex, 4);
    vbo.delete(&mut ctx);
    assert_eq!(ctx.take_commands(), vec![Command::DeleteBuffer { id: 4 }]);
}

#[test]
fn program_guard_release_returns_to_none() {
    let mut ctx = Context::new();
    let program = linked(&mut ctx, 9);
    let guard = program.bind(&mut ctx);
    assert!(guard.live(&ctx));
    assert_eq!(ctx.current(Target::Program), 9);
    guard.release(&mut ctx);
    assert_eq!(ctx.current(Target::Program), 0);
}

#[test]
fn texture_guard_release_returns_to_none() {
    let mut ctx = Context::new();
    let texture = small_texture(&mut ctx, 5);
    assert_eq!(ctx.current(Target::Texture), 0);
    let guard = texture.bind(&mut ctx);
    assert!(guard.live(&ctx));
    assert_eq!(ctx.current(Target::Texture), 5);
    guard.release(&mut ctx);
    assert_eq!(ctx.current(Target::Texture), 0);
}

#[test]
fn vertex_array_guard_release_returns_to_none() {
    let mut ctx = Context::new();
    let vao = VertexArray::new(&mut ctx, 6, Buffer::new(BufferType::Vertex, 1), None, &[]);
    let guard = vao.bind(&mut ctx);
    assert!(guard.live(&ctx));
    assert_eq!(ctx.current(Target::VertexArray), 6);
    guard.release(&mut ctx);
    assert_eq!(ctx.current(Target::VertexArray), 0);
}

#[test]
fn guards_of_different_slots_do_not_disturb_each_other() {
    let mut ctx = Context::new();
    let program = linked(&mut ctx, 9);
    let texture = small_texture(&mut ctx, 5);
    let p = program.bind(&mut ctx);
    let t = texture.bind(&mut ctx);
    assert!(p.live(&ctx));
    assert!(t.live(&ctx));
    t.release(&mut ctx);
    assert!(p.live(&ctx));
    assert_eq!(ctx.current(Target::Program), 9);
    p.release(&mut ctx);
    for target in TARGETS {
        assert_eq!(ctx.current(target), 0);
    }
}

#[test]
fn taking_commands_empties_the_queue_and_keeps_the_bindings() {
    let mut ctx = Context::new();
    let vbo = Buffer::new(BufferType::Vertex, 7);
    let guard = vbo.bind(&mut ctx);
    assert_eq!(ctx.pending_len(), 1);
    let first = ctx.take_commands();
    assert_eq!(first.len(), 1);
    assert_eq!(ctx.pending_len(), 0);
    assert!(guard.live(&ctx));
    assert_eq!(ctx.current(Target::ArrayBuffer), 7);
    guard.release(&mut ctx);
    assert_eq!(
        ctx.take_commands(),
        vec![Command::BindBuffer { kind: BufferType::Vertex, id: 0 }]
    );
}

#[test]
fn shader_stage_is_kept() {
    let mut ctx = Context::new();
    let pending = Shader::from_source(&mut ctx, ShaderStage::Fragment, "void main() {}", 3);
    let shader = pending.finish(1, Vec::new()).unwrap();
    assert_eq!(shader.kind(), ShaderStage::Fragment);
    assert_eq!(shader.id(), 3);
}
