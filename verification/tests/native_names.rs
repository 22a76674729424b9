use gl_sandbox::gfx::buffer::BufferType;
use gl_sandbox::gfx::shader::ShaderStage;
use gl_sandbox::gfx::texture::{MagnifyFilter, MinifyFilter, PixelFormat, WrapFunction};
use gl_sandbox::mesh::DrawMode;

#[test]
fn buffer_kinds_have_their_native_names() {
    assert_eq!(u32::from(BufferType::Vertex), gl::ARRAY_BUFFER);
    assert_eq!(u32::from(BufferType::Index), gl::ELEMENT_ARRAY_BUFFER);
    assert_eq!(u32::from(BufferType::Vertex), 0x8892);
    assert_eq!(u32::from(BufferType::Index), 0x8893);
}

#[test]
fn shader_stages_have_their_native_names() {
    assert_eq!(u32::from(ShaderStage::Vertex), gl::VERTEX_SHADER);
    assert_eq!(u32::from(ShaderStage::Fragment), gl::FRAGMENT_SHADER);
    assert_eq!(u32::from(ShaderStage::Vertex), 0x8B31);
    assert_eq!(u32::from(ShaderStage::Fragment), 0x8B30);
}

#[test]
fn minify_filters_have_their_native_names() {
    assert_eq!(i32::from(MinifyFilter::Nearest), gl::NEAREST as i32);
    assert_eq!(i32::from(MinifyFilter::Linear), gl::LINEAR as i32);
    assert_eq!(i32::from(MinifyFilter::NearestMipmapNearest), gl::NEAREST_MIPMAP_NEAREST as i32);
    assert_eq!(i32::from(MinifyFilter::LinearMipmapNearest), gl::LINEAR_MIPMAP_NEAREST as i32);
    assert_eq!(i32::from(MinifyFilter::NearestMipmapLinear), gl::NEAREST_MIPMAP_LINEAR as i32);
    assert_eq!(i32::from(MinifyFilter::LinearMipmapLinear), gl::LINEAR_MIPMAP_LINEAR as i32);
    assert_eq!(i32::from(MinifyFilter::Nearest), 0x2600);
    assert_eq!(i32::from(MinifyFilter::Linear), 0x2601);
    assert_eq!(i32::from(MinifyFilter::NearestMipmapNearest), 0x2700);
    assert_eq!(i32::from(MinifyFilter::LinearMipmapNearest), 0x2701);
    assert_eq!(i32::from(MinifyFilter::NearestMipmapLinear), 0x2702);
    assert_eq!(i32::from(MinifyFilter::LinearMipmapLinear), 0x2703);
}

#[test]
fn magnify_filters_have_their_native_names() {
    assert_eq!(i32::from(MagnifyFilter::Nearest), gl::NEAREST as i32);
    assert_eq!(i32::from(MagnifyFilter::Linear), gl::LINEAR as i32);
    assert_eq!(i32::from(MagnifyFilter::Nearest), 0x2600);
    assert_eq!(i32::from(MagnifyFilter::Linear), 0x2601);
}

#[test]
fn wrap_functions_have_their_native_names() {
    assert_eq!(i32::from(WrapFunction::Repeat), gl::REPEAT as i32);
    assert_eq!(i32::from(WrapFunction::Mirror), gl::MIRRORED_REPEAT as i32);
    assert_eq!(i32::from(WrapFunction::Clamp), gl::CLAMP_TO_EDGE as i32);
    assert_eq!(i32::from(WrapFunction::MirrorClamp), gl::MIRROR_CLAMP_TO_EDGE as i32);
    assert_eq!(i32::from(WrapFunction::Repeat), 0x2901);
    assert_eq!(i32::from(WrapFunction::Mirror), 0x8370);
    assert_eq!(i32::from(WrapFunction::Clamp), 0x812F);
    assert_eq!(i32::from(WrapFunction::MirrorClamp), 0x8743);
}

#[test]
fn pixel_formats_have_their_native_names() {
    assert_eq!(PixelFormat::Rgb.native_names(), (gl::RGB8 as i32, gl::RGB));
    assert_eq!(PixelFormat::Rgba.native_names(), (gl::RGBA8 as i32, gl::RGBA));
    assert_eq!(PixelFormat::Rgb.native_names(), (0x8051, 0x1907));
    assert_eq!(PixelFormat::Rgba.native_names(), (0x8058, 0x1908));
}

#[test]
fn draw_modes_have_their_native_names() {
    assert_eq!(u32::from(DrawMode::Points), gl::POINTS);
    assert_eq!(u32::from(DrawMode::Lines), gl::LINES);
    assert_eq!(u32::from(DrawMode::LineStrip), gl::LINE_STRIP);
    assert_eq!(u32::from(DrawMode::Triangles), gl::TRIANGLES);
    assert_eq!(u32::from(DrawMode::TriangleStrip), gl::TRIANGLE_STRIP);
    assert_eq!(u32::from(DrawMode::TriangleFan), gl::TRIANGLE_FAN);
    assert_eq!(u32::from(DrawMode::Points), 0);
    assert_eq!(u32::from(DrawMode::Lines), 1);
    assert_eq!(u32::from(DrawMode::LineStrip), 3);
    assert_eq!(u32::from(DrawMode::Triangles), 4);
    assert_eq!(u32::from(DrawMode::TriangleStrip), 5);
    assert_eq!(u32::from(DrawMode::TriangleFan), 6);
}
