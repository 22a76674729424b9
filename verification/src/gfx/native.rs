//! The numeric names that the native graphics API gives to its enumerants.
//!
//! Each function below reads one constant of the `gl` crate. Its contract
//! states the number that the crate's bindings assign to that constant; the
//! number is taken on trust, not proved.

use vstd::prelude::*;

verus! {

/// Reads `gl::ARRAY_BUFFER`, the binding slot for vertex data; claims that it is 0x8892.
#[verifier::external_body]
pub(crate) fn array_buffer() -> (r: u32)
    ensures
        r == 0x8892u32,
{
    gl::ARRAY_BUFFER
}

/// Reads `gl::ELEMENT_ARRAY_BUFFER`, the binding slot for index data; claims that it is 0x8893.
#[verifier::external_body]
pub(crate) fn element_array_buffer() -> (r: u32)
    ensures
        r == 0x8893u32,
{
    gl::ELEMENT_ARRAY_BUFFER
}

/// Reads `gl::VERTEX_SHADER`, the vertex stage; claims that it is 0x8B31.
#[verifier::external_body]
pub(crate) fn vertex_shader() -> (r: u32)
    ensures
        r == 0x8B31u32,
{
    gl::VERTEX_SHADER
}

/// Reads `gl::FRAGMENT_SHADER`, the fragment stage; claims that it is 0x8B30.
#[verifier::external_body]
pub(crate) fn fragment_shader() -> (r: u32)
    ensures
        r == 0x8B30u32,
{
    gl::FRAGMENT_SHADER
}

/// Reads `gl::NEAREST`, nearest-texel sampling; claims that it is 0x2600.
#[verifier::external_body]
pub(crate) fn nearest() -> (r: u32)
    ensures
        r == 0x2600u32,
{
    gl::NEAREST
}

/// Reads `gl::LINEAR`, linear sampling; claims that it is 0x2601.
#[verifier::external_body]
pub(crate) fn linear() -> (r: u32)
    ensures
        r == 0x2601u32,
{
    gl::LINEAR
}

/// Reads `gl::NEAREST_MIPMAP_NEAREST`, nearest texel of the nearest mipmap level; claims that it is 0x2700.
#[verifier::external_body]
pub(crate) fn nearest_mipmap_nearest() -> (r: u32)
    ensures
        r == 0x2700u32,
{
    gl::NEAREST_MIPMAP_NEAREST
}

/// Reads `gl::LINEAR_MIPMAP_NEAREST`, linear sampling of the nearest mipmap level; claims that it is 0x2701.
#[verifier::external_body]
pub(crate) fn linear_mipmap_nearest() -> (r: u32)
    ensures
        r == 0x2701u32,
{
    gl::LINEAR_MIPMAP_NEAREST
}

/// Reads `gl::NEAREST_MIPMAP_LINEAR`, nearest texel, blended between two mipmap levels; claims that it is 0x2702.
#[verifier::external_body]
pub(crate) fn nearest_mipmap_linear() -> (r: u32)
    ensures
        r == 0x2702u32,
{
    gl::NEAREST_MIPMAP_LINEAR
}

/// Reads `gl::LINEAR_MIPMAP_LINEAR`, linear sampling, blended between two mipmap levels; claims that it is 0x2703.
#[verifier::external_body]
pub(crate) fn linear_mipmap_linear() -> (r: u32)
    ensures
        r == 0x2703u32,
{
    gl::LINEAR_MIPMAP_LINEAR
}

/// Reads `gl::REPEAT`, repeating wrap; claims that it is 0x2901.
#[verifier::external_body]
pub(crate) fn repeat() -> (r: u32)
    ensures
        r == 0x2901u32,
{
    gl::REPEAT
}

/// Reads `gl::MIRRORED_REPEAT`, mirrored repeating wrap; claims that it is 0x8370.
#[verifier::external_body]
pub(crate) fn mirrored_repeat() -> (r: u32)
    ensures
        r == 0x8370u32,
{
    gl::MIRRORED_REPEAT
}

/// Reads `gl::CLAMP_TO_EDGE`, clamping wrap; claims that it is 0x812F.
#[verifier::external_body]
pub(crate) fn clamp_to_edge() -> (r: u32)
    ensures
        r == 0x812Fu32,
{
    gl::CLAMP_TO_EDGE
}

/// Reads `gl::MIRROR_CLAMP_TO_EDGE`, mirror-once-then-clamp wrap; claims that it is 0x8743.
#[verifier::external_body]
pub(crate) fn mirror_clamp_to_edge() -> (r: u32)
    ensures
        r == 0x8743u32,
{
    gl::MIRROR_CLAMP_TO_EDGE
}

/// Reads `gl::RGB8`, the sized three-channel storage format; claims that it is 0x8051.
#[verifier::external_body]
pub(crate) fn rgb8() -> (r: u32)
    ensures
        r == 0x8051u32,
{
    gl::RGB8
}

/// Reads `gl::RGB`, the three-channel pixel layout; claims that it is 0x1907.
#[verifier::external_body]
pub(crate) fn rgb() -> (r: u32)
    ensures
        r == 0x1907u32,
{
    gl::RGB
}

/// Reads `gl::RGBA8`, the sized four-channel storage format; claims that it is 0x8058.
#[verifier::external_body]
pub(crate) fn rgba8() -> (r: u32)
    ensures
        r == 0x8058u32,
{
    gl::RGBA8
}

/// Reads `gl::RGBA`, the four-channel pixel layout; claims that it is 0x1908.
#[verifier::external_body]
pub(crate) fn rgba() -> (r: u32)
    ensures
        r == 0x1908u32,
{
    gl::RGBA
}

/// Reads `gl::POINTS`, the point primitive; claims that it is 0x0000.
#[verifier::external_body]
pub(crate) fn points() -> (r: u32)
    ensures
        r == 0x0000u32,
{
    gl::POINTS
}

/// Reads `gl::LINES`, the line-list primitive; claims that it is 0x0001.
#[verifier::external_body]
pub(crate) fn lines() -> (r: u32)
    ensures
        r == 0x0001u32,
{
    gl::LINES
}

/// Reads `gl::LINE_STRIP`, the line-strip primitive; claims that it is 0x0003.
#[verifier::external_body]
pub(crate) fn line_strip() -> (r: u32)
    ensures
        r == 0x0003u32,
{
    gl::LINE_STRIP
}

/// Reads `gl::TRIANGLES`, the triangle-list primitive; claims that it is 0x0004.
#[verifier::external_body]
pub(crate) fn triangles() -> (r: u32)
    ensures
        r == 0x0004u32,
{
    gl::TRIANGLES
}

/// Reads `gl::TRIANGLE_STRIP`, the triangle-strip primitive; claims that it is 0x0005.
#[verifier::external_body]
pub(crate) fn triangle_strip() -> (r: u32)
    ensures
        r == 0x0005u32,
{
    gl::TRIANGLE_STRIP
}

/// Reads `gl::TRIANGLE_FAN`, the triangle-fan primitive; claims that it is 0x0006.
#[verifier::external_body]
pub(crate) fn triangle_fan() -> (r: u32)
    ensures
        r == 0x0006u32,
{
    gl::TRIANGLE_FAN
}

/// Reads `gl::STATIC_DRAW`, the usage hint for data that is written once and drawn many times; claims that it is 0x88E4.
#[verifier::external_body]
pub(crate) fn static_draw() -> (r: u32)
    ensures
        r == 0x88E4u32,
{
    gl::STATIC_DRAW
}

/// Reads `gl::TEXTURE_2D`, the 2D texture target; claims that it is 0x0DE1.
#[verifier::external_body]
pub(crate) fn texture_2d() -> (r: u32)
    ensures
        r == 0x0DE1u32,
{
    gl::TEXTURE_2D
}

/// Reads `gl::UNSIGNED_BYTE`, the 8-bit unsigned sample type; claims that it is 0x1401.
#[verifier::external_body]
pub(crate) fn unsigned_byte() -> (r: u32)
    ensures
        r == 0x1401u32,
{
    gl::UNSIGNED_BYTE
}

/// Reads `gl::UNSIGNED_SHORT`, the 16-bit unsigned index type; claims that it is 0x1403.
#[verifier::external_body]
pub(crate) fn unsigned_short() -> (r: u32)
    ensures
        r == 0x1403u32,
{
    gl::UNSIGNED_SHORT
}

/// Reads `gl::FLOAT`, the 32-bit float component type; claims that it is 0x1406.
#[verifier::external_body]
pub(crate) fn float_component() -> (r: u32)
    ensures
        r == 0x1406u32,
{
    gl::FLOAT
}

/// Reads `gl::TEXTURE_WRAP_S`, the parameter that holds the wrap function along s; claims that it is 0x2802.
#[verifier::external_body]
pub(crate) fn texture_wrap_s() -> (r: u32)
    ensures
        r == 0x2802u32,
{
    gl::TEXTURE_WRAP_S
}

/// Reads `gl::TEXTURE_WRAP_T`, the parameter that holds the wrap function along t; claims that it is 0x2803.
#[verifier::external_body]
pub(crate) fn texture_wrap_t() -> (r: u32)
    ensures
        r == 0x2803u32,
{
    gl::TEXTURE_WRAP_T
}

/// Reads `gl::TEXTURE_MIN_FILTER`, the parameter that holds the minify filter; claims that it is 0x2801.
#[verifier::external_body]
pub(crate) fn texture_min_filter() -> (r: u32)
    ensures
        r == 0x2801u32,
{
    gl::TEXTURE_MIN_FILTER
}

/// Reads `gl::TEXTURE_MAG_FILTER`, the parameter that holds the magnify filter; claims that it is 0x2800.
#[verifier::external_body]
pub(crate) fn texture_mag_filter() -> (r: u32)
    ensures
        r == 0x2800u32,
{
    gl::TEXTURE_MAG_FILTER
}

/// Reads `gl::TRUE`, the status value of a successful build step; claims
/// that it is 1.
#[verifier::external_body]
pub(crate) fn status_true() -> (r: u8)
    ensures
        r == 1u8,
{
    gl::TRUE
}

} // verus!
