use vstd::prelude::*;

verus! {

/// Number of 32-bit fields in one vertex record.
pub const SIZE_F32: usize = 12;

/// Number of bytes in one encoded vertex record; also the stride between
/// consecutive records in a vertex buffer.
pub const SIZE: usize = 48;

/// Byte offset of the position attribute inside a record.
pub const POSITION_START: usize = 0;

/// Byte offset of the color attribute inside a record.
pub const COLOR_START: usize = 12;

/// Byte offset of the texture-coordinate attribute inside a record.
pub const TEXCOORD_START: usize = 28;

/// Byte offset of the normal attribute inside a record.
pub const NORMAL_START: usize = 36;

} // verus!
