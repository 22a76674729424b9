//! Wrappers of the native resources and the binding context they act on.

pub mod buffer;
pub mod context;
pub mod native;
pub mod shader;
pub mod texture;
pub mod vertex_array;
