//! A small real-time rendering toolkit built around one idea: every change
//! to the state of the native graphics API goes through a scoped binding
//! guard, and the state itself is an explicit value, the binding context.
//!
//! The library never talks to the native API. Its wrappers record the calls
//! they amount to in a [`gfx::context::Context`]; the program around the
//! library carries the recorded calls out and hands back what the native
//! API reports (fresh handles, build statuses, info logs).
//!
//! Floating-point data (vertex fields, matrices, placements) is held as the
//! IEEE-754 bit patterns of 32-bit floats.

pub mod gfx;
pub mod input;
pub mod mesh;
pub mod projection;
pub mod transform;
pub mod vertex;
