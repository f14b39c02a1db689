//! Minimal bootstrap layer for a natively loaded graphics driver.
//!
//! The crate computes the byte offsets shared by the driver's family of
//! chainable structs and models the load / resolve / release lifecycle of
//! the driver's shared library.  The operating-system calls themselves
//! (opening a shared library, resolving a symbol, releasing the handle)
//! live outside this crate; everything here works on the plain values that
//! those calls produce and is verified.

pub mod shader_stage;
pub mod util;
pub mod vk;
pub mod vulkan_funcs;
