//! The small slice of the driver's foreign ABI that this crate speaks of:
//! the shader-stage flag bits and the sizes the struct-layout rules use.
//!
//! The driver's structs are declared in a systems language whose compiler
//! lays them out with its own padding rules.  The sizes and alignments below
//! are fixed by that ABI on every supported target: a four-byte structure
//! type tag, four-byte boolean flags, and a machine-word pointer.

use vstd::prelude::*;

verus! {

/// Bit flags identifying shader stages, stored as a plain 32-bit mask.
pub type VkShaderStageFlagBits = u32;

pub const VK_SHADER_STAGE_VERTEX_BIT: VkShaderStageFlagBits = 0x01;

pub const VK_SHADER_STAGE_TESSELLATION_CONTROL_BIT: VkShaderStageFlagBits = 0x02;

pub const VK_SHADER_STAGE_TESSELLATION_EVALUATION_BIT: VkShaderStageFlagBits = 0x04;

pub const VK_SHADER_STAGE_GEOMETRY_BIT: VkShaderStageFlagBits = 0x08;

pub const VK_SHADER_STAGE_FRAGMENT_BIT: VkShaderStageFlagBits = 0x10;

pub const VK_SHADER_STAGE_COMPUTE_BIT: VkShaderStageFlagBits = 0x20;

/// Size in bytes of the structure-type tag that heads every chainable struct.
pub const STRUCTURE_TYPE_SIZE: usize = 4;

/// Size in bytes of the driver's 32-bit boolean flag type.
pub const BOOL32_SIZE: usize = 4;

/// Alignment in bytes of the driver's 32-bit boolean flag type.
pub const BOOL32_ALIGN: usize = 4;

/// Size in bytes of a pointer on the supported 64-bit targets.
pub const POINTER_SIZE: usize = 8;

/// Alignment in bytes of a pointer on the supported 64-bit targets.
pub const POINTER_ALIGN: usize = 8;

} // verus!
