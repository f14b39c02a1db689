//! The shader stages the driver knows and their bit-flag encoding.

use crate::vk;
use vstd::prelude::*;

verus! {

/// All the possible shader stages.
#[derive(Copy, Clone, Eq, PartialEq, Structural, Debug)]
pub enum Stage {
    Vertex,
    TessCtrl,
    TessEval,
    Geometry,
    Fragment,
    Compute,
}

impl Stage {
    /// The flag bit that stands for this stage in a stage bitmask.
    pub open spec fn spec_flag(self) -> vk::VkShaderStageFlagBits {
        match self {
            Stage::Vertex => vk::VK_SHADER_STAGE_VERTEX_BIT,
            Stage::TessCtrl => vk::VK_SHADER_STAGE_TESSELLATION_CONTROL_BIT,
            Stage::TessEval => vk::VK_SHADER_STAGE_TESSELLATION_EVALUATION_BIT,
            Stage::Geometry => vk::VK_SHADER_STAGE_GEOMETRY_BIT,
            Stage::Fragment => vk::VK_SHADER_STAGE_FRAGMENT_BIT,
            Stage::Compute => vk::VK_SHADER_STAGE_COMPUTE_BIT,
        }
    }

    /// Get the corresponding flag for this stage. This can be used to
    /// store the stages in a bitmask.
    pub fn flag(self) -> (r: vk::VkShaderStageFlagBits)
        ensures
            r == self.spec_flag(),
    {
        match self {
            Stage::Vertex => vk::VK_SHADER_STAGE_VERTEX_BIT,
            Stage::TessCtrl => vk::VK_SHADER_STAGE_TESSELLATION_CONTROL_BIT,
            Stage::TessEval => vk::VK_SHADER_STAGE_TESSELLATION_EVALUATION_BIT,
            Stage::Geometry => vk::VK_SHADER_STAGE_GEOMETRY_BIT,
            Stage::Fragment => vk::VK_SHADER_STAGE_FRAGMENT_BIT,
            Stage::Compute => vk::VK_SHADER_STAGE_COMPUTE_BIT,
        }
    }
}

} // verus!
