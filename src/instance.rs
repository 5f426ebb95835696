//! What the instance is created with, and which driver messages the
//! diagnostics messenger asks for.
use vstd::prelude::*;

use crate::native;
use crate::native::packed_version;

verus! {

/// The validation layer the instance enables.
pub open spec fn validation_layer() -> Seq<char> {
    "VK_LAYER_KHRONOS_validation"@
}

/// Application and engine identity, the API version, and the layers and
/// instance extensions to enable.
#[derive(Clone, Debug)]
pub struct InstanceDesc {
    pub application_name: String,
    pub application_version: u32,
    pub engine_name: String,
    pub engine_version: u32,
    pub api_version: u32,
    pub layers: Vec<String>,
    pub extensions: Vec<String>,
}

/// Describes the instance: Vulkan 1.3, the Khronos validation layer, and the
/// debug-utils, surface and Xlib-surface extensions.
pub fn get_instance() -> (r: InstanceDesc)
    ensures
        r.application_name@ == "Second real try"@,
        r.engine_name@ == "There's an engine?"@,
        r.application_version == packed_version(1, 0, 0, 0),
        r.engine_version == packed_version(1, 0, 0, 0),
        r.api_version == packed_version(0, 1, 3, 0),
        r.layers@.len() == 1,
        r.layers@[0]@ == validation_layer(),
        r.extensions@.len() == 3,
        r.extensions@[0]@ == "VK_EXT_debug_utils"@,
        r.extensions@[1]@ == "VK_KHR_surface"@,
        r.extensions@[2]@ == "VK_KHR_xlib_surface"@,
{
    let mut layers: Vec<String> = Vec::new();
    layers.push("VK_LAYER_KHRONOS_validation".to_owned());
    let mut extensions: Vec<String> = Vec::new();
    extensions.push(native::debug_utils_extension_name());
    extensions.push(native::surface_extension_name());
    extensions.push(native::xlib_surface_extension_name());
    InstanceDesc {
        application_name: "Second real try".to_owned(),
        application_version: native::make_api_version(1, 0, 0, 0),
        engine_name: "There's an engine?".to_owned(),
        engine_version: native::make_api_version(1, 0, 0, 0),
        api_version: native::make_api_version(0, 1, 3, 0),
        layers,
        extensions,
    }
}

/// The message severities and kinds the diagnostics messenger receives.
#[derive(Clone, Copy, Debug, PartialEq, Eq, Structural)]
pub struct VulkanDebug {
    pub verbose: bool,
    pub info: bool,
    pub warning: bool,
    pub error: bool,
    pub general: bool,
    pub validation: bool,
    pub performance: bool,
}

/// Describes the messenger: warnings and errors, from validation only.
pub fn get_debug() -> (r: VulkanDebug)
    ensures
        r == (VulkanDebug {
            verbose: false,
            info: false,
            warning: true,
            error: true,
            general: false,
            validation: true,
            performance: false,
        }),
{
    VulkanDebug {
        verbose: false,
        info: false,
        warning: true,
        error: true,
        general: false,
        validation: true,
        performance: false,
    }
}

} // verus!
