//! How the Vulkan instance is created: the identity of the application, the extensions of the
//! window system, and the validation layer where validation is asked for.

use crate::error::InitError;
use crate::names::{ascii_text_bytes, contains_name, spec_contains_name};
use crate::raw::{ascii_bytes, make_version, spec_make_version};
use vstd::prelude::*;

verus! {

/// Everything an instance is created with. The two names end in a zero byte, as Vulkan reads
/// them; the names of layers and extensions do not.
#[derive(Debug)]
pub struct InstanceConfig {
    pub application_name: Vec<u8>,
    pub application_version: u32,
    pub engine_name: Vec<u8>,
    pub engine_version: u32,
    pub api_version: u32,
    pub layers: Vec<Vec<u8>>,
    pub extensions: Vec<Vec<u8>>,
}

/// Name of the layer that validates the use of the API.
pub open spec fn spec_validation_layer_name() -> Seq<u8> {
    ascii_bytes("VK_LAYER_KHRONOS_validation"@)
}

/// Name of the layer that validates the use of the API.
pub fn validation_layer_name() -> (name: Vec<u8>)
    ensures
        name@ == spec_validation_layer_name(),
{
    proof {
        reveal_strlit("VK_LAYER_KHRONOS_validation");
    }
    ascii_text_bytes("VK_LAYER_KHRONOS_validation")
}

/// The name the application gives itself, with its terminator.
pub open spec fn spec_application_name() -> Seq<u8> {
    ascii_bytes("Vulkan Tutorial"@).push(0)
}

/// The name of the engine, with its terminator.
pub open spec fn spec_engine_name() -> Seq<u8> {
    ascii_bytes("No Engine"@).push(0)
}

/// Version 1.0.0, which stands for the application, the engine and the API alike.
pub open spec fn spec_version_1_0_0() -> u32 {
    spec_make_version(1, 0, 0)
}

/// Validation is asked for and its layer is not among `available_layers`.
pub open spec fn validation_is_missing(available_layers: Seq<Vec<u8>>, validate: bool) -> bool {
    validate && !spec_contains_name(available_layers, spec_validation_layer_name())
}

/// Decides how the instance is created.
///
/// `required_extensions` are the instance extensions of the window system; they are enabled as
/// given. With `validate`, the validation layer is enabled, and must be among
/// `available_layers`; without it, no layer is enabled and `available_layers` is not read.
pub fn instance_config(
    required_extensions: Vec<Vec<u8>>,
    available_layers: &[Vec<u8>],
    validate: bool,
) -> (outcome: Result<InstanceConfig, InitError>)
    ensures
        outcome is Err <==> validation_is_missing(available_layers@, validate),
        outcome matches Err(error) ==> error == InitError::MissingValidationLayer,
        outcome matches Ok(config) ==> {
            &&& config.application_name@ == spec_application_name()
            &&& config.application_version == spec_version_1_0_0()
            &&& config.engine_name@ == spec_engine_name()
            &&& config.engine_version == spec_version_1_0_0()
            &&& config.api_version == spec_version_1_0_0()
            &&& config.extensions == required_extensions
            &&& validate ==> config.layers@.len() == 1 && config.layers@[0]@
                == spec_validation_layer_name()
            &&& !validate ==> config.layers@.len() == 0
        },
{
    let mut layers: Vec<Vec<u8>> = Vec::new();
    if validate {
        let layer = validation_layer_name();
        if !contains_name(available_layers, layer.as_slice()) {
            return Err(InitError::MissingValidationLayer);
        }
        layers.push(layer);
    }
    proof {
        reveal_strlit("Vulkan Tutorial");
        reveal_strlit("No Engine");
    }
    let mut application_name = ascii_text_bytes("Vulkan Tutorial");
    application_name.push(0);
    let mut engine_name = ascii_text_bytes("No Engine");
    engine_name.push(0);
    Ok(
        InstanceConfig {
            application_name,
            application_version: make_version(1, 0, 0),
            engine_name,
            engine_version: make_version(1, 0, 0),
            api_version: make_version(1, 0, 0),
            layers,
            extensions: required_extensions,
        },
    )
}

/// Version 1.0.0 packs to the major part alone: a one above bit 22.
pub proof fn lemma_version_1_0_0()
    ensures
        spec_version_1_0_0() == 0x40_0000,
{
    assert(spec_make_version(1, 0, 0) == 0x40_0000) by (bit_vector);
}

} // verus!
