//! Instance creation planning.
//!
//! Composes the instance extension list from what the windowing collaborator
//! requires, the debug-utils extension when validation is on, and the
//! portability extensions when the platform workaround applies; validates the
//! requested validation layer against the available layers; and says whether
//! the debug-messenger descriptor is chained onto instance creation.

use vstd::prelude::*;

use crate::errors::BackendError;
use crate::names::contains_name;
use crate::names::copy_name;
use crate::names::copy_names;
use crate::names::name_listed;

verus! {

/// Configuration and platform inputs of instance creation. The names are
/// configuration: the shell supplies them in the native API's spelling.
#[derive(Clone, Debug)]
pub struct InstanceConfig {
    /// Instance extensions the windowing collaborator requires.
    pub window_extensions: Vec<Vec<u8>>,
    /// Whether validation layers and debug messaging are requested.
    pub validation_enabled: bool,
    /// Name of the validation layer to request.
    pub validation_layer: Vec<u8>,
    /// Name of the debug-utils extension, appended when validation is on.
    pub debug_utils_extension: Vec<u8>,
    /// Name of the get-physical-device-properties extension the portability
    /// workaround needs.
    pub properties2_extension: Vec<u8>,
    /// Name of the portability-enumeration extension the workaround needs.
    pub portability_enumeration_extension: Vec<u8>,
    /// The target platform's native API has portability subsetting.
    pub portability_platform: bool,
    /// The version the loader reports.
    pub loaded_api_version: u32,
    /// Least loaded version at which the portability workaround applies.
    pub portability_min_version: u32,
}

impl InstanceConfig {
    /// The portability workaround applies: portability platform, and the
    /// loaded version meets the minimum.
    pub open spec fn portability_applies(self) -> bool {
        self.portability_platform && self.loaded_api_version >= self.portability_min_version
    }
}

/// Decides whether the platform portability workaround applies.
pub fn portability_required(
    portability_platform: bool,
    loaded_api_version: u32,
    portability_min_version: u32,
) -> (r: bool)
    ensures
        r == (portability_platform && loaded_api_version >= portability_min_version),
{
    portability_platform && loaded_api_version >= portability_min_version
}

/// Everything the instance create call is made with, as plain values.
#[derive(Clone, Debug)]
pub struct InstancePlan {
    /// The composed instance extension list, in order: the windowing
    /// collaborator's, then the debug-utils extension when validation is on,
    /// then the two portability extensions when the workaround applies.
    pub extensions: Vec<Vec<u8>>,
    /// The layers to enable: the validation layer when validation is on.
    pub layers: Vec<Vec<u8>>,
    /// Set the portability-enumeration flag on the create call.
    pub enumerate_portability: bool,
    /// Chain a debug-messenger descriptor onto the create call, so
    /// diagnostics are active from instance creation onward.
    pub attach_debug_messenger: bool,
}

/// Derives the instance plan, failing exactly when validation is requested
/// but the validation layer is absent from the available layers.
pub fn plan_instance(
    config: &InstanceConfig,
    available_layers: &Vec<Vec<u8>>,
) -> (r: Result<InstancePlan, BackendError>)
    ensures
        r is Err <==> config.validation_enabled && !name_listed(
            available_layers@,
            config.validation_layer@,
        ),
        r matches Err(e) ==> e == BackendError::ValidationLayerUnavailable,
        r matches Ok(plan) ==> {
            let window_count = config.window_extensions@.len() as int;
            let debug_count = if config.validation_enabled {
                1int
            } else {
                0int
            };
            &&& plan.extensions@.len() == window_count + debug_count + (
            if config.portability_applies() {
                2int
            } else {
                0int
            })
            &&& forall|i: int| 0 <= i < window_count ==> #[trigger] plan.extensions@[i]@
                == config.window_extensions@[i]@
            &&& config.validation_enabled ==> plan.extensions@[window_count]@
                == config.debug_utils_extension@
            &&& config.portability_applies() ==> plan.extensions@[window_count + debug_count]@
                == config.properties2_extension@ && plan.extensions@[window_count + debug_count
                + 1]@ == config.portability_enumeration_extension@
            &&& config.validation_enabled ==> plan.layers@.len() == 1 && plan.layers@[0]@
                == config.validation_layer@
            &&& !config.validation_enabled ==> plan.layers@.len() == 0
            &&& plan.enumerate_portability == config.portability_applies()
            &&& plan.attach_debug_messenger == config.validation_enabled
        },
{
    if config.validation_enabled && !contains_name(available_layers, &config.validation_layer) {
        return Err(BackendError::ValidationLayerUnavailable);
    }

    let portability = portability_required(
        config.portability_platform,
        config.loaded_api_version,
        config.portability_min_version,
    );

    let mut extensions = copy_names(&config.window_extensions);
    if config.validation_enabled {
        extensions.push(copy_name(&config.debug_utils_extension));
    }
    if portability {
        extensions.push(copy_name(&config.properties2_extension));
        extensions.push(copy_name(&config.portability_enumeration_extension));
    }

    let mut layers: Vec<Vec<u8>> = Vec::new();
    if config.validation_enabled {
        layers.push(copy_name(&config.validation_layer));
    }

    Ok(
        InstancePlan {
            extensions,
            layers,
            enumerate_portability: portability,
            attach_debug_messenger: config.validation_enabled,
        },
    )
}

} // verus!
