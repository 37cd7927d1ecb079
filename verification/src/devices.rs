//! Physical-device suitability and selection, and logical-device planning.
//!
//! A candidate device is reduced to what the suitability predicate and the
//! scoring policy read: its queue-family properties, its reported device
//! extensions, its swapchain support, and one capability metric. The selector
//! scans all candidates, skips the unsuitable ones (recording a reason, never
//! aborting the scan), and picks the suitable device with the greatest
//! metric, keeping the earliest among ties.

use vstd::prelude::*;

use crate::errors::BackendError;
use crate::names::all_names_present;
use crate::names::copy_name;
use crate::names::copy_names;
use crate::names::names_subset;
use crate::queue_family::QueueFamilyIndices;
use crate::queue_family::QueueFamilyProps;
use crate::queue_family::has_graphics_family;
use crate::queue_family::has_present_family;
use crate::swapchain::SwapchainSupport;

verus! {

/// A physical device failed one suitability check; the payload says which
/// requirement was missing.
#[derive(Clone, Copy, Debug)]
pub struct SuitabilityError(pub &'static str);

/// Reason reported when a device lacks a graphics- or present-capable
/// queue family.
pub open spec fn missing_queue_families_msg() -> Seq<char> {
    "Missing required queue families."@
}

/// Reason reported when a device's extension list does not contain every
/// required device extension.
pub open spec fn missing_device_extensions_msg() -> Seq<char> {
    "Missing required device extensions."@
}

/// Reason reported when a device offers no surface format or no present mode.
pub open spec fn insufficient_swapchain_support_msg() -> Seq<char> {
    "Insufficient swapchain support."@
}

/// What the capability queries report of one physical device, reduced to the
/// facts selection reads.
#[derive(Clone, Debug)]
pub struct PhysicalDeviceInfo {
    /// Properties of the device's queue families, in family-index order.
    pub queue_families: Vec<QueueFamilyProps>,
    /// The device extensions the device reports.
    pub extensions: Vec<Vec<u8>>,
    /// Aggregated swapchain support against the surface under negotiation.
    pub support: SwapchainSupport,
    /// The scoring metric: the device's greatest compute shared-memory size.
    pub max_compute_shared_memory_size: u32,
}

/// The suitability predicate: queue-family resolution succeeds, every
/// required extension is reported, and swapchain support is non-empty.
pub open spec fn suitable(dev: PhysicalDeviceInfo, required: Seq<Vec<u8>>) -> bool {
    &&& has_graphics_family(dev.queue_families@)
    &&& has_present_family(dev.queue_families@)
    &&& names_subset(required, dev.extensions@)
    &&& dev.support.usable()
}

/// Evaluates the suitability predicate on one device; on failure the error
/// names the first check that failed, in the order queue families, device
/// extensions, swapchain support.
pub fn check_physical_device(
    dev: &PhysicalDeviceInfo,
    required_extensions: &Vec<Vec<u8>>,
) -> (r: Result<(), SuitabilityError>)
    requires
        dev.queue_families@.len() <= u32::MAX,
    ensures
        r is Ok <==> suitable(*dev, required_extensions@),
        r matches Err(e) ==> {
            let families_ok = has_graphics_family(dev.queue_families@) && has_present_family(
                dev.queue_families@,
            );
            let extensions_ok = names_subset(required_extensions@, dev.extensions@);
            &&& !families_ok ==> e.0@ == missing_queue_families_msg()
            &&& families_ok && !extensions_ok ==> e.0@ == missing_device_extensions_msg()
            &&& families_ok && extensions_ok ==> e.0@ == insufficient_swapchain_support_msg()
        },
{
    match QueueFamilyIndices::get(&dev.queue_families) {
        Ok(_) => {},
        Err(e) => {
            return Err(e);
        },
    }
    if !all_names_present(required_extensions, &dev.extensions) {
        return Err(SuitabilityError("Missing required device extensions."));
    }
    if dev.support.formats.len() == 0 || dev.support.present_modes.len() == 0 {
        return Err(SuitabilityError("Insufficient swapchain support."));
    }
    Ok(())
}

/// Enumerates the candidate devices and selects the suitable one with the
/// greatest shared-memory metric, keeping the earliest among ties; devices
/// failing the suitability predicate are skipped without aborting the scan.
/// Fails only when no candidate is suitable.
pub fn pick_physical_device(
    devices: &Vec<PhysicalDeviceInfo>,
    required_extensions: &Vec<Vec<u8>>,
) -> (r: Result<usize, BackendError>)
    requires
        forall|i: int| 0 <= i < devices@.len() ==> (#[trigger] devices@[i]).queue_families@.len()
            <= u32::MAX,
    ensures
        r is Ok <==> exists|i: int|
            0 <= i < devices@.len() && suitable(#[trigger] devices@[i], required_extensions@),
        r matches Ok(best) ==> {
            &&& 0 <= best < devices@.len()
            &&& suitable(devices@[best as int], required_extensions@)
            &&& forall|j: int|
                0 <= j < devices@.len() && suitable(
                    #[trigger] devices@[j],
                    required_extensions@,
                ) ==> devices@[j].max_compute_shared_memory_size <= devices@[
                    best as int
                ].max_compute_shared_memory_size
            &&& forall|j: int|
                0 <= j < best && suitable(#[trigger] devices@[j], required_extensions@)
                    ==> devices@[j].max_compute_shared_memory_size < devices@[
                    best as int
                ].max_compute_shared_memory_size
        },
        r matches Err(e) ==> e == BackendError::NoSuitableDevice,
{
    let mut best: Option<usize> = None;
    let mut i: usize = 0;
    while i < devices.len()
        invariant
            i <= devices@.len(),
            forall|k: int| 0 <= k < devices@.len() ==> (
            #[trigger] devices@[k]).queue_families@.len() <= u32::MAX,
            best is None ==> forall|j: int|
                0 <= j < i ==> !suitable(#[trigger] devices@[j], required_extensions@),
            best matches Some(b) ==> {
                &&& 0 <= b < i
                &&& suitable(devices@[b as int], required_extensions@)
                &&& forall|j: int|
                    0 <= j < i && suitable(#[trigger] devices@[j], required_extensions@)
                        ==> devices@[j].max_compute_shared_memory_size <= devices@[
                        b as int
                    ].max_compute_shared_memory_size
                &&& forall|j: int|
                    0 <= j < b && suitable(#[trigger] devices@[j], required_extensions@)
                        ==> devices@[j].max_compute_shared_memory_size < devices@[
                        b as int
                    ].max_compute_shared_memory_size
            },
        decreases devices@.len() - i,
    {
        let candidate_suitable = match check_physical_device(&devices[i], required_extensions) {
            Ok(()) => true,
            Err(_) => false,
        };
        if candidate_suitable {
            best = match best {
                None => Some(i),
                Some(b) => {
                    if devices[b].max_compute_shared_memory_size
                        < devices[i].max_compute_shared_memory_size {
                        Some(i)
                    } else {
                        Some(b)
                    }
                },
            };
        }
        i = i + 1;
    }
    match best {
        Some(b) => Ok(b),
        None => Err(BackendError::NoSuitableDevice),
    }
}

/// A device without a graphics-capable queue family fails the suitability
/// predicate, and its rejection never aborts selection: whenever any device
/// of the enumeration is suitable, a suitable one exists for the selector to
/// return.
pub proof fn lemma_unsuitable_device_skipped(
    devices: Seq<PhysicalDeviceInfo>,
    required: Seq<Vec<u8>>,
    bad: int,
    good: int,
)
    requires
        0 <= bad < devices.len(),
        !has_graphics_family(devices[bad].queue_families@),
        0 <= good < devices.len(),
        suitable(devices[good], required),
    ensures
        !suitable(devices[bad], required),
        exists|i: int| 0 <= i < devices.len() && suitable(#[trigger] devices[i], required),
{
}

/// A device whose reported present-mode list is empty fails the suitability
/// predicate, whatever the rest of it reports.
pub proof fn lemma_empty_present_modes_rejected(dev: PhysicalDeviceInfo, required: Seq<Vec<u8>>)
    requires
        dev.support.present_modes@.len() == 0,
    ensures
        !suitable(dev, required),
{
}

/// One queue-create descriptor of the logical-device plan: one queue of the
/// named family. The builder fixes the queue priority.
#[derive(Clone, Copy, Debug, PartialEq, Eq, Structural)]
pub struct QueueCreateDesc {
    pub queue_family_index: u32,
    pub queue_count: u32,
}

/// The de-duplicated queue family indices the logical device is created
/// with: the graphics index, then the present index when it differs.
pub fn unique_queue_families(indices: &QueueFamilyIndices) -> (r: Vec<u32>)
    ensures
        indices.graphics == indices.present ==> r@ == seq![indices.graphics],
        indices.graphics != indices.present ==> r@ == seq![indices.graphics, indices.present],
{
    let mut unique: Vec<u32> = Vec::new();
    unique.push(indices.graphics);
    if indices.present != indices.graphics {
        unique.push(indices.present);
        proof {
            assert(unique@ =~= seq![indices.graphics, indices.present]);
        }
    } else {
        proof {
            assert(unique@ =~= seq![indices.graphics]);
        }
    }
    unique
}

/// Everything the logical-device create call is made with, as plain values.
#[derive(Clone, Debug)]
pub struct DevicePlan {
    /// One descriptor per unique resolved queue family.
    pub queue_create: Vec<QueueCreateDesc>,
    /// The layers to enable: the validation layer when validation is on.
    pub layers: Vec<Vec<u8>>,
    /// The device extensions to enable: the required set, plus the
    /// portability-subset extension when the portability workaround applies.
    pub extensions: Vec<Vec<u8>>,
    /// Family index the graphics queue handle is fetched from (queue 0).
    pub graphics_queue_family: u32,
    /// Family index the present queue handle is fetched from (queue 0).
    pub present_queue_family: u32,
}

/// Derives the logical-device plan from the resolved queue families and the
/// configuration: de-duplicated single-queue create descriptors, the
/// validation layer when validation is on, and the required device extensions
/// with the portability-subset extension appended when the portability
/// workaround applies. The device requests a default feature set.
pub fn plan_logical_device(
    indices: &QueueFamilyIndices,
    validation_enabled: bool,
    validation_layer: &Vec<u8>,
    required_extensions: &Vec<Vec<u8>>,
    portability: bool,
    portability_subset_extension: &Vec<u8>,
) -> (r: DevicePlan)
    ensures
        indices.graphics == indices.present ==> r.queue_create@ == seq![
            QueueCreateDesc { queue_family_index: indices.graphics, queue_count: 1 },
        ],
        indices.graphics != indices.present ==> r.queue_create@ == seq![
            QueueCreateDesc { queue_family_index: indices.graphics, queue_count: 1 },
            QueueCreateDesc { queue_family_index: indices.present, queue_count: 1 },
        ],
        validation_enabled ==> r.layers@.len() == 1 && r.layers@[0]@ == validation_layer@,
        !validation_enabled ==> r.layers@.len() == 0,
        r.extensions@.len() == required_extensions@.len() + (if portability {
            1int
        } else {
            0int
        }),
        forall|i: int| 0 <= i < required_extensions@.len() ==> #[trigger] r.extensions@[i]@
            == required_extensions@[i]@,
        portability ==> r.extensions@[required_extensions@.len() as int]@
            == portability_subset_extension@,
        r.graphics_queue_family == indices.graphics,
        r.present_queue_family == indices.present,
{
    let families = unique_queue_families(indices);
    let mut queue_create: Vec<QueueCreateDesc> = Vec::new();
    let mut i: usize = 0;
    while i < families.len()
        invariant
            i <= families@.len(),
            queue_create@.len() == i,
            forall|j: int| 0 <= j < i ==> #[trigger] queue_create@[j] == (QueueCreateDesc {
                queue_family_index: families@[j],
                queue_count: 1,
            }),
        decreases families@.len() - i,
    {
        queue_create.push(QueueCreateDesc { queue_family_index: families[i], queue_count: 1 });
        i = i + 1;
    }
    proof {
        if indices.graphics == indices.present {
            assert(queue_create@ =~= seq![
                QueueCreateDesc { queue_family_index: indices.graphics, queue_count: 1 },
            ]);
        } else {
            assert(queue_create@ =~= seq![
                QueueCreateDesc { queue_family_index: indices.graphics, queue_count: 1 },
                QueueCreateDesc { queue_family_index: indices.present, queue_count: 1 },
            ]);
        }
    }

    let mut layers: Vec<Vec<u8>> = Vec::new();
    if validation_enabled {
        layers.push(copy_name(validation_layer));
    }

    let mut extensions = copy_names(required_extensions);
    if portability {
        extensions.push(copy_name(portability_subset_extension));
    }

    DevicePlan {
        queue_create,
        layers,
        extensions,
        graphics_queue_family: indices.graphics,
        present_queue_family: indices.present,
    }
}

} // verus!
