//! Swapchain support aggregation and parameter negotiation.
//!
//! The support descriptor gathers what the capability queries report of a
//! device/surface pair. The negotiation functions then derive the surface
//! format, present mode, extent, image count and image-sharing mode the
//! swapchain is created with. All of them are deterministic and total on the
//! inputs the suitability check admits.

use vstd::prelude::*;

use crate::queue_family::QueueFamilyIndices;

verus! {

/// Surface-format code of the preferred 8-bit BGRA sRGB format, in the native
/// API's encoding.
pub const FORMAT_B8G8R8A8_SRGB: u32 = 50;

/// Color-space code of the preferred sRGB non-linear color space, in the
/// native API's encoding.
pub const COLOR_SPACE_SRGB_NONLINEAR: u32 = 0;

/// Width/height value by which a surface reports an undefined current extent.
pub const UNDEFINED_EXTENT: u32 = 0xFFFF_FFFF;

/// A pixel extent.
#[derive(Clone, Copy, Debug, PartialEq, Eq, Structural)]
pub struct Extent2D {
    pub width: u32,
    pub height: u32,
}

/// A supported surface format: a pixel-format code paired with a color-space
/// code, both in the native API's encoding.
#[derive(Clone, Copy, Debug, PartialEq, Eq, Structural)]
pub struct SurfaceFormat {
    pub format: u32,
    pub color_space: u32,
}

/// A presentation mode the surface supports.
#[derive(Clone, Copy, Debug, PartialEq, Eq, Structural)]
pub enum PresentMode {
    Immediate,
    /// The preferred low-latency mode.
    Mailbox,
    /// The mode every conforming implementation supports.
    Fifo,
    FifoRelaxed,
}

/// How the swapchain images are shared between queue families.
#[derive(Clone, Copy, Debug, PartialEq, Eq, Structural)]
pub enum SharingMode {
    Exclusive,
    Concurrent,
}

/// The surface capabilities the negotiation reads.
#[derive(Clone, Copy, Debug)]
pub struct SurfaceCapabilities {
    /// Least image count the surface supports; at least 1.
    pub min_image_count: u32,
    /// Greatest image count the surface supports; 0 means unbounded.
    pub max_image_count: u32,
    /// Current extent; a width of `UNDEFINED_EXTENT` marks it undefined.
    pub current_extent: Extent2D,
    pub min_image_extent: Extent2D,
    pub max_image_extent: Extent2D,
    /// Current transform, passed through to the swapchain unchanged.
    pub current_transform: u32,
}

impl SurfaceCapabilities {
    /// What a conforming surface reports: a usable image-count range and
    /// ordered extent bounds.
    pub open spec fn wf(self) -> bool {
        &&& 1 <= self.min_image_count < 0xFFFF_FFFFu32
        &&& self.max_image_count != 0 ==> self.min_image_count <= self.max_image_count
        &&& self.min_image_extent.width <= self.max_image_extent.width
        &&& self.min_image_extent.height <= self.max_image_extent.height
    }
}

/// Aggregated swapchain support of one device/surface pair.
#[derive(Clone, Debug)]
pub struct SwapchainSupport {
    pub capabilities: SurfaceCapabilities,
    pub formats: Vec<SurfaceFormat>,
    pub present_modes: Vec<PresentMode>,
}

impl SwapchainSupport {
    /// A device is usable only if both lists are non-empty.
    pub open spec fn usable(self) -> bool {
        self.formats@.len() > 0 && self.present_modes@.len() > 0
    }

    /// Pure aggregation of the three capability queries; no filtering happens
    /// here — empty-list checks are the device selector's.
    pub fn get(
        capabilities: SurfaceCapabilities,
        formats: Vec<SurfaceFormat>,
        present_modes: Vec<PresentMode>,
    ) -> (r: SwapchainSupport)
        ensures
            r.capabilities == capabilities,
            r.formats@ == formats@,
            r.present_modes@ == present_modes@,
    {
        SwapchainSupport { capabilities, formats, present_modes }
    }
}

/// The preferred format/color-space pair.
pub open spec fn is_preferred_format(f: SurfaceFormat) -> bool {
    f.format == FORMAT_B8G8R8A8_SRGB && f.color_space == COLOR_SPACE_SRGB_NONLINEAR
}

/// Index of the first preferred entry at or after `i`, or -1 when none
/// follows.
pub open spec fn first_preferred_from(formats: Seq<SurfaceFormat>, i: int) -> int
    decreases formats.len() - i when 0 <= i <= formats.len()
{
    if i >= formats.len() {
        -1
    } else if is_preferred_format(formats[i]) {
        i
    } else {
        first_preferred_from(formats, i + 1)
    }
}

/// The format the negotiation chooses from a non-empty supported list: the
/// first preferred entry, or the first entry when no preferred one occurs.
pub open spec fn chosen_format(formats: Seq<SurfaceFormat>) -> SurfaceFormat {
    if first_preferred_from(formats, 0) >= 0 {
        formats[first_preferred_from(formats, 0)]
    } else {
        formats[0]
    }
}

/// Picks the surface format: an exact match of the preferred format and
/// color space when supported, otherwise the first supported entry.
pub fn choose_surface_format(formats: &Vec<SurfaceFormat>) -> (r: SurfaceFormat)
    requires
        formats@.len() > 0,
    ensures
        r == chosen_format(formats@),
{
    let mut i: usize = 0;
    while i < formats.len()
        invariant
            i <= formats@.len(),
            first_preferred_from(formats@, 0) == first_preferred_from(formats@, i as int),
        decreases formats@.len() - i,
    {
        if formats[i].format == FORMAT_B8G8R8A8_SRGB
            && formats[i].color_space == COLOR_SPACE_SRGB_NONLINEAR {
            return formats[i];
        }
        i = i + 1;
    }
    formats[0]
}

/// Format selection is deterministic: two selections over the same
/// supported-format list resolve to the same format.
pub proof fn lemma_format_selection_deterministic(
    formats: Seq<SurfaceFormat>,
    r1: SurfaceFormat,
    r2: SurfaceFormat,
)
    requires
        formats.len() > 0,
        r1 == chosen_format(formats),
        r2 == chosen_format(formats),
    ensures
        r1 == r2,
{
}

/// `m` occurs in the supported present-mode list.
pub open spec fn mode_listed(modes: Seq<PresentMode>, m: PresentMode) -> bool {
    exists|i: int| 0 <= i < modes.len() && modes[i] == m
}

/// The present mode the negotiation chooses: the low-latency mailbox mode
/// when listed, otherwise the guaranteed-available FIFO mode.
pub open spec fn chosen_present_mode(modes: Seq<PresentMode>) -> PresentMode {
    if mode_listed(modes, PresentMode::Mailbox) {
        PresentMode::Mailbox
    } else {
        PresentMode::Fifo
    }
}

/// Picks the present mode; total even on an empty list, where it falls back
/// to the guaranteed-available mode.
pub fn choose_present_mode(modes: &Vec<PresentMode>) -> (r: PresentMode)
    ensures
        r == chosen_present_mode(modes@),
{
    let mut i: usize = 0;
    while i < modes.len()
        invariant
            i <= modes@.len(),
            forall|j: int| 0 <= j < i ==> modes@[j] != PresentMode::Mailbox,
        decreases modes@.len() - i,
    {
        if modes[i] == PresentMode::Mailbox {
            return PresentMode::Mailbox;
        }
        i = i + 1;
    }
    PresentMode::Fifo
}

/// `x` clamped into `[lo, hi]`.
pub open spec fn clamped(x: u32, lo: u32, hi: u32) -> u32 {
    if x < lo {
        lo
    } else if x > hi {
        hi
    } else {
        x
    }
}

/// The extent the negotiation chooses: the surface's current extent when
/// defined, otherwise the window's framebuffer size clamped per axis into the
/// surface's extent bounds.
pub open spec fn chosen_extent(caps: SurfaceCapabilities, window: Extent2D) -> Extent2D {
    if caps.current_extent.width != UNDEFINED_EXTENT {
        caps.current_extent
    } else {
        Extent2D {
            width: clamped(window.width, caps.min_image_extent.width, caps.max_image_extent.width),
            height: clamped(
                window.height,
                caps.min_image_extent.height,
                caps.max_image_extent.height,
            ),
        }
    }
}

fn clamp_axis(x: u32, lo: u32, hi: u32) -> (r: u32)
    requires
        lo <= hi,
    ensures
        r == clamped(x, lo, hi),
{
    if x < lo {
        lo
    } else if x > hi {
        hi
    } else {
        x
    }
}

/// Picks the swapchain extent from the capabilities and the window's current
/// framebuffer size.
pub fn choose_extent(caps: &SurfaceCapabilities, window: Extent2D) -> (r: Extent2D)
    requires
        caps.wf(),
    ensures
        r == chosen_extent(*caps, window),
{
    if caps.current_extent.width != UNDEFINED_EXTENT {
        caps.current_extent
    } else {
        Extent2D {
            width: clamp_axis(
                window.width,
                caps.min_image_extent.width,
                caps.max_image_extent.width,
            ),
            height: clamp_axis(
                window.height,
                caps.min_image_extent.height,
                caps.max_image_extent.height,
            ),
        }
    }
}

/// The image count the negotiation requests: one above the minimum, clamped
/// to the maximum when that bound is nonzero.
pub open spec fn chosen_image_count(caps: SurfaceCapabilities) -> u32 {
    if caps.max_image_count != 0 && caps.min_image_count + 1 > caps.max_image_count {
        caps.max_image_count
    } else {
        (caps.min_image_count + 1) as u32
    }
}

/// Picks the number of swapchain images to request.
pub fn choose_image_count(caps: &SurfaceCapabilities) -> (r: u32)
    requires
        caps.wf(),
    ensures
        r == chosen_image_count(*caps),
{
    let desired = caps.min_image_count + 1;
    if caps.max_image_count != 0 && desired > caps.max_image_count {
        caps.max_image_count
    } else {
        desired
    }
}

/// The negotiated image-sharing arrangement.
#[derive(Clone, Debug)]
pub struct ImageSharing {
    pub mode: SharingMode,
    /// The queue families the images are shared between: both resolved
    /// indices under concurrent sharing, none under exclusive sharing.
    pub queue_family_indices: Vec<u32>,
}

/// Picks the image-sharing mode: concurrent sharing listing both resolved
/// indices when graphics and present families differ, exclusive sharing with
/// an empty index list when they coincide.
pub fn choose_sharing_mode(indices: &QueueFamilyIndices) -> (r: ImageSharing)
    ensures
        indices.graphics != indices.present ==> r.mode == SharingMode::Concurrent
            && r.queue_family_indices@ == seq![indices.graphics, indices.present],
        indices.graphics == indices.present ==> r.mode == SharingMode::Exclusive
            && r.queue_family_indices@ == Seq::<u32>::empty(),
{
    if indices.graphics != indices.present {
        let mut shared: Vec<u32> = Vec::new();
        shared.push(indices.graphics);
        shared.push(indices.present);
        proof {
            assert(shared@ =~= seq![indices.graphics, indices.present]);
        }
        ImageSharing { mode: SharingMode::Concurrent, queue_family_indices: shared }
    } else {
        let none: Vec<u32> = Vec::new();
        proof {
            assert(none@ =~= Seq::<u32>::empty());
        }
        ImageSharing { mode: SharingMode::Exclusive, queue_family_indices: none }
    }
}

/// Everything the swapchain create call is made with, as plain values.
#[derive(Clone, Debug)]
pub struct SwapchainPlan {
    pub min_image_count: u32,
    pub format: u32,
    pub color_space: u32,
    pub extent: Extent2D,
    /// Always 1.
    pub image_array_layers: u32,
    /// Always color-attachment usage.
    pub usage_color_attachment: bool,
    pub sharing: ImageSharing,
    /// The surface's current transform, passed through.
    pub pre_transform: u32,
    /// Always opaque composite alpha.
    pub composite_alpha_opaque: bool,
    pub present_mode: PresentMode,
    /// Always clipped.
    pub clipped: bool,
    /// Never created from a previous swapchain.
    pub has_old_swapchain: bool,
}

/// Derives the full negotiated parameter set for the swapchain create call.
pub fn plan_swapchain(
    support: &SwapchainSupport,
    indices: &QueueFamilyIndices,
    window: Extent2D,
) -> (r: SwapchainPlan)
    requires
        support.capabilities.wf(),
        support.usable(),
    ensures
        r.min_image_count == chosen_image_count(support.capabilities),
        r.format == chosen_format(support.formats@).format,
        r.color_space == chosen_format(support.formats@).color_space,
        r.extent == chosen_extent(support.capabilities, window),
        r.image_array_layers == 1,
        r.usage_color_attachment,
        indices.graphics != indices.present ==> r.sharing.mode == SharingMode::Concurrent
            && r.sharing.queue_family_indices@ == seq![indices.graphics, indices.present],
        indices.graphics == indices.present ==> r.sharing.mode == SharingMode::Exclusive
            && r.sharing.queue_family_indices@ == Seq::<u32>::empty(),
        r.pre_transform == support.capabilities.current_transform,
        r.composite_alpha_opaque,
        r.present_mode == chosen_present_mode(support.present_modes@),
        r.clipped,
        !r.has_old_swapchain,
{
    let surface_format = choose_surface_format(&support.formats);
    SwapchainPlan {
        min_image_count: choose_image_count(&support.capabilities),
        format: surface_format.format,
        color_space: surface_format.color_space,
        extent: choose_extent(&support.capabilities, window),
        image_array_layers: 1,
        usage_color_attachment: true,
        sharing: choose_sharing_mode(indices),
        pre_transform: support.capabilities.current_transform,
        composite_alpha_opaque: true,
        present_mode: choose_present_mode(&support.present_modes),
        clipped: true,
        has_old_swapchain: false,
    }
}

/// One image view to create: the swapchain image it views and the negotiated
/// format. The builder fixes identity component mapping, a single mip level
/// and a single array layer.
#[derive(Clone, Copy, Debug, PartialEq, Eq, Structural)]
pub struct ImageViewPlan {
    pub image: u64,
    pub format: u32,
}

/// Plans one image view per swapchain image, each with the negotiated format.
pub fn image_view_plans(images: &Vec<u64>, format: u32) -> (r: Vec<ImageViewPlan>)
    ensures
        r@.len() == images@.len(),
        forall|i: int| 0 <= i < r@.len() ==> r@[i].image == images@[i] && r@[i].format == format,
{
    let mut plans: Vec<ImageViewPlan> = Vec::new();
    let mut i: usize = 0;
    while i < images.len()
        invariant
            i <= images@.len(),
            plans@.len() == i,
            forall|j: int| 0 <= j < i ==> plans@[j].image == images@[j] && plans@[j].format
                == format,
        decreases images@.len() - i,
    {
        plans.push(ImageViewPlan { image: images[i], format });
        i = i + 1;
    }
    plans
}

} // verus!
