//! Swapchain selection policy.
//!
//! Everything chosen here is deterministic: format, present mode, extent,
//! image count and sharing mode each follow one fixed rule on the platform's
//! reported support, with no heuristics beyond those rules.  The plan is a
//! plain value the caller hands to the platform when creating the chain.

use vstd::prelude::*;

use crate::instance::{spec_is_complete, QueueFamilyIndices};

verus! {

/// Pixel format id: 8-bit BGRA with sRGB encoding.
pub const FORMAT_B8G8R8A8_SRGB: u32 = 50;

/// Color space id: the standard non-linear sRGB color space.
pub const COLOR_SPACE_SRGB_NONLINEAR: u32 = 0;

/// Present mode id: low-latency triple buffering.
pub const PRESENT_MODE_MAILBOX: u32 = 1;

/// Present mode id: the universally supported vsync queue.
pub const PRESENT_MODE_FIFO: u32 = 2;

/// Sentinel extent component: the platform leaves the extent to the window.
pub const UNDEFINED_EXTENT: u32 = 0xffff_ffff;

/// A (pixel format, color space) pair the surface offers.
#[derive(Clone, Copy, Debug, PartialEq, Eq, Structural)]
pub struct SurfaceFormat {
    /// Pixel format id.
    pub format: u32,
    /// Color space id.
    pub color_space: u32,
}

/// A width/height pair in pixels.
#[derive(Clone, Copy, Debug, PartialEq, Eq, Structural)]
pub struct Extent2d {
    /// Width in pixels.
    pub width: u32,
    /// Height in pixels.
    pub height: u32,
}

/// The surface capabilities the platform reports.
#[derive(Clone, Copy, Debug, PartialEq, Eq, Structural)]
pub struct SurfaceCapabilities {
    /// Fewest images the chain may hold.
    pub min_image_count: u32,
    /// Most images the chain may hold; zero means no limit.
    pub max_image_count: u32,
    /// The extent the surface currently has, or the undefined sentinel.
    pub current_extent: Extent2d,
    /// Smallest extent the chain may use.
    pub min_image_extent: Extent2d,
    /// Largest extent the chain may use.
    pub max_image_extent: Extent2d,
}

/// Everything the surface reports that the plan depends on.
#[derive(Clone, Debug, PartialEq, Eq)]
pub struct SwapchainSupportDetails {
    /// The surface capabilities.
    pub capabilities: SurfaceCapabilities,
    /// The offered (format, color space) pairs, in platform order.
    pub formats: Vec<SurfaceFormat>,
    /// The offered present mode ids, in platform order.
    pub present_modes: Vec<u32>,
}

/// The capabilities are consistent, as the platform guarantees: extent
/// bounds are ordered, a defined current extent lies within them, and a
/// nonzero image-count maximum is at least the minimum.
pub open spec fn spec_capabilities_wf(caps: SurfaceCapabilities) -> bool {
    &&& caps.min_image_extent.width <= caps.max_image_extent.width
    &&& caps.min_image_extent.height <= caps.max_image_extent.height
    &&& (caps.current_extent.width != UNDEFINED_EXTENT ==> {
        &&& caps.min_image_extent.width <= caps.current_extent.width
            <= caps.max_image_extent.width
        &&& caps.min_image_extent.height <= caps.current_extent.height
            <= caps.max_image_extent.height
    })
    &&& (caps.max_image_count != 0 ==> caps.min_image_count <= caps.max_image_count)
}

/// The preferred pair: 8-bit BGRA sRGB with the standard non-linear space.
pub open spec fn spec_format_preferred(f: SurfaceFormat) -> bool {
    f.format == FORMAT_B8G8R8A8_SRGB && f.color_space == COLOR_SPACE_SRGB_NONLINEAR
}

/// The first preferred pair at or after position `i`, else the list head.
pub open spec fn spec_choose_format_from(formats: Seq<SurfaceFormat>, i: int) -> SurfaceFormat
    decreases formats.len() - i,
{
    if i < 0 || i >= formats.len() {
        formats[0]
    } else if spec_format_preferred(formats[i]) {
        formats[i]
    } else {
        spec_choose_format_from(formats, i + 1)
    }
}

/// The chosen surface format: the first preferred pair, else the first
/// offered pair.
pub open spec fn spec_choose_format(formats: Seq<SurfaceFormat>) -> SurfaceFormat {
    spec_choose_format_from(formats, 0)
}

/// The chosen present mode: mailbox when offered, else the FIFO fallback.
pub open spec fn spec_choose_present_mode(modes: Seq<u32>) -> u32 {
    if modes.contains(PRESENT_MODE_MAILBOX) {
        PRESENT_MODE_MAILBOX
    } else {
        PRESENT_MODE_FIFO
    }
}

/// `x` clamped into `[lo, hi]`.
pub open spec fn spec_clamp(x: u32, lo: u32, hi: u32) -> u32 {
    if x < lo {
        lo
    } else if x > hi {
        hi
    } else {
        x
    }
}

/// The chosen extent: the platform's current extent verbatim when defined,
/// else the window's pixel size clamped into the supported range.
pub open spec fn spec_choose_extent(
    caps: SurfaceCapabilities,
    window_width: u32,
    window_height: u32,
) -> Extent2d {
    if caps.current_extent.width != UNDEFINED_EXTENT {
        caps.current_extent
    } else {
        Extent2d {
            width: spec_clamp(
                window_width,
                caps.min_image_extent.width,
                caps.max_image_extent.width,
            ),
            height: spec_clamp(
                window_height,
                caps.min_image_extent.height,
                caps.max_image_extent.height,
            ),
        }
    }
}

/// The chosen image count: one more than the minimum, clamped down to the
/// maximum when the platform declares one.
pub open spec fn spec_choose_image_count(caps: SurfaceCapabilities) -> u32 {
    let desired = caps.min_image_count + 1;
    if caps.max_image_count != 0 && desired > caps.max_image_count {
        caps.max_image_count
    } else {
        desired as u32
    }
}

/// How the chain's images are shared between queue families.
#[derive(Clone, Copy, Debug, PartialEq, Eq, Structural)]
pub enum SharingMode {
    /// One family owns the images at a time.
    Exclusive,
    /// The listed families may access the images concurrently.
    Concurrent,
}

/// Finds the first preferred format, else returns the first offered pair;
/// never an error on a non-empty list.
pub fn choose_swap_surface_format(formats: &Vec<SurfaceFormat>) -> (r: SurfaceFormat)
    requires
        formats@.len() > 0,
    ensures
        r == spec_choose_format(formats@),
{
    let mut i: usize = 0;
    while i < formats.len()
        invariant
            formats@.len() > 0,
            i <= formats@.len(),
            spec_choose_format_from(formats@, i as int) == spec_choose_format(formats@),
        decreases formats@.len() - i,
    {
        let f = formats[i];
        if f.format == FORMAT_B8G8R8A8_SRGB && f.color_space == COLOR_SPACE_SRGB_NONLINEAR {
            return f;
        }
        i += 1;
    }
    formats[0]
}

/// Chooses mailbox when the platform offers it, else FIFO.
pub fn choose_swap_present_mode(modes: &Vec<u32>) -> (r: u32)
    ensures
        r == spec_choose_present_mode(modes@),
{
    let mut i: usize = 0;
    while i < modes.len()
        invariant
            i <= modes@.len(),
            forall|j: int| 0 <= j < i ==> modes@[j] != PRESENT_MODE_MAILBOX,
        decreases modes@.len() - i,
    {
        if modes[i] == PRESENT_MODE_MAILBOX {
            assert(modes@.contains(PRESENT_MODE_MAILBOX));
            return PRESENT_MODE_MAILBOX;
        }
        i += 1;
    }
    assert(!modes@.contains(PRESENT_MODE_MAILBOX));
    PRESENT_MODE_FIFO
}

/// `x` clamped into `[lo, hi]`.
pub fn clamp_u32(x: u32, lo: u32, hi: u32) -> (r: u32)
    requires
        lo <= hi,
    ensures
        r == spec_clamp(x, lo, hi),
        lo <= r <= hi,
{
    if x < lo {
        lo
    } else if x > hi {
        hi
    } else {
        x
    }
}

/// Takes the platform's current extent verbatim when it is defined, else
/// derives the extent from the window's pixel size clamped into range.
pub fn choose_swap_extent(
    caps: &SurfaceCapabilities,
    window_width: u32,
    window_height: u32,
) -> (r: Extent2d)
    requires
        spec_capabilities_wf(*caps),
    ensures
        r == spec_choose_extent(*caps, window_width, window_height),
{
    if caps.current_extent.width != UNDEFINED_EXTENT {
        caps.current_extent
    } else {
        Extent2d {
            width: clamp_u32(
                window_width,
                caps.min_image_extent.width,
                caps.max_image_extent.width,
            ),
            height: clamp_u32(
                window_height,
                caps.min_image_extent.height,
                caps.max_image_extent.height,
            ),
        }
    }
}

/// Chooses `min_image_count + 1`, clamped down to the platform maximum when
/// one is declared.
pub fn choose_image_count(caps: &SurfaceCapabilities) -> (r: u32)
    requires
        caps.min_image_count < u32::MAX,
    ensures
        r == spec_choose_image_count(*caps),
{
    let desired = caps.min_image_count + 1;
    if caps.max_image_count != 0 && desired > caps.max_image_count {
        caps.max_image_count
    } else {
        desired
    }
}

/// The full plan for one chain: every parameter the platform needs, fixed
/// by the selection rules above.
#[derive(Clone, Debug, PartialEq, Eq)]
pub struct SwapchainPlan {
    /// The chosen (format, color space) pair.
    pub format: SurfaceFormat,
    /// The chosen present mode id.
    pub present_mode: u32,
    /// The chosen extent.
    pub extent: Extent2d,
    /// The chosen image count.
    pub image_count: u32,
    /// How images are shared between the two queue families.
    pub sharing_mode: SharingMode,
    /// The families named for concurrent sharing; empty for exclusive.
    pub queue_family_indices: Vec<u32>,
}

/// Lays out the whole chain: format, present mode, extent and image count by
/// their selection rules, and concurrent sharing across the two families
/// exactly when graphics and presentation use different families.
pub fn plan_swapchain(
    support: &SwapchainSupportDetails,
    indices: &QueueFamilyIndices,
    window_width: u32,
    window_height: u32,
) -> (r: SwapchainPlan)
    requires
        support.formats@.len() > 0,
        spec_capabilities_wf(support.capabilities),
        support.capabilities.min_image_count < u32::MAX,
        spec_is_complete(*indices),
    ensures
        r.format == spec_choose_format(support.formats@),
        r.present_mode == spec_choose_present_mode(support.present_modes@),
        r.extent == spec_choose_extent(support.capabilities, window_width, window_height),
        r.image_count == spec_choose_image_count(support.capabilities),
        indices.graphics_family != indices.present_family ==> r.sharing_mode
            == SharingMode::Concurrent,
        indices.graphics_family != indices.present_family ==> r.queue_family_indices@ =~= seq![
            indices.graphics_family->Some_0,
            indices.present_family->Some_0,
        ],
        indices.graphics_family == indices.present_family ==> {
            &&& r.sharing_mode == SharingMode::Exclusive
            &&& r.queue_family_indices@.len() == 0
        },
{
    let format = choose_swap_surface_format(&support.formats);
    let present_mode = choose_swap_present_mode(&support.present_modes);
    let extent = choose_swap_extent(&support.capabilities, window_width, window_height);
    let image_count = choose_image_count(&support.capabilities);

    let graphics = match indices.graphics_family {
        Some(g) => g,
        None => 0,
    };
    let present = match indices.present_family {
        Some(p) => p,
        None => 0,
    };

    let mut queue_family_indices: Vec<u32> = Vec::new();
    let sharing_mode: SharingMode;
    if graphics != present {
        queue_family_indices.push(graphics);
        queue_family_indices.push(present);
        sharing_mode = SharingMode::Concurrent;
        proof {
            assert(queue_family_indices@ =~= seq![graphics, present]);
        }
    } else {
        sharing_mode = SharingMode::Exclusive;
    }

    SwapchainPlan { format, present_mode, extent, image_count, sharing_mode, queue_family_indices }
}

/// The chosen format is one the platform offers.
pub proof fn lemma_chosen_format_is_offered(formats: Seq<SurfaceFormat>)
    requires
        formats.len() > 0,
    ensures
        formats.contains(spec_choose_format(formats)),
{
    lemma_choose_format_from_offered(formats, 0);
}

proof fn lemma_choose_format_from_offered(formats: Seq<SurfaceFormat>, i: int)
    requires
        formats.len() > 0,
        0 <= i <= formats.len(),
    ensures
        formats.contains(spec_choose_format_from(formats, i)),
    decreases formats.len() - i,
{
    if i >= formats.len() {
        assert(spec_choose_format_from(formats, i) == formats[0]);
    } else if spec_format_preferred(formats[i]) {
    } else {
        lemma_choose_format_from_offered(formats, i + 1);
    }
}

/// When the list offers the preferred pair, the selector takes it; when it
/// does not, the selector takes the first offered pair and never fails.
pub proof fn lemma_format_selection_policy(formats: Seq<SurfaceFormat>)
    requires
        formats.len() > 0,
    ensures
        (exists|i: int| 0 <= i < formats.len() && spec_format_preferred(#[trigger] formats[i]))
            ==> spec_format_preferred(spec_choose_format(formats)),
        (forall|i: int| 0 <= i < formats.len() ==> !spec_format_preferred(#[trigger] formats[i]))
            ==> spec_choose_format(formats) == formats[0],
{
    lemma_format_from_policy(formats, 0);
}

proof fn lemma_format_from_policy(formats: Seq<SurfaceFormat>, i: int)
    requires
        formats.len() > 0,
        0 <= i <= formats.len(),
    ensures
        (exists|j: int| i <= j < formats.len() && spec_format_preferred(#[trigger] formats[j]))
            ==> spec_format_preferred(spec_choose_format_from(formats, i)),
        (forall|j: int| i <= j < formats.len() ==> !spec_format_preferred(#[trigger] formats[j]))
            ==> spec_choose_format_from(formats, i) == formats[0],
    decreases formats.len() - i,
{
    if i < formats.len() && !spec_format_preferred(formats[i]) {
        lemma_format_from_policy(formats, i + 1);
    }
}

/// The chosen image count never falls below the platform minimum and never
/// exceeds a declared maximum; it is `min + 1` except when that would pass
/// the maximum.
pub proof fn lemma_image_count_in_range(caps: SurfaceCapabilities)
    requires
        spec_capabilities_wf(caps),
        caps.min_image_count < u32::MAX,
    ensures
        spec_choose_image_count(caps) >= caps.min_image_count,
        caps.max_image_count != 0 ==> spec_choose_image_count(caps) <= caps.max_image_count,
        spec_choose_image_count(caps) <= caps.min_image_count + 1,
{
}

/// The chosen extent lies within the supported range, componentwise: a
/// defined current extent already does, and a derived extent is clamped.
pub proof fn lemma_extent_in_range(
    caps: SurfaceCapabilities,
    window_width: u32,
    window_height: u32,
)
    requires
        spec_capabilities_wf(caps),
    ensures
        caps.min_image_extent.width <= spec_choose_extent(caps, window_width, window_height).width
            <= caps.max_image_extent.width,
        caps.min_image_extent.height <= spec_choose_extent(
            caps,
            window_width,
            window_height,
        ).height <= caps.max_image_extent.height,
{
}

/// The present-mode rule in both directions: FIFO exactly when mailbox is
/// not offered.
pub proof fn lemma_present_mode_policy(modes: Seq<u32>)
    ensures
        modes.contains(PRESENT_MODE_MAILBOX) ==> spec_choose_present_mode(modes)
            == PRESENT_MODE_MAILBOX,
        !modes.contains(PRESENT_MODE_MAILBOX) ==> spec_choose_present_mode(modes)
            == PRESENT_MODE_FIFO,
{
}

/// Planning is a function of the reported support and window size alone:
/// rebuilding against the same support yields the same image count, format
/// and extent.
pub proof fn lemma_replan_unchanged(
    first: SwapchainSupportDetails,
    second: SwapchainSupportDetails,
    window_width: u32,
    window_height: u32,
)
    requires
        first == second,
    ensures
        spec_choose_image_count(first.capabilities) == spec_choose_image_count(
            second.capabilities,
        ),
        spec_choose_format(first.formats@) == spec_choose_format(second.formats@),
        spec_choose_extent(first.capabilities, window_width, window_height) == spec_choose_extent(
            second.capabilities,
            window_width,
            window_height,
        ),
{
}

} // verus!
