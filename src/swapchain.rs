use vstd::prelude::*;

verus! {

/// Surface format: 8-bit BGRA channels in sRGB encoding.
pub const FORMAT_B8G8R8A8_SRGB: i32 = 50;
/// Color space: sRGB, nonlinear.
pub const COLOR_SPACE_SRGB_NONLINEAR: i32 = 0;
/// Present mode: one queued image replaced by newer ones (low-latency triple buffering).
pub const PRESENT_MODE_MAILBOX: i32 = 1;
/// Present mode: a first-in first-out queue, always available.
pub const PRESENT_MODE_FIFO: i32 = 2;

/// A pixel extent.
#[derive(Clone, Copy, Debug, PartialEq, Eq, Structural)]
pub struct Extent2D {
    pub width: u32,
    pub height: u32,
}

/// A format and color space pair that a surface supports.
#[derive(Clone, Copy, Debug, PartialEq, Eq, Structural)]
pub struct SurfaceFormat {
    pub format: i32,
    pub color_space: i32,
}

/// The limits a surface reports for swapchains created on it.
#[derive(Clone, Copy, Debug, PartialEq, Eq, Structural)]
pub struct SurfaceCapabilities {
    pub min_image_count: u32,
    /// 0 when there is no upper bound.
    pub max_image_count: u32,
    pub min_image_extent: Extent2D,
    pub max_image_extent: Extent2D,
}

/// What a surface supports: its limits, formats and present modes.
pub struct SwapchainSupport {
    pub capabilities: SurfaceCapabilities,
    pub formats: Vec<SurfaceFormat>,
    pub present_modes: Vec<i32>,
}

/// The choices a swapchain is created with.
#[derive(Clone, Copy, Debug, PartialEq, Eq, Structural)]
pub struct SwapchainPlan {
    pub format: SurfaceFormat,
    pub present_mode: i32,
    pub extent: Extent2D,
    pub image_count: u32,
}

pub open spec fn is_preferred_format(f: SurfaceFormat) -> bool {
    f.format == FORMAT_B8G8R8A8_SRGB && f.color_space == COLOR_SPACE_SRGB_NONLINEAR
}

/// The first preferred format if there is one, else the first format.
pub open spec fn chosen_format(formats: Seq<SurfaceFormat>) -> SurfaceFormat
    recommends
        formats.len() > 0,
{
    if exists|i: int| 0 <= i < formats.len() && is_preferred_format(#[trigger] formats[i]) {
        formats[first_preferred(formats)]
    } else {
        formats[0]
    }
}

/// The index of the first preferred format, where one exists.
pub open spec fn first_preferred(formats: Seq<SurfaceFormat>) -> int {
    choose|i: int| 0 <= i < formats.len() && is_preferred_format(formats[i])
        && forall|j: int| 0 <= j < i ==> !is_preferred_format(#[trigger] formats[j])
}

pub open spec fn chosen_present_mode(modes: Seq<i32>) -> i32 {
    if modes.contains(PRESENT_MODE_MAILBOX) { PRESENT_MODE_MAILBOX } else { PRESENT_MODE_FIFO }
}

pub open spec fn clamp_spec(v: u32, lo: u32, hi: u32) -> u32 {
    if v < lo { lo } else if v > hi { hi } else { v }
}

pub open spec fn chosen_extent(caps: SurfaceCapabilities, window: Extent2D) -> Extent2D {
    Extent2D {
        width: clamp_spec(window.width, caps.min_image_extent.width, caps.max_image_extent.width),
        height: clamp_spec(window.height, caps.min_image_extent.height, caps.max_image_extent.height),
    }
}

/// One more image than the minimum, capped by the maximum when there is one.
pub open spec fn chosen_image_count(caps: SurfaceCapabilities) -> u32 {
    if caps.max_image_count != 0 && caps.min_image_count + 1 > caps.max_image_count {
        caps.max_image_count
    } else {
        (caps.min_image_count + 1) as u32
    }
}

pub open spec fn planned(caps: SurfaceCapabilities, formats: Seq<SurfaceFormat>, modes: Seq<i32>, window: Extent2D) -> SwapchainPlan {
    SwapchainPlan {
        format: chosen_format(formats),
        present_mode: chosen_present_mode(modes),
        extent: chosen_extent(caps, window),
        image_count: chosen_image_count(caps),
    }
}

/// Picks the surface format: the first 8-bit sRGB format with a nonlinear
/// sRGB color space, else the first format offered.
pub fn choose_surface_format(formats: &Vec<SurfaceFormat>) -> (r: SurfaceFormat)
    requires
        formats@.len() > 0,
    ensures
        r == chosen_format(formats@),
{
    let mut i: usize = 0;
    while i < formats.len()
        invariant
            i <= formats@.len(),
            forall|j: int| 0 <= j < i ==> !is_preferred_format(#[trigger] formats@[j]),
        decreases formats.len() - i,
    {
        let f = formats[i];
        if f.format == FORMAT_B8G8R8A8_SRGB && f.color_space == COLOR_SPACE_SRGB_NONLINEAR {
            proof {
                let k = first_preferred(formats@);
                assert(0 <= k < formats@.len() && is_preferred_format(formats@[k])
                    && forall|j: int| 0 <= j < k ==> !is_preferred_format(#[trigger] formats@[j])) by {
                    assert(is_preferred_format(formats@[i as int]));
                }
                if k < i {
                } else if k > i {
                    assert(!is_preferred_format(formats@[i as int]));
                }
            }
            return f;
        }
        i = i + 1;
    }
    formats[0]
}

/// Picks the present mode: mailbox where offered, else FIFO, which every
/// surface supports.
pub fn choose_present_mode(modes: &Vec<i32>) -> (r: i32)
    ensures
        r == chosen_present_mode(modes@),
{
    let mut i: usize = 0;
    while i < modes.len()
        invariant
            i <= modes@.len(),
            forall|j: int| 0 <= j < i ==> modes@[j] != PRESENT_MODE_MAILBOX,
        decreases modes.len() - i,
    {
        if modes[i] == PRESENT_MODE_MAILBOX {
            assert(modes@.contains(PRESENT_MODE_MAILBOX));
            return PRESENT_MODE_MAILBOX;
        }
        i = i + 1;
    }
    PRESENT_MODE_FIFO
}

fn clamp(v: u32, lo: u32, hi: u32) -> (r: u32)
    ensures
        r == clamp_spec(v, lo, hi),
{
    if v < lo {
        lo
    } else if v > hi {
        hi
    } else {
        v
    }
}

/// Picks the swapchain extent: the window's pixel size clamped to the
/// surface's minimum and maximum extents.
pub fn choose_extent(capabilities: &SurfaceCapabilities, window: Extent2D) -> (r: Extent2D)
    ensures
        r == chosen_extent(*capabilities, window),
{
    Extent2D {
        width: clamp(window.width, capabilities.min_image_extent.width, capabilities.max_image_extent.width),
        height: clamp(window.height, capabilities.min_image_extent.height, capabilities.max_image_extent.height),
    }
}

/// Picks the number of swapchain images: one more than the minimum, capped
/// by the maximum when the surface reports one.
pub fn choose_image_count(capabilities: &SurfaceCapabilities) -> (r: u32)
    requires
        capabilities.min_image_count < u32::MAX,
    ensures
        r == chosen_image_count(*capabilities),
{
    let wanted = capabilities.min_image_count + 1;
    if capabilities.max_image_count != 0 && wanted > capabilities.max_image_count {
        capabilities.max_image_count
    } else {
        wanted
    }
}

/// All the choices for a swapchain on a surface with `support`, for a
/// window of pixel size `window`.
pub fn plan_swapchain(support: &SwapchainSupport, window: Extent2D) -> (r: SwapchainPlan)
    requires
        support.formats@.len() > 0,
        support.capabilities.min_image_count < u32::MAX,
    ensures
        r == planned(support.capabilities, support.formats@, support.present_modes@, window),
{
    SwapchainPlan {
        format: choose_surface_format(&support.formats),
        present_mode: choose_present_mode(&support.present_modes),
        extent: choose_extent(&support.capabilities, window),
        image_count: choose_image_count(&support.capabilities),
    }
}

} // verus!
