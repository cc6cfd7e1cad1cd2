use vstd::prelude::*;

use crate::device::QueueFamilyIndices;

verus! {

/// Raw code of the 8-bit BGRA sRGB image format.
pub const FORMAT_B8G8R8A8_SRGB: i32 = 50;

/// Raw code of the non-linear sRGB color space.
pub const COLOR_SPACE_SRGB_NONLINEAR: i32 = 0;

/// Raw code of the mailbox present mode: the newest image replaces a queued one.
pub const PRESENT_MODE_MAILBOX: i32 = 1;

/// Raw code of the FIFO present mode, which every device supports.
pub const PRESENT_MODE_FIFO: i32 = 2;

/// A surface format as raw format and color-space codes.
#[derive(Clone, Copy, Debug, PartialEq, Eq, Structural)]
pub struct SurfaceFormat {
    pub format: i32,
    pub color_space: i32,
}

/// A two-dimensional size in pixels.
#[derive(Clone, Copy, Debug, PartialEq, Eq, Structural)]
pub struct Extent2D {
    pub width: u32,
    pub height: u32,
}

/// What the surface reports about the swapchains it accepts.
#[derive(Clone, Copy, Debug, PartialEq, Eq, Structural)]
pub struct SurfaceCapabilities {
    pub min_image_count: u32,
    /// Zero when there is no maximum.
    pub max_image_count: u32,
    /// A width of `u32::MAX` means that the swapchain may take any size.
    pub current_extent: Extent2D,
    pub min_image_extent: Extent2D,
    pub max_image_extent: Extent2D,
}

/// How the swapchain images are shared between queue families.
#[derive(Clone, Copy, Debug, PartialEq, Eq, Structural)]
pub enum SharingMode {
    Exclusive,
    Concurrent,
}

/// The preferred surface format: 8-bit BGRA sRGB in the non-linear sRGB space.
pub open spec fn is_preferred_format(f: SurfaceFormat) -> bool {
    f.format == FORMAT_B8G8R8A8_SRGB && f.color_space == COLOR_SPACE_SRGB_NONLINEAR
}

/// The first preferred format if one is offered, else the first format.
pub fn get_swapchain_surface_format(formats: &Vec<SurfaceFormat>) -> (r: SurfaceFormat)
    requires
        formats@.len() > 0,
    ensures
        if exists|i: int| 0 <= i < formats@.len() && is_preferred_format(#[trigger] formats@[i]) {
            is_preferred_format(r) && formats@.contains(r)
        } else {
            r == formats@[0]
        },
{
    let mut i: usize = 0;
    while i < formats.len()
        invariant
            i <= formats@.len(),
            forall|j: int| 0 <= j < i ==> !is_preferred_format(#[trigger] formats@[j]),
        decreases formats@.len() - i,
    {
        let f = formats[i];
        if f.format == FORMAT_B8G8R8A8_SRGB && f.color_space == COLOR_SPACE_SRGB_NONLINEAR {
            return f;
        }
        i = i + 1;
    }
    formats[0]
}

/// Mailbox if the surface offers it, else FIFO.
pub fn get_swapchain_present_mode(present_modes: &Vec<i32>) -> (r: i32)
    ensures
        r == if present_modes@.contains(PRESENT_MODE_MAILBOX) {
            PRESENT_MODE_MAILBOX
        } else {
            PRESENT_MODE_FIFO
        },
{
    let mut i: usize = 0;
    while i < present_modes.len()
        invariant
            i <= present_modes@.len(),
            forall|j: int| 0 <= j < i ==> present_modes@[j] != PRESENT_MODE_MAILBOX,
        decreases present_modes@.len() - i,
    {
        if present_modes[i] == PRESENT_MODE_MAILBOX {
            return PRESENT_MODE_MAILBOX;
        }
        i = i + 1;
    }
    PRESENT_MODE_FIFO
}

/// `v` clamped to `[lo, hi]`; `lo` wins when the bounds cross.
pub open spec fn clamp(lo: u32, hi: u32, v: u32) -> u32 {
    let m = if v < hi {
        v
    } else {
        hi
    };
    if lo > m {
        lo
    } else {
        m
    }
}

fn clamp_exec(lo: u32, hi: u32, v: u32) -> (r: u32)
    ensures
        r == clamp(lo, hi, v),
{
    let m = if v < hi {
        v
    } else {
        hi
    };
    if lo > m {
        lo
    } else {
        m
    }
}

/// The surface's current extent, unless it leaves the size open; then the
/// window size clamped to the surface's bounds.
pub fn get_swapchain_extent(capabilities: &SurfaceCapabilities, window: Extent2D) -> (r: Extent2D)
    ensures
        r == if capabilities.current_extent.width != u32::MAX {
            capabilities.current_extent
        } else {
            Extent2D {
                width: clamp(
                    capabilities.min_image_extent.width,
                    capabilities.max_image_extent.width,
                    window.width,
                ),
                height: clamp(
                    capabilities.min_image_extent.height,
                    capabilities.max_image_extent.height,
                    window.height,
                ),
            }
        },
{
    if capabilities.current_extent.width != u32::MAX {
        capabilities.current_extent
    } else {
        Extent2D {
            width: clamp_exec(
                capabilities.min_image_extent.width,
                capabilities.max_image_extent.width,
                window.width,
            ),
            height: clamp_exec(
                capabilities.min_image_extent.height,
                capabilities.max_image_extent.height,
                window.height,
            ),
        }
    }
}

/// One image more than the minimum, capped at the maximum when there is one.
pub fn get_swapchain_image_count(capabilities: &SurfaceCapabilities) -> (r: u32)
    requires
        capabilities.min_image_count < u32::MAX,
    ensures
        r == if capabilities.max_image_count != 0 && capabilities.min_image_count + 1
            > capabilities.max_image_count {
            capabilities.max_image_count as int
        } else {
            capabilities.min_image_count + 1
        },
{
    let count = capabilities.min_image_count + 1;
    if capabilities.max_image_count != 0 && count > capabilities.max_image_count {
        capabilities.max_image_count
    } else {
        count
    }
}

/// Concurrent sharing between the two families when they differ, else
/// exclusive use with no family list.
pub fn get_sharing_mode(indices: &QueueFamilyIndices) -> (r: (SharingMode, Vec<u32>))
    ensures
        if indices.graphics != indices.present {
            r.0 == SharingMode::Concurrent && r.1@ == seq![indices.graphics, indices.present]
        } else {
            r.0 == SharingMode::Exclusive && r.1@.len() == 0
        },
{
    let mut families: Vec<u32> = Vec::new();
    if indices.graphics != indices.present {
        families.push(indices.graphics);
        families.push(indices.present);
        assert(families@ =~= seq![indices.graphics, indices.present]);
        (SharingMode::Concurrent, families)
    } else {
        (SharingMode::Exclusive, families)
    }
}

/// The swapchain-dependent resources that a resize tears down and rebuilds.
#[derive(Clone, Copy, Debug, PartialEq, Eq, Structural)]
pub enum SwapchainResource {
    /// The multisampled color and the depth attachments.
    Attachments,
    Framebuffers,
    /// The shader variants' pipelines and every bundle's uniform buffers and
    /// descriptor sets.
    Pipelines,
    RenderPass,
    ImageViews,
    Swapchain,
}

/// Dependents before what they depend on.
pub open spec fn teardown_sequence() -> Seq<SwapchainResource> {
    seq![
        SwapchainResource::Attachments,
        SwapchainResource::Framebuffers,
        SwapchainResource::Pipelines,
        SwapchainResource::RenderPass,
        SwapchainResource::ImageViews,
        SwapchainResource::Swapchain,
    ]
}

/// The order in which a resize destroys swapchain-dependent resources, after
/// the device is idle: each before anything it depends on.
pub fn teardown_order() -> (r: Vec<SwapchainResource>)
    ensures
        r@ == teardown_sequence(),
{
    let r = vec![
        SwapchainResource::Attachments,
        SwapchainResource::Framebuffers,
        SwapchainResource::Pipelines,
        SwapchainResource::RenderPass,
        SwapchainResource::ImageViews,
        SwapchainResource::Swapchain,
    ];
    assert(r@ =~= teardown_sequence());
    r
}

} // verus!
