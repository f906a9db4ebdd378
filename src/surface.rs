//! How the presentable surface's swapchain is configured: its image format,
//! present mode, image count and extent.
use vstd::prelude::*;
use crate::extent::Extent2D;
use crate::vulkan::{
    color_space_srgb_nonlinear, eight_bit_formats, format_bgra8_unorm, format_rgba8_unorm,
    mailbox_and_fifo, present_mode_fifo, present_mode_mailbox, srgb_nonlinear,
};

verus! {

/// A format the surface supports: raw Vulkan format and color space values.
#[derive(Clone, Copy, Debug, PartialEq, Eq, Structural)]
pub struct SurfaceFormat {
    pub format: i32,
    pub color_space: i32,
}

/// An 8-bit-per-channel BGRA or RGBA format in the standard non-linear
/// color space.
pub open spec fn is_preferred_format(f: SurfaceFormat) -> bool {
    (f.format == format_bgra8_unorm() || f.format == format_rgba8_unorm()) && f.color_space
        == color_space_srgb_nonlinear()
}

/// The format to create the swapchain with: the first preferred format in
/// `available`, else the first available one; `None` when the surface
/// offers no format at all.
pub fn choose_surface_format(available: &Vec<SurfaceFormat>) -> (r: Option<SurfaceFormat>)
    ensures
        r is None <==> available@.len() == 0,
        r matches Some(f) ==> exists|i: int|
            0 <= i < available@.len() && available@[i] == f && (forall|j: int|
                0 <= j < i ==> !is_preferred_format(#[trigger] available@[j])) && (
            is_preferred_format(f) || (i == 0 && forall|j: int|
                0 <= j < available@.len() ==> !is_preferred_format(#[trigger] available@[j]))),
{
    let (bgra, rgba) = eight_bit_formats();
    let srgb = srgb_nonlinear();
    let mut i: usize = 0;
    while i < available.len()
        invariant
            i <= available@.len(),
            bgra == format_bgra8_unorm(),
            rgba == format_rgba8_unorm(),
            srgb == color_space_srgb_nonlinear(),
            forall|j: int| 0 <= j < i ==> !is_preferred_format(#[trigger] available@[j]),
        decreases available@.len() - i,
    {
        let f = available[i];
        if (f.format == bgra || f.format == rgba) && f.color_space == srgb {
            return Some(f);
        }
        i = i + 1;
    }
    if available.len() == 0 {
        None
    } else {
        Some(available[0])
    }
}

/// The present mode to create the swapchain with: the low-latency mailbox
/// mode where the surface offers it, else the vsync FIFO mode, which every
/// surface supports.
pub fn choose_present_mode(available: &Vec<i32>) -> (r: i32)
    ensures
        r == if available@.contains(present_mode_mailbox()) {
            present_mode_mailbox()
        } else {
            present_mode_fifo()
        },
{
    let (mailbox, fifo) = mailbox_and_fifo();
    let mut i: usize = 0;
    while i < available.len()
        invariant
            i <= available@.len(),
            mailbox == present_mode_mailbox(),
            fifo == present_mode_fifo(),
            forall|j: int| 0 <= j < i ==> available@[j] != mailbox,
        decreases available@.len() - i,
    {
        if available[i] == mailbox {
            return mailbox;
        }
        i = i + 1;
    }
    fifo
}

/// One more image than the driver's minimum (held at the largest `u32`),
/// capped by the driver's maximum where it states one (a maximum of zero
/// means no limit).
pub open spec fn desired_count(min_count: u32, max_count: u32) -> int {
    let wanted = if min_count < u32::MAX {
        min_count + 1
    } else {
        min_count as int
    };
    if max_count > 0 && wanted > max_count {
        max_count as int
    } else {
        wanted
    }
}

/// The number of images to ask the swapchain for.
pub fn desired_image_count(min_count: u32, max_count: u32) -> (r: u32)
    ensures
        r == desired_count(min_count, max_count),
{
    let wanted = if min_count < u32::MAX {
        min_count + 1
    } else {
        min_count
    };
    if max_count > 0 && wanted > max_count {
        max_count
    } else {
        wanted
    }
}

/// The swapchain's extent: the surface's current extent, unless the surface
/// leaves it to the swapchain (a current width of `u32::MAX`), in which case
/// the window's size.
pub fn choose_surface_extent(current: Extent2D, window: Extent2D) -> (r: Extent2D)
    ensures
        r == if current.width == u32::MAX {
            window
        } else {
            current
        },
{
    if current.width == u32::MAX {
        window
    } else {
        current
    }
}

} // verus!
