//! Raw Vulkan values that the library's rules compare against, read from ash.
//!
//! The library holds Vulkan enumerations and flags as their raw integers so
//! that its logic can be stated over plain values; these functions hand out
//! the raw values of the few constants that the rules name.
use vstd::prelude::*;
use ash::vk;

verus! {

/// Raw value of `VK_FORMAT_B8G8R8A8_UNORM`.
pub open spec fn format_bgra8_unorm() -> i32 {
    44
}

/// Raw value of `VK_FORMAT_R8G8B8A8_UNORM`.
pub open spec fn format_rgba8_unorm() -> i32 {
    37
}

/// Raw value of `VK_COLOR_SPACE_SRGB_NONLINEAR_KHR`.
pub open spec fn color_space_srgb_nonlinear() -> i32 {
    0
}

/// Raw value of `VK_PRESENT_MODE_MAILBOX_KHR`.
pub open spec fn present_mode_mailbox() -> i32 {
    1
}

/// Raw value of `VK_PRESENT_MODE_FIFO_KHR`.
pub open spec fn present_mode_fifo() -> i32 {
    2
}

/// Raw value of `VK_ERROR_OUT_OF_DATE_KHR`.
pub open spec fn result_out_of_date() -> i32 {
    -1_000_001_004i32
}

/// Raw bits of `VK_QUEUE_GRAPHICS_BIT`.
pub open spec fn queue_graphics_bit() -> u32 {
    1
}

/// Raw bits of `VK_QUEUE_COMPUTE_BIT`.
pub open spec fn queue_compute_bit() -> u32 {
    2
}

/// Relies on `vk::Format::as_raw` for ash's `B8G8R8A8_UNORM` and
/// `R8G8B8A8_UNORM` constants: the raw values of the two 8-bit formats.
#[verifier::external_body]
pub(crate) fn eight_bit_formats() -> (r: (i32, i32))
    ensures
        r.0 == format_bgra8_unorm(),
        r.1 == format_rgba8_unorm(),
{
    (vk::Format::B8G8R8A8_UNORM.as_raw(), vk::Format::R8G8B8A8_UNORM.as_raw())
}

/// Relies on `vk::ColorSpaceKHR::as_raw` for ash's `SRGB_NONLINEAR`
/// constant: the raw value of the standard non-linear color space.
#[verifier::external_body]
pub(crate) fn srgb_nonlinear() -> (r: i32)
    ensures
        r == color_space_srgb_nonlinear(),
{
    vk::ColorSpaceKHR::SRGB_NONLINEAR.as_raw()
}

/// Relies on `vk::PresentModeKHR::as_raw` for ash's `MAILBOX` and `FIFO`
/// constants: the raw values of the low-latency and the vsync present modes.
#[verifier::external_body]
pub(crate) fn mailbox_and_fifo() -> (r: (i32, i32))
    ensures
        r.0 == present_mode_mailbox(),
        r.1 == present_mode_fifo(),
{
    (vk::PresentModeKHR::MAILBOX.as_raw(), vk::PresentModeKHR::FIFO.as_raw())
}

/// Relies on `vk::Result::as_raw` for ash's `ERROR_OUT_OF_DATE_KHR`
/// constant: the raw code of a surface that no longer matches its swapchain.
#[verifier::external_body]
pub(crate) fn out_of_date() -> (r: i32)
    ensures
        r == result_out_of_date(),
{
    vk::Result::ERROR_OUT_OF_DATE_KHR.as_raw()
}

/// Relies on `vk::QueueFlags::as_raw` for ash's `GRAPHICS` and `COMPUTE`
/// constants: the raw bits of the two queue capabilities.
#[verifier::external_body]
pub(crate) fn graphics_and_compute_bits() -> (r: (u32, u32))
    ensures
        r.0 == queue_graphics_bit(),
        r.1 == queue_compute_bit(),
{
    (vk::QueueFlags::GRAPHICS.as_raw(), vk::QueueFlags::COMPUTE.as_raw())
}

} // verus!
