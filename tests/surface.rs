use ash::vk;
use luma::extent::Extent2D;
use luma::surface::{
    choose_present_mode, choose_surface_extent, choose_surface_format, desired_image_count,
    SurfaceFormat,
};

fn format(f: vk::Format, c: vk::ColorSpaceKHR) -> SurfaceFormat {
    SurfaceFormat { format: f.as_raw(), color_space: c.as_raw() }
}

#[test]
fn no_format_offered_gives_none() {
    assert_eq!(choose_surface_format(&vec![]), None);
}

#[test]
fn preferred_format_wins_over_earlier_ones() {
    let offered = vec![
        format(vk::Format::R16G16B16A16_SFLOAT, vk::ColorSpaceKHR::EXTENDED_SRGB_LINEAR_EXT),
        format(vk::Format::B8G8R8A8_SRGB, vk::ColorSpaceKHR::SRGB_NONLINEAR),
        format(vk::Format::B8G8R8A8_UNORM, vk::ColorSpaceKHR::SRGB_NONLINEAR),
        format(vk::Format::R8G8B8A8_UNORM, vk::ColorSpaceKHR::SRGB_NONLINEAR),
    ];
    assert_eq!(
        choose_surface_format(&offered),
        Some(format(vk::Format::B8G8R8A8_UNORM, vk::ColorSpaceKHR::SRGB_NONLINEAR))
    );
}

#[test]
fn rgba_unorm_is_preferred_too() {
    let offered = vec![
        format(vk::Format::A2B10G10R10_UNORM_PACK32, vk::ColorSpaceKHR::SRGB_NONLINEAR),
        format(vk::Format::R8G8B8A8_UNORM, vk::ColorSpaceKHR::SRGB_NONLINEAR),
    ];
    assert_eq!(choose_surface_format(&offered), Some(offered[1]));
}

#[test]
fn preferred_format_needs_the_standard_color_space() {
    let offered = vec![
        format(vk::Format::R16G16B16A16_SFLOAT, vk::ColorSpaceKHR::SRGB_NONLINEAR),
        format(vk::Format::B8G8R8A8_UNORM, vk::ColorSpaceKHR::DISPLAY_P3_NONLINEAR_EXT),
    ];
    // nothing preferred: the first one is taken
    assert_eq!(choose_surface_format(&offered), Some(offered[0]));
}

#[test]
fn mailbox_is_chosen_when_offered() {
    let modes = vec![
        vk::PresentModeKHR::FIFO.as_raw(),
        vk::PresentModeKHR::IMMEDIATE.as_raw(),
        vk::PresentModeKHR::MAILBOX.as_raw(),
    ];
    assert_eq!(choose_present_mode(&modes), vk::PresentModeKHR::MAILBOX.as_raw());
}

#[test]
fn fifo_is_the_fallback() {
    let modes = vec![vk::PresentModeKHR::IMMEDIATE.as_raw(), vk::PresentModeKHR::FIFO_RELAXED.as_raw()];
    assert_eq!(choose_present_mode(&modes), vk::PresentModeKHR::FIFO.as_raw());
    assert_eq!(choose_present_mode(&vec![]), vk::PresentModeKHR::FIFO.as_raw());
}

#[test]
fn image_count_is_minimum_plus_one_capped_by_maximum() {
    assert_eq!(desired_image_count(2, 8), 3);
    assert_eq!(desired_image_count(3, 3), 3);
    assert_eq!(desired_image_count(2, 0), 3);
    assert_eq!(desired_image_count(0, 0), 1);
    assert_eq!(desired_image_count(u32::MAX, 0), u32::MAX);
}

#[test]
fn surface_extent_follows_the_surface_unless_left_open() {
    let window = Extent2D { width: 800, height: 600 };
    let current = Extent2D { width: 1024, height: 768 };
    assert_eq!(choose_surface_extent(current, window), current);
    let open = Extent2D { width: u32::MAX, height: u32::MAX };
    assert_eq!(choose_surface_extent(open, window), window);
}
