//! The selection and utility rules, on the values the driver would report.

use ash::vk;
use ash::vk::QueueFlags as Q;
use ash_bootstrap::features::{AsBool, PhysicalDeviceFeatures, SupportsFeatures};
use ash_bootstrap::model::{Extent2D, Extent3D, QueueFamilyProperties, SurfaceCapabilities, SurfaceFormat};
use ash_bootstrap::utils::{
    check_device_extension_support, find_best_surface_format, find_desired_surface_format,
    find_extent, find_present_mode, get_dedicated_queue_index, get_first_queue_index,
    get_separate_queue_index,
};

fn fmt(format: vk::Format, color_space: vk::ColorSpaceKHR) -> SurfaceFormat {
    SurfaceFormat { format: format.as_raw(), color_space: color_space.as_raw() }
}

fn family(flags: vk::QueueFlags) -> QueueFamilyProperties {
    QueueFamilyProperties {
        queue_flags: flags.as_raw(),
        queue_count: 1,
        timestamp_valid_bits: 0,
        min_image_transfer_granularity: Extent3D { width: 0, height: 0, depth: 0 },
    }
}

fn caps(current: (u32, u32), min: (u32, u32), max: (u32, u32)) -> SurfaceCapabilities {
    SurfaceCapabilities {
        min_image_count: 0,
        max_image_count: 0,
        current_extent: Extent2D { width: current.0, height: current.1 },
        min_image_extent: Extent2D { width: min.0, height: min.1 },
        max_image_extent: Extent2D { width: max.0, height: max.1 },
        max_image_array_layers: 0,
        supported_transforms: 0,
        current_transform: 0,
        supported_composite_alpha: 0,
        supported_usage_flags: 0,
    }
}

#[test]
fn desired_surface_format_respects_priority() {
    let available = vec![
        fmt(vk::Format::B8G8R8A8_UNORM, vk::ColorSpaceKHR::SRGB_NONLINEAR),
        fmt(vk::Format::B8G8R8A8_SRGB, vk::ColorSpaceKHR::SRGB_NONLINEAR),
    ];
    let desired = vec![
        fmt(vk::Format::B8G8R8A8_SRGB, vk::ColorSpaceKHR::SRGB_NONLINEAR),
        fmt(vk::Format::B8G8R8A8_UNORM, vk::ColorSpaceKHR::SRGB_NONLINEAR),
    ];
    let chosen = find_desired_surface_format(&available, &desired).unwrap();
    assert_eq!(chosen.format, vk::Format::B8G8R8A8_SRGB.as_raw());
}

#[test]
fn desired_surface_format_skips_unavailable_first_choice() {
    let available = vec![fmt(vk::Format::B8G8R8A8_SRGB, vk::ColorSpaceKHR::SRGB_NONLINEAR)];
    let desired = vec![
        fmt(vk::Format::R8G8B8A8_SRGB, vk::ColorSpaceKHR::SRGB_NONLINEAR),
        fmt(vk::Format::B8G8R8A8_SRGB, vk::ColorSpaceKHR::SRGB_NONLINEAR),
    ];
    let chosen = find_desired_surface_format(&available, &desired).unwrap();
    assert_eq!(chosen.format, vk::Format::B8G8R8A8_SRGB.as_raw());
}

#[test]
fn desired_surface_format_errors_when_none_match() {
    let available = vec![fmt(vk::Format::B8G8R8A8_UNORM, vk::ColorSpaceKHR::SRGB_NONLINEAR)];
    let desired = vec![fmt(vk::Format::R8G8B8A8_SRGB, vk::ColorSpaceKHR::SRGB_NONLINEAR)];
    assert!(find_desired_surface_format(&available, &desired).is_err());
}

#[test]
fn best_surface_format_falls_back_to_first_available() {
    let available = vec![
        fmt(vk::Format::B8G8R8A8_UNORM, vk::ColorSpaceKHR::SRGB_NONLINEAR),
        fmt(vk::Format::R8G8B8A8_UNORM, vk::ColorSpaceKHR::SRGB_NONLINEAR),
    ];
    let desired = vec![fmt(vk::Format::R8G8B8A8_SRGB, vk::ColorSpaceKHR::SRGB_NONLINEAR)];
    let chosen = find_best_surface_format(&available, &desired);
    assert_eq!(chosen.format, vk::Format::B8G8R8A8_UNORM.as_raw());
}

#[test]
fn present_mode_prefers_desired_then_fifo() {
    let available = vec![vk::PresentModeKHR::FIFO.as_raw(), vk::PresentModeKHR::IMMEDIATE.as_raw()];

    let desired = vec![vk::PresentModeKHR::MAILBOX.as_raw(), vk::PresentModeKHR::IMMEDIATE.as_raw()];
    assert_eq!(find_present_mode(&available, &desired), vk::PresentModeKHR::IMMEDIATE.as_raw());

    let desired_unavailable = vec![vk::PresentModeKHR::MAILBOX.as_raw()];
    assert_eq!(
        find_present_mode(&available, &desired_unavailable),
        vk::PresentModeKHR::FIFO.as_raw()
    );
}

#[test]
fn extent_uses_current_when_fixed() {
    let caps = caps((800, 600), (1, 1), (4096, 4096));
    let e = find_extent(&caps, 1280, 720);
    assert_eq!((e.width, e.height), (800, 600));
}

#[test]
fn extent_clamps_desired_when_flexible() {
    let caps = caps((u32::MAX, u32::MAX), (640, 480), (1920, 1080));

    let within = find_extent(&caps, 1280, 720);
    assert_eq!((within.width, within.height), (1280, 720));

    let too_small = find_extent(&caps, 100, 100);
    assert_eq!((too_small.width, too_small.height), (640, 480));

    let too_big = find_extent(&caps, 5000, 5000);
    assert_eq!((too_big.width, too_big.height), (1920, 1080));
}

#[test]
fn queue_index_selection() {
    let families = vec![
        family(Q::GRAPHICS | Q::COMPUTE | Q::TRANSFER),
        family(Q::COMPUTE | Q::TRANSFER),
        family(Q::TRANSFER),
        family(Q::COMPUTE),
    ];

    assert_eq!(get_first_queue_index(&families, Q::GRAPHICS.as_raw()), Some(0));
    assert_eq!(
        get_dedicated_queue_index(&families, Q::COMPUTE.as_raw(), Q::TRANSFER.as_raw()),
        Some(3)
    );
    assert_eq!(
        get_dedicated_queue_index(&families, Q::TRANSFER.as_raw(), Q::COMPUTE.as_raw()),
        Some(2)
    );
    assert_eq!(
        get_separate_queue_index(&families, Q::COMPUTE.as_raw(), Q::TRANSFER.as_raw()),
        Some(3)
    );
}

#[test]
fn separate_queue_falls_back_when_only_overlapping_exists() {
    let families = vec![family(Q::GRAPHICS | Q::COMPUTE | Q::TRANSFER), family(Q::COMPUTE | Q::TRANSFER)];
    assert_eq!(
        get_separate_queue_index(&families, Q::COMPUTE.as_raw(), Q::TRANSFER.as_raw()),
        Some(1)
    );
}

#[test]
fn extension_support_filters_present() {
    let available = vec!["VK_KHR_swapchain".to_string(), "VK_EXT_foo".to_string()];
    let required = vec!["VK_KHR_swapchain".to_string(), "VK_KHR_missing".to_string()];
    let supported = check_device_extension_support(&available, &required);
    assert_eq!(supported, vec!["VK_KHR_swapchain".to_string()]);
}

#[test]
fn supports_features_checks_subset() {
    let required = PhysicalDeviceFeatures::new().geometry_shader(true);

    let with = PhysicalDeviceFeatures::new().geometry_shader(true).tessellation_shader(true);
    let without = PhysicalDeviceFeatures::new();

    assert!(required.supports(&with));
    assert!(!required.supports(&without));
}

#[test]
fn as_bool_round_trips() {
    assert!(!vk::FALSE.as_bool());
    assert!(vk::TRUE.as_bool());
}
