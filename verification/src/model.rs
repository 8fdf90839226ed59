//! Plain-value models of the Vulkan structures that the selection logic reads, and the
//! Vulkan enumerant values it compares against.

use vstd::prelude::*;

verus! {

/// `VK_API_VERSION_1_0`.
pub const API_VERSION_1_0: u32 = 0x0040_0000;

/// `VK_API_VERSION_1_1`.
pub const API_VERSION_1_1: u32 = 0x0040_1000;

/// `VK_API_VERSION_1_2`.
pub const API_VERSION_1_2: u32 = 0x0040_2000;

/// `VK_API_VERSION_1_3`.
pub const API_VERSION_1_3: u32 = 0x0040_3000;

/// `VK_QUEUE_GRAPHICS_BIT`.
pub const QUEUE_GRAPHICS: u32 = 0x1;

/// `VK_QUEUE_COMPUTE_BIT`.
pub const QUEUE_COMPUTE: u32 = 0x2;

/// `VK_QUEUE_TRANSFER_BIT`.
pub const QUEUE_TRANSFER: u32 = 0x4;

/// `VK_QUEUE_SPARSE_BINDING_BIT`.
pub const QUEUE_SPARSE_BINDING: u32 = 0x8;

/// `VK_MEMORY_HEAP_DEVICE_LOCAL_BIT`.
pub const MEMORY_HEAP_DEVICE_LOCAL: u32 = 0x1;

/// `VK_FORMAT_UNDEFINED`.
pub const FORMAT_UNDEFINED: i32 = 0;

/// `VK_FORMAT_R8G8B8A8_UNORM`.
pub const FORMAT_R8G8B8A8_UNORM: i32 = 37;

/// `VK_FORMAT_R8G8B8A8_SRGB`.
pub const FORMAT_R8G8B8A8_SRGB: i32 = 43;

/// `VK_FORMAT_B8G8R8A8_UNORM`.
pub const FORMAT_B8G8R8A8_UNORM: i32 = 44;

/// `VK_FORMAT_B8G8R8A8_SRGB`.
pub const FORMAT_B8G8R8A8_SRGB: i32 = 50;

/// `VK_COLOR_SPACE_SRGB_NONLINEAR_KHR`.
pub const COLOR_SPACE_SRGB_NONLINEAR: i32 = 0;

/// `VK_PRESENT_MODE_IMMEDIATE_KHR`.
pub const PRESENT_MODE_IMMEDIATE: i32 = 0;

/// `VK_PRESENT_MODE_MAILBOX_KHR`.
pub const PRESENT_MODE_MAILBOX: i32 = 1;

/// `VK_PRESENT_MODE_FIFO_KHR`.
pub const PRESENT_MODE_FIFO: i32 = 2;

/// `VK_PRESENT_MODE_FIFO_RELAXED_KHR`.
pub const PRESENT_MODE_FIFO_RELAXED: i32 = 3;

/// `VK_IMAGE_USAGE_COLOR_ATTACHMENT_BIT`.
pub const IMAGE_USAGE_COLOR_ATTACHMENT: u32 = 0x10;

/// `VK_COMPOSITE_ALPHA_OPAQUE_BIT_KHR`.
pub const COMPOSITE_ALPHA_OPAQUE: u32 = 0x1;

/// `VK_COMPOSITE_ALPHA_INHERIT_BIT_KHR`.
pub const COMPOSITE_ALPHA_INHERIT: u32 = 0x8;

/// `VK_PHYSICAL_DEVICE_TYPE_OTHER`.
pub const PHYSICAL_DEVICE_TYPE_OTHER: i32 = 0;

/// `VK_PHYSICAL_DEVICE_TYPE_INTEGRATED_GPU`.
pub const PHYSICAL_DEVICE_TYPE_INTEGRATED_GPU: i32 = 1;

/// `VK_PHYSICAL_DEVICE_TYPE_DISCRETE_GPU`.
pub const PHYSICAL_DEVICE_TYPE_DISCRETE_GPU: i32 = 2;

/// `VK_PHYSICAL_DEVICE_TYPE_VIRTUAL_GPU`.
pub const PHYSICAL_DEVICE_TYPE_VIRTUAL_GPU: i32 = 3;

/// `VK_PHYSICAL_DEVICE_TYPE_CPU`.
pub const PHYSICAL_DEVICE_TYPE_CPU: i32 = 4;

/// `VK_STRUCTURE_TYPE_IMAGE_VIEW_CREATE_INFO`.
pub const STRUCTURE_TYPE_IMAGE_VIEW_CREATE_INFO: i32 = 15;

/// `VK_STRUCTURE_TYPE_PHYSICAL_DEVICE_VULKAN_1_1_FEATURES`.
pub const STRUCTURE_TYPE_PHYSICAL_DEVICE_VULKAN_1_1_FEATURES: i32 = 49;

/// `VK_STRUCTURE_TYPE_PHYSICAL_DEVICE_VULKAN_1_2_FEATURES`.
pub const STRUCTURE_TYPE_PHYSICAL_DEVICE_VULKAN_1_2_FEATURES: i32 = 51;

/// `VK_STRUCTURE_TYPE_PHYSICAL_DEVICE_VULKAN_1_3_FEATURES`.
pub const STRUCTURE_TYPE_PHYSICAL_DEVICE_VULKAN_1_3_FEATURES: i32 = 53;

/// `VK_STRUCTURE_TYPE_PHYSICAL_DEVICE_FEATURES_2`.
pub const STRUCTURE_TYPE_PHYSICAL_DEVICE_FEATURES_2: i32 = 1000059000;

/// A two-dimensional extent (`VkExtent2D`).
#[derive(Clone, Copy, Debug, PartialEq, Eq, Structural)]
pub struct Extent2D {
    pub width: u32,
    pub height: u32,
}

/// A three-dimensional extent (`VkExtent3D`).
#[derive(Clone, Copy, Debug, PartialEq, Eq, Structural)]
pub struct Extent3D {
    pub width: u32,
    pub height: u32,
    pub depth: u32,
}

/// The properties of a queue family (`VkQueueFamilyProperties`); `queue_flags` holds the
/// raw `VkQueueFlags` bits.
#[derive(Clone, Copy, Debug, PartialEq, Eq, Structural)]
pub struct QueueFamilyProperties {
    pub queue_flags: u32,
    pub queue_count: u32,
    pub timestamp_valid_bits: u32,
    pub min_image_transfer_granularity: Extent3D,
}

/// A format and color space pair that a surface supports (`VkSurfaceFormatKHR`), both
/// held as the raw enumerant values.
#[derive(Clone, Copy, Debug, PartialEq, Eq, Structural)]
pub struct SurfaceFormat {
    pub format: i32,
    pub color_space: i32,
}

/// The capabilities of a surface (`VkSurfaceCapabilitiesKHR`); flag members hold the raw
/// bits.
#[derive(Clone, Copy, Debug, PartialEq, Eq, Structural)]
pub struct SurfaceCapabilities {
    pub min_image_count: u32,
    pub max_image_count: u32,
    pub current_extent: Extent2D,
    pub min_image_extent: Extent2D,
    pub max_image_extent: Extent2D,
    pub max_image_array_layers: u32,
    pub supported_transforms: u32,
    pub current_transform: u32,
    pub supported_composite_alpha: u32,
    pub supported_usage_flags: u32,
}

/// A memory heap of a physical device (`VkMemoryHeap`); `flags` holds the raw bits.
#[derive(Clone, Copy, Debug, PartialEq, Eq, Structural)]
pub struct MemoryHeap {
    pub size: u64,
    pub flags: u32,
}

/// The general properties of a physical device that selection reads
/// (`VkPhysicalDeviceProperties`); `device_type` holds the raw enumerant.
#[derive(Clone, Debug)]
pub struct PhysicalDeviceProperties {
    pub api_version: u32,
    pub driver_version: u32,
    pub vendor_id: u32,
    pub device_id: u32,
    pub device_type: i32,
    pub device_name: String,
}

} // verus!

verus! {

/// Name of the swapchain device extension.
pub const KHR_SWAPCHAIN_NAME: &'static str = "VK_KHR_swapchain";

/// Name of the surface instance extension.
pub const KHR_SURFACE_NAME: &'static str = "VK_KHR_surface";

/// Name of the Win32 surface instance extension.
pub const KHR_WIN32_SURFACE_NAME: &'static str = "VK_KHR_win32_surface";

/// Name of the Android surface instance extension.
pub const KHR_ANDROID_SURFACE_NAME: &'static str = "VK_KHR_android_surface";

/// Name of the XCB surface instance extension.
pub const KHR_XCB_SURFACE_NAME: &'static str = "VK_KHR_xcb_surface";

/// Name of the Xlib surface instance extension.
pub const KHR_XLIB_SURFACE_NAME: &'static str = "VK_KHR_xlib_surface";

/// Name of the Wayland surface instance extension.
pub const KHR_WAYLAND_SURFACE_NAME: &'static str = "VK_KHR_wayland_surface";

/// Name of the Metal surface instance extension.
pub const EXT_METAL_SURFACE_NAME: &'static str = "VK_EXT_metal_surface";

/// Name of the physical-device-properties-2 instance extension.
pub const KHR_GET_PHYSICAL_DEVICE_PROPERTIES2_NAME: &'static str =
    "VK_KHR_get_physical_device_properties2";

/// Name of the layer settings instance extension.
pub const EXT_LAYER_SETTINGS_NAME: &'static str = "VK_EXT_layer_settings";

/// Name of the portability enumeration instance extension.
pub const KHR_PORTABILITY_ENUMERATION_NAME: &'static str = "VK_KHR_portability_enumeration";

/// Name of the portability subset device extension.
pub const KHR_PORTABILITY_SUBSET_NAME: &'static str = "VK_KHR_portability_subset";

} // verus!
