//! The errors that each stage of the bootstrap reports.

use vstd::prelude::*;

verus! {

/// Why an instance could not be configured or created.
#[derive(Debug, Clone, Copy, PartialEq, Eq, Structural)]
pub enum InstanceError {
    VulkanUnavailable,
    VulkanVersionUnavailable,
    VulkanVersion1_1Unavailable,
    VulkanVersion1_2Unavailable,
    VulkanVersion1_3Unavailable,
    VulkanVersion1_4Unavailable,
    FailedToCreateInstance,
    FailedToCreateDebugMessenger,
    RequestedLayersUnavailable,
    RequestedExtensionsUnavailable,
    WindowingExtensionsUnavailable,
    /// A string handed to Vulkan holds a nul byte; the payload is its byte position.
    InvalidString(usize),
    /// An enumeration call failed; the payload is the raw `VkResult`.
    FailedToEnumerate(i32),
}

/// Why no physical device could be selected.
#[derive(Debug, Clone, Copy, PartialEq, Eq, Structural)]
pub enum PhysicalDeviceError {
    NoSurfaceProvided,
    FailedEnumeratePhysicalDevices,
    NoPhysicalDevicesFound,
    NoSuitableDevice,
}

/// Why a logical device could not be created.
#[derive(Debug, Clone, Copy, PartialEq, Eq, Structural)]
pub enum DeviceError {
    FailedToCreateDevice,
    VkPhysicalDeviceFeatures2InPNextChainWhileUsingAddRequiredExtensionFeatures,
}

/// Why a queue could not be found.
#[derive(Debug, Clone, Copy, PartialEq, Eq, Structural)]
pub enum QueueError {
    PresentUnavailable,
    GraphicsUnavailable,
    ComputeUnavailable,
    TransferUnavailable,
    QueueIndexOutOfBounds,
    InvalidQueueFamilyIndex,
}

/// Why a swapchain could not be built.
#[derive(Debug, Clone, Copy, PartialEq, Eq, Structural)]
pub enum SwapchainError {
    SurfaceHandleNotProvided,
    FailedToQuerySurfaceSupportDetails,
    FailedToCreateSwapchain,
    FailedToGetSwapchainImages,
    FailedToCreateSwapchainImageViews,
    RequiredMinImageCountTooLow,
    RequiredUsageNotSupported,
}

/// Why the support details of a surface could not be gathered or used.
#[derive(Debug, Clone, Copy, PartialEq, Eq, Structural)]
pub enum SurfaceSupportError {
    SurfaceHandleNull,
    FailedToGetSurfaceCapabilities,
    FailedToEnumerateSurfaceFormats,
    FailedToEnumeratePresentModes,
    NoSuitableDesiredFormat,
}

} // verus!
