//! Verified core of a Vulkan bootstrapping library: instance, physical-device,
//! logical-device and swapchain configuration, and the selection rules that
//! choose among what the driver reports.

pub mod features;
pub mod model;
pub mod vulkan;
pub mod errors;
pub mod utils;
pub mod feature_chain;
pub mod system_info;
pub mod instance;
pub mod physical_device;
pub mod device;
pub mod swapchain;
pub mod laws;
