//! The configuration and decision steps of instance, physical device, device and
//! swapchain creation, on values the loader and driver would report.

use ash::vk;
use ash_bootstrap::device::{Device, DeviceBuilder, QueueType};
use ash_bootstrap::errors::{
    DeviceError, InstanceError, PhysicalDeviceError, QueueError, SurfaceSupportError,
    SwapchainError,
};
use ash_bootstrap::feature_chain::{GenericFeatureChain, GenericFeatureNode, NODE_FIELD_CAPACITY};
use ash_bootstrap::features::{
    combine_features, PhysicalDeviceFeatures, SupportsFeatures, FEATURE_COUNT, GEOMETRY_SHADER,
    TESSELLATION_SHADER,
};
use ash_bootstrap::instance::{Instance, InstanceBuilder, WindowingPlatform};
use ash_bootstrap::model;
use ash_bootstrap::model::{
    Extent2D, Extent3D, MemoryHeap, PhysicalDeviceProperties, QueueFamilyProperties,
    SurfaceCapabilities, SurfaceFormat,
};
use ash_bootstrap::physical_device::{
    DeviceDetails, Features2Query, PhysicalDevice, PhysicalDeviceSelector,
    PhysicalDeviceSuitability,
};
use ash_bootstrap::swapchain::{Swapchain, SwapchainBuilder};
use ash_bootstrap::system_info::{
    find_nul, SystemInfo, EXT_DEBUG_UTILS_NAME, VALIDATION_LAYER_NAME,
};
use ash_bootstrap::utils::{get_present_queue_index, SurfaceSupportDetails};

fn strings(v: &[&str]) -> Vec<String> {
    v.iter().map(|s| s.to_string()).collect()
}

fn family(flags: vk::QueueFlags) -> QueueFamilyProperties {
    QueueFamilyProperties {
        queue_flags: flags.as_raw(),
        queue_count: 1,
        timestamp_valid_bits: 0,
        min_image_transfer_granularity: Extent3D { width: 1, height: 1, depth: 1 },
    }
}

fn properties(name: &str, api_version: u32, device_type: vk::PhysicalDeviceType) -> PhysicalDeviceProperties {
    PhysicalDeviceProperties {
        api_version,
        driver_version: 1,
        vendor_id: 2,
        device_id: 3,
        device_type: device_type.as_raw(),
        device_name: name.to_string(),
    }
}

fn details(name: &str, device_type: vk::PhysicalDeviceType, extensions: &[&str]) -> DeviceDetails {
    DeviceDetails {
        physical_device: 7,
        properties: properties(name, vk::API_VERSION_1_3, device_type),
        features: PhysicalDeviceFeatures::new().geometry_shader(true),
        memory_heaps: vec![MemoryHeap { size: 1 << 30, flags: vk::MemoryHeapFlags::DEVICE_LOCAL.as_raw() }],
        queue_families: vec![
            family(vk::QueueFlags::GRAPHICS | vk::QueueFlags::COMPUTE | vk::QueueFlags::TRANSFER),
            family(vk::QueueFlags::COMPUTE),
        ],
        available_extensions: Some(strings(extensions)),
        feature_chain: GenericFeatureChain::new(),
        present_support: vec![true, false],
        has_surface_formats: true,
        has_present_modes: true,
    }
}

fn headless_instance() -> Instance {
    Instance {
        debug_messenger: None,
        instance_version: vk::API_VERSION_1_3,
        api_version: vk::API_VERSION_1_1,
        headless: true,
        properties2_ext_enabled: false,
    }
}

fn sys(layers: &[&str], extensions: &[&str], version: Option<u32>) -> SystemInfo {
    SystemInfo::from_properties(strings(layers), strings(extensions), version)
}

fn capabilities(min_count: u32, max_count: u32) -> SurfaceCapabilities {
    SurfaceCapabilities {
        min_image_count: min_count,
        max_image_count: max_count,
        current_extent: Extent2D { width: 800, height: 600 },
        min_image_extent: Extent2D { width: 1, height: 1 },
        max_image_extent: Extent2D { width: 4096, height: 4096 },
        max_image_array_layers: 1,
        supported_transforms: 1,
        current_transform: 1,
        supported_composite_alpha: 1,
        supported_usage_flags: vk::ImageUsageFlags::COLOR_ATTACHMENT.as_raw(),
    }
}

fn support(min_count: u32, max_count: u32) -> SurfaceSupportDetails {
    SurfaceSupportDetails {
        capabilities: capabilities(min_count, max_count),
        formats: vec![SurfaceFormat {
            format: vk::Format::R8G8B8A8_SRGB.as_raw(),
            color_space: vk::ColorSpaceKHR::SRGB_NONLINEAR.as_raw(),
        }],
        present_modes: vec![vk::PresentModeKHR::FIFO.as_raw(), vk::PresentModeKHR::MAILBOX.as_raw()],
    }
}

fn device_with_surface() -> Device {
    Device {
        physical_device: 7,
        surface: Some(9),
        queue_families: vec![
            family(vk::QueueFlags::GRAPHICS | vk::QueueFlags::COMPUTE | vk::QueueFlags::TRANSFER),
            family(vk::QueueFlags::COMPUTE | vk::QueueFlags::TRANSFER),
            family(vk::QueueFlags::TRANSFER),
        ],
        instance_version: vk::API_VERSION_1_3,
        present_support: vec![false, true, false],
    }
}

#[test]
fn constants_match_vulkan() {
    assert_eq!(model::API_VERSION_1_0, vk::API_VERSION_1_0);
    assert_eq!(model::API_VERSION_1_1, vk::API_VERSION_1_1);
    assert_eq!(model::API_VERSION_1_2, vk::API_VERSION_1_2);
    assert_eq!(model::API_VERSION_1_3, vk::API_VERSION_1_3);
    assert_eq!(model::QUEUE_GRAPHICS, vk::QueueFlags::GRAPHICS.as_raw());
    assert_eq!(model::QUEUE_COMPUTE, vk::QueueFlags::COMPUTE.as_raw());
    assert_eq!(model::QUEUE_TRANSFER, vk::QueueFlags::TRANSFER.as_raw());
    assert_eq!(model::FORMAT_B8G8R8A8_SRGB, vk::Format::B8G8R8A8_SRGB.as_raw());
    assert_eq!(model::FORMAT_R8G8B8A8_SRGB, vk::Format::R8G8B8A8_SRGB.as_raw());
    assert_eq!(model::PRESENT_MODE_FIFO, vk::PresentModeKHR::FIFO.as_raw());
    assert_eq!(model::PRESENT_MODE_MAILBOX, vk::PresentModeKHR::MAILBOX.as_raw());
    assert_eq!(model::PRESENT_MODE_FIFO_RELAXED, vk::PresentModeKHR::FIFO_RELAXED.as_raw());
    assert_eq!(model::IMAGE_USAGE_COLOR_ATTACHMENT, vk::ImageUsageFlags::COLOR_ATTACHMENT.as_raw());
    assert_eq!(model::COMPOSITE_ALPHA_INHERIT, vk::CompositeAlphaFlagsKHR::INHERIT.as_raw());
    assert_eq!(model::PHYSICAL_DEVICE_TYPE_DISCRETE_GPU, vk::PhysicalDeviceType::DISCRETE_GPU.as_raw());
    assert_eq!(
        model::STRUCTURE_TYPE_PHYSICAL_DEVICE_FEATURES_2,
        vk::StructureType::PHYSICAL_DEVICE_FEATURES_2.as_raw()
    );
    assert_eq!(
        model::STRUCTURE_TYPE_IMAGE_VIEW_CREATE_INFO,
        vk::StructureType::IMAGE_VIEW_CREATE_INFO.as_raw()
    );
    assert_eq!(model::KHR_SWAPCHAIN_NAME, vk::KHR_SWAPCHAIN_NAME.to_str().unwrap());
    assert_eq!(model::KHR_SURFACE_NAME, vk::KHR_SURFACE_NAME.to_str().unwrap());
    assert_eq!(model::KHR_XCB_SURFACE_NAME, vk::KHR_XCB_SURFACE_NAME.to_str().unwrap());
    assert_eq!(model::KHR_WAYLAND_SURFACE_NAME, vk::KHR_WAYLAND_SURFACE_NAME.to_str().unwrap());
    assert_eq!(
        model::KHR_PORTABILITY_SUBSET_NAME,
        vk::KHR_PORTABILITY_SUBSET_NAME.to_str().unwrap()
    );
    assert_eq!(EXT_DEBUG_UTILS_NAME, vk::EXT_DEBUG_UTILS_NAME.to_str().unwrap());
    assert_eq!(
        model::KHR_GET_PHYSICAL_DEVICE_PROPERTIES2_NAME,
        vk::KHR_GET_PHYSICAL_DEVICE_PROPERTIES2_NAME.to_str().unwrap()
    );
}

#[test]
fn app_version_is_encoded() {
    let b = InstanceBuilder::new().set_app_version(1, 2, 3);
    assert_eq!(b.info.app_version, vk::make_api_version(0, 1, 2, 3));
    assert_eq!(b.info.app_version, (1 << 22) | (2 << 12) | 3);
    let b = b.require_api_version(1, 3, 0).set_minimum_instance_version(1, 1, 0);
    assert_eq!(b.info.required_api_version, vk::API_VERSION_1_3);
    assert_eq!(b.info.minimum_instance_version, vk::API_VERSION_1_1);
}

#[test]
fn system_info_reads_loader_report() {
    let s = sys(&[VALIDATION_LAYER_NAME], &["VK_KHR_surface"], None);
    assert!(s.validation_layers_available);
    assert!(!s.debug_utils_available);
    assert_eq!(s.instance_api_version, vk::API_VERSION_1_0);
    assert!(s.is_layer_available(VALIDATION_LAYER_NAME));
    assert!(s.is_extension_available("VK_KHR_surface"));
    assert!(!s.is_extension_available("VK_KHR_xcb_surface"));
    assert!(s.extensions_supported(&strings(&["VK_KHR_surface"])));
    assert!(!s.layers_supported(&strings(&["VK_LAYER_other"])));
    let s = sys(&[], &[EXT_DEBUG_UTILS_NAME], Some(vk::API_VERSION_1_2));
    assert!(s.debug_utils_available);
    assert!(s.is_instance_version_available(1, 2, 0));
    assert!(!s.is_instance_version_available(1, 3, 0));
    assert!(s.is_instance_version_available_raw(vk::API_VERSION_1_1));
}

#[test]
fn headless_plan_needs_no_window_extensions() {
    let b = InstanceBuilder::new().set_headless(true).set_app_name("app");
    let s = sys(&[], &[], None);
    let plan = b.plan(&s, None, WindowingPlatform::LinuxOrBsd).unwrap();
    assert_eq!(plan.instance_version, vk::API_VERSION_1_0);
    assert_eq!(plan.api_version, vk::API_VERSION_1_0);
    assert!(plan.extensions.is_empty());
    assert!(plan.layers.is_empty());
    assert!(!plan.portability_enumeration);
    assert!(plan.chain_validation_features);
    assert!(!plan.chain_validation_flags);
}

#[test]
fn plan_adds_window_and_debug_extensions() {
    let b = InstanceBuilder::new()
        .use_default_debug_messenger()
        .request_validation_layers(true)
        .enable_extension("VK_KHR_portability_enumeration");
    let s = sys(
        &[VALIDATION_LAYER_NAME],
        &[
            "VK_KHR_surface",
            "VK_KHR_wayland_surface",
            EXT_DEBUG_UTILS_NAME,
            "VK_KHR_get_physical_device_properties2",
            "VK_KHR_portability_enumeration",
        ],
        None,
    );
    let plan = b.plan(&s, None, WindowingPlatform::LinuxOrBsd).unwrap();
    assert_eq!(
        plan.extensions,
        strings(&[
            "VK_KHR_portability_enumeration",
            EXT_DEBUG_UTILS_NAME,
            "VK_KHR_get_physical_device_properties2",
            "VK_KHR_portability_enumeration",
            "VK_KHR_surface",
            "VK_KHR_wayland_surface",
        ])
    );
    assert_eq!(plan.layers, strings(&[VALIDATION_LAYER_NAME]));
    assert!(plan.properties2_ext_enabled);
    assert!(plan.portability_enumeration);
    assert!(plan.chain_debug_messenger);
}

#[test]
fn plan_reports_version_errors() {
    let s = sys(&[], &[], None);
    let b = InstanceBuilder::new().set_headless(true).require_api_version(1, 3, 0);
    assert_eq!(
        b.plan(&s, Some(vk::API_VERSION_1_2), WindowingPlatform::Other).unwrap_err(),
        InstanceError::VulkanVersion1_3Unavailable
    );
    assert_eq!(
        b.plan(&s, None, WindowingPlatform::Other).unwrap_err(),
        InstanceError::VulkanVersionUnavailable
    );
    let b2 = InstanceBuilder::new().set_headless(true).require_api_version(1, 1, 0);
    assert_eq!(
        b2.plan(&s, Some(vk::API_VERSION_1_0), WindowingPlatform::Other).unwrap_err(),
        InstanceError::VulkanVersion1_1Unavailable
    );
    let ok = b.plan(&s, Some(vk::API_VERSION_1_3), WindowingPlatform::Other).unwrap();
    assert_eq!(ok.instance_version, vk::API_VERSION_1_3);
    assert_eq!(ok.api_version, vk::API_VERSION_1_3);
    let b3 = InstanceBuilder::new()
        .set_headless(true)
        .set_minimum_instance_version(1, 2, 0)
        .require_api_version(1, 4, 0);
    assert_eq!(
        b3.plan(&s, Some(vk::API_VERSION_1_1), WindowingPlatform::Other).unwrap_err(),
        InstanceError::VulkanVersion1_4Unavailable
    );
    assert!(b.needs_version_query());
    assert!(!InstanceBuilder::new().needs_version_query());
}

#[test]
fn plan_reports_missing_extensions_and_layers() {
    let s = sys(&[], &["VK_KHR_surface"], None);
    let windowed = InstanceBuilder::new();
    assert_eq!(
        windowed.plan(&s, None, WindowingPlatform::LinuxOrBsd).unwrap_err(),
        InstanceError::WindowingExtensionsUnavailable
    );
    let ext = InstanceBuilder::new().set_headless(true).enable_extension("VK_EXT_missing");
    assert_eq!(
        ext.plan(&s, None, WindowingPlatform::LinuxOrBsd).unwrap_err(),
        InstanceError::RequestedExtensionsUnavailable
    );
    let layer = InstanceBuilder::new().set_headless(true).enable_validation_layers(true);
    assert_eq!(
        layer.plan(&s, None, WindowingPlatform::LinuxOrBsd).unwrap_err(),
        InstanceError::RequestedLayersUnavailable
    );
    let layer2 = InstanceBuilder::new().set_headless(true).enable_layer("VK_LAYER_x");
    assert_eq!(
        layer2.plan(&s, None, WindowingPlatform::LinuxOrBsd).unwrap_err(),
        InstanceError::RequestedLayersUnavailable
    );
}

#[test]
fn plan_reports_names_with_nul() {
    let s = sys(&["VK_LAYER_x"], &["VK_EXT_a"], None);
    let headless = || InstanceBuilder::new().set_headless(true);
    assert_eq!(
        headless().set_app_name("a\0b").plan(&s, None, WindowingPlatform::Other).unwrap_err(),
        InstanceError::InvalidString(1)
    );
    assert_eq!(
        headless().set_engine_name("\u{e9}\0").plan(&s, None, WindowingPlatform::Other).unwrap_err(),
        InstanceError::InvalidString(2)
    );
    assert_eq!(
        headless()
            .enable_extension("VK_EXT_a")
            .enable_extension("VK\0x")
            .enable_extension("\0")
            .plan(&s, None, WindowingPlatform::Other)
            .unwrap_err(),
        InstanceError::InvalidString(2)
    );
    let version_first = headless().set_app_name("\0").require_api_version(1, 1, 0);
    assert_eq!(
        version_first.plan(&s, None, WindowingPlatform::Other).unwrap_err(),
        InstanceError::VulkanVersionUnavailable
    );
    let bad_layer = headless().enable_layer("VK_LAYER_\0");
    assert_eq!(
        bad_layer.clone().enable_extension("VK_EXT_missing").plan(&s, None, WindowingPlatform::Other).unwrap_err(),
        InstanceError::RequestedExtensionsUnavailable
    );
    assert_eq!(
        bad_layer.plan(&s, None, WindowingPlatform::Other).unwrap_err(),
        InstanceError::InvalidString(9)
    );
    assert_eq!(find_nul("abc"), None);
    assert_eq!(find_nul("ab\0c\0"), Some(2));
}

#[test]
fn validation_layer_follows_layer_list() {
    let mut s = sys(&[VALIDATION_LAYER_NAME], &[EXT_DEBUG_UTILS_NAME], None);
    s.validation_layers_available = false;
    s.debug_utils_available = false;
    let b = InstanceBuilder::new()
        .set_headless(true)
        .request_validation_layers(true)
        .use_default_debug_messenger();
    let plan = b.plan(&s, None, WindowingPlatform::Other).unwrap();
    assert_eq!(plan.layers, strings(&[VALIDATION_LAYER_NAME]));
    assert_eq!(plan.extensions, strings(&[EXT_DEBUG_UTILS_NAME]));
}

#[test]
fn instance_has_messenger_exactly_when_planned() {
    let s = sys(&[], &[EXT_DEBUG_UTILS_NAME], None);
    let with = InstanceBuilder::new().set_headless(true).use_default_debug_messenger();
    let plan = with.plan(&s, None, WindowingPlatform::Other).unwrap();
    assert!(plan.chain_debug_messenger);
    assert_eq!(
        Instance::from_plan(&with, &plan, None).unwrap_err(),
        InstanceError::FailedToCreateDebugMessenger
    );
    let inst = Instance::from_plan(&with, &plan, Some(5)).unwrap();
    assert_eq!(inst.debug_messenger, Some(5));
    assert!(inst.headless);
    let without = InstanceBuilder::new().set_headless(true);
    let plan = without.plan(&s, None, WindowingPlatform::Other).unwrap();
    assert_eq!(Instance::from_plan(&without, &plan, Some(5)).unwrap().debug_messenger, None);
    assert_eq!(Instance::from_plan(&without, &plan, None).unwrap().api_version, vk::API_VERSION_1_0);
}

#[test]
fn instance_builder_setters() {
    let b = InstanceBuilder::default()
        .set_engine_name("engine")
        .enable_extensions(&["a", "b"])
        .add_debug_messenger_severity(vk::DebugUtilsMessageSeverityFlagsEXT::INFO.as_raw())
        .set_debug_messenger_type(vk::DebugUtilsMessageTypeFlagsEXT::GENERAL.as_raw())
        .add_validation_disable(1)
        .add_validation_feature_enable(2)
        .add_validation_feature_disable(3)
        .add_layer_setting();
    assert_eq!(b.info.engine_name, "engine");
    assert_eq!(b.info.enabled_extensions, strings(&["a", "b"]));
    assert_eq!(
        b.info.debug_message_severity,
        (vk::DebugUtilsMessageSeverityFlagsEXT::WARNING
            | vk::DebugUtilsMessageSeverityFlagsEXT::ERROR
            | vk::DebugUtilsMessageSeverityFlagsEXT::INFO)
            .as_raw()
    );
    assert_eq!(b.info.debug_message_type, 1);
    assert_eq!(b.info.disabled_validation_checks, vec![1]);
    assert_eq!(b.info.layer_setting_count, 1);
    let s = sys(&[], &["VK_EXT_layer_settings"], None);
    let plan = b.set_headless(true).enable_extensions(&[]).plan(&s, None, WindowingPlatform::Other);
    assert_eq!(plan.unwrap_err(), InstanceError::RequestedExtensionsUnavailable);
}

#[test]
fn selector_ranks_suitable_before_partial() {
    let inst = headless_instance();
    let selector = PhysicalDeviceSelector::new(&inst).allow_any_gpu_device_type(false);
    assert!(!selector.criteria.require_present);
    let integrated = selector.populate_device_details(details("igpu", vk::PhysicalDeviceType::INTEGRATED_GPU, &[]));
    let discrete = selector.populate_device_details(details("dgpu", vk::PhysicalDeviceType::DISCRETE_GPU, &[]));
    assert_eq!(selector.is_device_suitable(&integrated), PhysicalDeviceSuitability::PartiallySuitable);
    assert_eq!(selector.is_device_suitable(&discrete), PhysicalDeviceSuitability::Suitable);
    let names = selector
        .select_device_names(Some(vec![
            selector.populate_device_details(details("igpu", vk::PhysicalDeviceType::INTEGRATED_GPU, &[])),
            selector.populate_device_details(details("dgpu", vk::PhysicalDeviceType::DISCRETE_GPU, &[])),
        ]))
        .unwrap();
    assert_eq!(names, strings(&["dgpu", "igpu"]));
    let first = selector.select(Some(vec![integrated, discrete])).unwrap();
    assert_eq!(first.name, "dgpu");
    assert_eq!(first.suitability, PhysicalDeviceSuitability::Suitable);
}

#[test]
fn selection_keeps_every_usable_device() {
    let inst = headless_instance();
    let selector = PhysicalDeviceSelector::new(&inst)
        .allow_any_gpu_device_type(false)
        .add_required_extension("VK_KHR_swapchain");
    let device = |name: &str, ty: vk::PhysicalDeviceType, exts: &[&str]| {
        selector.populate_device_details(details(name, ty, exts))
    };
    let names = selector
        .select_device_names(Some(vec![
            device("igpu", vk::PhysicalDeviceType::INTEGRATED_GPU, &["VK_KHR_swapchain"]),
            device("dgpu", vk::PhysicalDeviceType::DISCRETE_GPU, &[]),
            device("dgpu2", vk::PhysicalDeviceType::DISCRETE_GPU, &["VK_KHR_swapchain"]),
            device("cpu", vk::PhysicalDeviceType::CPU, &["VK_KHR_swapchain"]),
        ]))
        .unwrap();
    assert_eq!(names, strings(&["dgpu2", "igpu", "cpu"]));
}

#[test]
fn select_is_first_of_select_devices() {
    let inst = headless_instance();
    let selector = PhysicalDeviceSelector::new(&inst).allow_any_gpu_device_type(false);
    let devices = || {
        Some(vec![
            selector.populate_device_details(details("igpu", vk::PhysicalDeviceType::INTEGRATED_GPU, &[])),
            selector.populate_device_details(details("dgpu", vk::PhysicalDeviceType::DISCRETE_GPU, &[])),
        ])
    };
    let one = selector.select(devices()).unwrap();
    let all = selector.select_devices(devices()).unwrap();
    assert_eq!(all.len(), 2);
    assert_eq!(one.name, all[0].name);
    assert_eq!(one.suitability, all[0].suitability);
    assert_eq!(one.extensions_to_enable, all[0].extensions_to_enable);
    assert_eq!(selector.select(None).unwrap_err(), selector.select_devices(None).unwrap_err());
    let picky = PhysicalDeviceSelector::new(&inst).set_name("none");
    let d = || Some(vec![picky.populate_device_details(details("gpu", vk::PhysicalDeviceType::DISCRETE_GPU, &[]))]);
    assert_eq!(picky.select(d()).unwrap_err(), PhysicalDeviceError::NoSuitableDevice);
    assert_eq!(picky.select_devices(d()).unwrap_err(), PhysicalDeviceError::NoSuitableDevice);
}

#[test]
fn selector_rejects_unsuitable_devices() {
    let inst = headless_instance();
    let base = PhysicalDeviceSelector::new(&inst);
    let pd = |s: &PhysicalDeviceSelector| {
        s.populate_device_details(details("gpu", vk::PhysicalDeviceType::DISCRETE_GPU, &["VK_KHR_swapchain"]))
    };
    let unsuitable = PhysicalDeviceSuitability::Unsuitable;
    let s = PhysicalDeviceSelector::new(&inst).set_name("other");
    assert_eq!(s.is_device_suitable(&pd(&s)), unsuitable);
    let s = PhysicalDeviceSelector::new(&inst).set_minimum_version(1, 4);
    assert_eq!(s.is_device_suitable(&pd(&s)), unsuitable);
    let s = PhysicalDeviceSelector::new(&inst).require_dedicated_transfer_queue();
    assert_eq!(s.is_device_suitable(&pd(&s)), unsuitable);
    let s = PhysicalDeviceSelector::new(&inst).require_dedicated_compute_queue();
    assert_eq!(s.is_device_suitable(&pd(&s)), PhysicalDeviceSuitability::Suitable);
    let s = PhysicalDeviceSelector::new(&inst).require_separate_transfer_queue();
    assert_eq!(s.is_device_suitable(&pd(&s)), unsuitable);
    let s = PhysicalDeviceSelector::new(&inst).add_required_extension("VK_KHR_missing");
    assert_eq!(s.is_device_suitable(&pd(&s)), unsuitable);
    let s = PhysicalDeviceSelector::new(&inst).add_required_extensions(&["VK_KHR_swapchain"]);
    assert_eq!(s.is_device_suitable(&pd(&s)), PhysicalDeviceSuitability::Suitable);
    let s = PhysicalDeviceSelector::new(&inst).required_device_memory_size(1 << 31);
    assert_eq!(s.is_device_suitable(&pd(&s)), unsuitable);
    let s = PhysicalDeviceSelector::new(&inst)
        .set_required_features(&PhysicalDeviceFeatures::new().tessellation_shader(true));
    assert_eq!(s.is_device_suitable(&pd(&s)), unsuitable);
    let s = PhysicalDeviceSelector::new(&inst)
        .set_required_features(&PhysicalDeviceFeatures::new().geometry_shader(true));
    assert_eq!(s.is_device_suitable(&pd(&s)), PhysicalDeviceSuitability::Suitable);
    let s = PhysicalDeviceSelector::new(&inst).require_present(true).set_surface(9);
    let mut no_present = pd(&s);
    no_present.present_support = vec![false, false];
    assert_eq!(s.is_device_suitable(&no_present), unsuitable);
    assert_eq!(s.is_device_suitable(&pd(&s)), PhysicalDeviceSuitability::Suitable);
    let s = s.defer_surface_initialization();
    assert_eq!(s.is_device_suitable(&no_present), PhysicalDeviceSuitability::Suitable);
    assert_eq!(base.is_device_suitable(&pd(&base)), PhysicalDeviceSuitability::Suitable);
}

#[test]
fn selector_errors() {
    let inst = headless_instance();
    let windowed = PhysicalDeviceSelector::new(&inst).require_present(true);
    assert_eq!(windowed.select(Some(vec![])).unwrap_err(), PhysicalDeviceError::NoSurfaceProvided);
    let s = PhysicalDeviceSelector::new(&inst);
    assert_eq!(s.select(None).unwrap_err(), PhysicalDeviceError::FailedEnumeratePhysicalDevices);
    assert_eq!(s.select(Some(vec![])).unwrap_err(), PhysicalDeviceError::NoPhysicalDevicesFound);
    let picky = PhysicalDeviceSelector::new(&inst).set_name("none");
    let d = picky.populate_device_details(details("gpu", vk::PhysicalDeviceType::DISCRETE_GPU, &[]));
    assert_eq!(picky.select_devices(Some(vec![d])).unwrap_err(), PhysicalDeviceError::NoSuitableDevice);
    let first = PhysicalDeviceSelector::new(&inst).set_name("none").select_first_gpu_unconditionally(true);
    let d = first.populate_device_details(details("gpu", vk::PhysicalDeviceType::DISCRETE_GPU, &[]));
    assert_eq!(first.select(Some(vec![d])).unwrap().name, "gpu");
}

#[test]
fn selected_device_gets_portability_subset() {
    let inst = headless_instance();
    let s = PhysicalDeviceSelector::new(&inst).add_required_extension("VK_KHR_swapchain");
    let d = s.populate_device_details(details(
        "gpu",
        vk::PhysicalDeviceType::DISCRETE_GPU,
        &["VK_KHR_swapchain", "VK_KHR_portability_subset"],
    ));
    let selected = s.select(Some(vec![d])).unwrap();
    assert_eq!(selected.get_extensions(), strings(&["VK_KHR_swapchain", "VK_KHR_portability_subset"]));
    let s = s.disable_portability_subset();
    let d = s.populate_device_details(details(
        "gpu",
        vk::PhysicalDeviceType::DISCRETE_GPU,
        &["VK_KHR_swapchain", "VK_KHR_portability_subset"],
    ));
    let selected = s.select(Some(vec![d])).unwrap();
    assert_eq!(selected.get_extensions(), strings(&["VK_KHR_swapchain"]));
    assert_eq!(selected.features.flags, [0; FEATURE_COUNT]);
}

#[test]
fn enabling_an_extension_twice_enables_it_once() {
    let inst = headless_instance();
    let s = PhysicalDeviceSelector::new(&inst);
    let mut d = s.populate_device_details(details("gpu", vk::PhysicalDeviceType::DISCRETE_GPU, &["a", "b"]));
    assert!(d.is_extension_present("a"));
    assert!(d.enable_extension_if_present("a"));
    assert!(!d.enable_extension_if_present("a"));
    assert!(!d.enable_extension_if_present("c"));
    assert!(d.enable_extensions_if_present(&["b"]));
    assert!(!d.enable_extensions_if_present(&["a", "b"]));
    assert_eq!(d.get_extensions(), strings(&["a", "b"]));
    assert_eq!(d.get_available_extensions(), strings(&["a", "b"]));
    assert_eq!(d.get_queue_families().len(), 2);
    assert!(d.has_dedicated_compute_queue());
    assert!(!d.has_dedicated_transfer_queue());
    assert!(d.has_separate_compute_queue());
    assert!(!d.has_separate_transfer_queue());
}

#[test]
fn features2_query_follows_instance_version() {
    let inst = headless_instance();
    let s = PhysicalDeviceSelector::new(&inst);
    assert_eq!(s.features2_query(), Features2Query::Skip);
    let node = GenericFeatureNode::from_raw(vk::StructureType::PHYSICAL_DEVICE_VULKAN_1_1_FEATURES.as_raw(), &[0, 0, 0, 0, 1]);
    let s = s.set_required_additional_features(node);
    assert_eq!(s.features2_query(), Features2Query::Core);
    let old = Instance { instance_version: vk::API_VERSION_1_0, properties2_ext_enabled: true, ..inst };
    let s = PhysicalDeviceSelector::new(&old).set_required_additional_features(node);
    assert_eq!(s.features2_query(), Features2Query::Extension);
}

#[test]
fn device_plan_defaults() {
    let inst = headless_instance();
    let s = PhysicalDeviceSelector::new_with_surface(&inst, Some(9)).add_required_extension("VK_KHR_maintenance1");
    let d = s.populate_device_details(details("gpu", vk::PhysicalDeviceType::DISCRETE_GPU, &["VK_KHR_maintenance1"]));
    let pd = s.select(Some(vec![d])).unwrap();
    let plan = DeviceBuilder::new(pd).plan().unwrap();
    assert_eq!(plan.queue_families, vec![0, 1]);
    assert!(plan.default_priorities);
    assert_eq!(plan.extensions, strings(&["VK_KHR_maintenance1", "VK_KHR_swapchain"]));
    assert!(!plan.features_in_create_info);
    assert!(plan.features.has_feature(GEOMETRY_SHADER) == false);
}

#[test]
fn device_plan_custom_queues_and_features2_conflict() {
    let inst = Instance { instance_version: vk::API_VERSION_1_0, api_version: vk::API_VERSION_1_0, ..headless_instance() };
    let node = GenericFeatureNode::from_raw(vk::StructureType::PHYSICAL_DEVICE_VULKAN_1_1_FEATURES.as_raw(), &[1]);
    let s = PhysicalDeviceSelector::new(&inst);
    let d = s.populate_device_details(details("gpu", vk::PhysicalDeviceType::DISCRETE_GPU, &[]));
    let pd = s.select(Some(vec![d])).unwrap();
    let plan = DeviceBuilder::new(pd).custom_queue_setup(vec![1]).plan().unwrap();
    assert_eq!(plan.queue_families, vec![1]);
    assert!(!plan.default_priorities);
    assert!(plan.features_in_create_info);
    assert!(plan.extensions.is_empty());

    let s = PhysicalDeviceSelector::new(&inst).set_required_additional_features(node);
    let mut det = details("gpu", vk::PhysicalDeviceType::DISCRETE_GPU, &[]);
    det.feature_chain = s.criteria.feature_chain.copy_chain();
    let d = s.populate_device_details(det);
    let pd = s.select(Some(vec![d])).unwrap();
    let mut builder = DeviceBuilder::new(pd);
    builder.device_info.p_next_chain.push(GenericFeatureNode::from_raw(
        vk::StructureType::PHYSICAL_DEVICE_FEATURES_2.as_raw(),
        &[],
    ));
    assert_eq!(
        builder.plan().unwrap_err(),
        DeviceError::VkPhysicalDeviceFeatures2InPNextChainWhileUsingAddRequiredExtensionFeatures
    );
}

#[test]
fn device_queue_indices() {
    let d = device_with_surface();
    assert_eq!(d.get_queue_index(QueueType::Present), Ok(1));
    assert_eq!(d.get_queue_index(QueueType::Graphics), Ok(0));
    assert_eq!(d.get_queue_index(QueueType::Compute), Ok(1));
    assert_eq!(d.get_queue_index(QueueType::Transfer), Ok(2));
    assert_eq!(d.get_dedicated_queue_index(QueueType::Transfer), Ok(2));
    assert_eq!(d.get_dedicated_queue_index(QueueType::Compute), Err(QueueError::ComputeUnavailable));
    assert_eq!(d.get_dedicated_queue_index(QueueType::Graphics), Err(QueueError::InvalidQueueFamilyIndex));
    let no_surface = Device { surface: None, ..device_with_surface() };
    assert_eq!(no_surface.get_queue_index(QueueType::Present), Err(QueueError::PresentUnavailable));
    let compute_only = Device { queue_families: vec![family(vk::QueueFlags::COMPUTE)], present_support: vec![false], ..device_with_surface() };
    assert_eq!(compute_only.get_queue_index(QueueType::Graphics), Err(QueueError::GraphicsUnavailable));
    assert_eq!(compute_only.get_queue_index(QueueType::Transfer), Err(QueueError::TransferUnavailable));
    assert_eq!(compute_only.get_queue_index(QueueType::Present), Err(QueueError::PresentUnavailable));
    assert_eq!(get_present_queue_index(&[false, false, true]), Some(2));
}

#[test]
fn swapchain_plan_choices() {
    let device = device_with_surface();
    let b = SwapchainBuilder::new(&device, WindowingPlatform::LinuxOrBsd);
    assert_eq!(b.info.graphics_queue_index, 0);
    assert_eq!(b.info.present_queue_index, 1);
    assert_eq!(b.info.composite_alpha, vk::CompositeAlphaFlagsKHR::OPAQUE.as_raw());
    let plan = b.plan(Ok(support(2, 3))).unwrap();
    assert_eq!(plan.min_image_count, 3);
    assert_eq!(plan.surface_format.format, vk::Format::R8G8B8A8_SRGB.as_raw());
    assert_eq!(plan.present_mode, vk::PresentModeKHR::MAILBOX.as_raw());
    assert_eq!(plan.extent, Extent2D { width: 800, height: 600 });
    assert_eq!(plan.image_array_layers, 1);
    assert!(plan.concurrent_sharing);
    assert_eq!(plan.pre_transform, 1);
    assert_eq!(plan.old_swapchain, 0);
    let capped = SwapchainBuilder::new(&device, WindowingPlatform::Android).set_desired_min_image_count(8);
    assert_eq!(capped.info.composite_alpha, vk::CompositeAlphaFlagsKHR::INHERIT.as_raw());
    assert_eq!(capped.plan(Ok(support(2, 3))).unwrap().min_image_count, 3);
    let raised = SwapchainBuilder::new(&device, WindowingPlatform::Other).set_desired_min_image_count(1);
    assert_eq!(raised.plan(Ok(support(2, 0))).unwrap().min_image_count, 2);
    let fifo = SwapchainBuilder::new(&device, WindowingPlatform::Other)
        .set_desired_present_mode(vk::PresentModeKHR::IMMEDIATE.as_raw())
        .add_fallback_format(SurfaceFormat { format: 1, color_space: 0 });
    assert_eq!(fifo.plan(Ok(support(2, 0))).unwrap().present_mode, vk::PresentModeKHR::FIFO.as_raw());
}

#[test]
fn swapchain_plan_errors() {
    let device = device_with_surface();
    let none = Device { surface: None, ..device_with_surface() };
    let b = SwapchainBuilder::new(&device, WindowingPlatform::Other);
    let mut no_surface = SwapchainBuilder::new(&device, WindowingPlatform::Other);
    no_surface.info.surface = none.surface;
    assert_eq!(no_surface.plan(Ok(support(2, 3))).unwrap_err(), SwapchainError::SurfaceHandleNotProvided);
    assert_eq!(
        b.plan(Err(SurfaceSupportError::FailedToGetSurfaceCapabilities)).unwrap_err(),
        SwapchainError::FailedToQuerySurfaceSupportDetails
    );
    let low = SwapchainBuilder::new(&device, WindowingPlatform::Other).set_required_min_image_count(1);
    assert_eq!(low.plan(Ok(support(2, 3))).unwrap_err(), SwapchainError::RequiredMinImageCountTooLow);
    let usage = SwapchainBuilder::new(&device, WindowingPlatform::Other)
        .add_image_usage_flags(vk::ImageUsageFlags::STORAGE.as_raw());
    assert_eq!(usage.plan(Ok(support(2, 3))).unwrap_err(), SwapchainError::RequiredUsageNotSupported);
    let ok = usage.use_default_image_usage_flags().set_required_min_image_count(2);
    assert_eq!(ok.plan(Ok(support(2, 3))).unwrap().min_image_count, 2);
}

#[test]
fn swapchain_builder_setters() {
    let device = device_with_surface();
    let f1 = SurfaceFormat { format: 1, color_space: 0 };
    let f2 = SurfaceFormat { format: 2, color_space: 0 };
    let b = SwapchainBuilder::new(&device, WindowingPlatform::Other)
        .add_fallback_format(f1)
        .set_desired_format(f2)
        .set_desired_extent(10, 20)
        .set_image_array_layer_count(0)
        .set_clipped(false)
        .set_create_flags(4)
        .set_pre_transform_flags(2)
        .set_composite_alpha_flags(8)
        .set_old_vk_swapchain(5)
        .add_fallback_present_mode(3);
    assert_eq!(b.info.desired_formats, vec![f2, f1]);
    assert_eq!(b.info.desired_present_modes, vec![3]);
    let b = b.use_default_format_selection().use_default_present_mode_selection();
    assert_eq!(b.info.desired_formats.len(), 2);
    assert_eq!(b.info.desired_present_modes, vec![1, 2]);
    let plan = b.plan(Ok(support(2, 3))).unwrap();
    assert_eq!(plan.image_array_layers, 1);
    assert_eq!(plan.pre_transform, 2);
    assert_eq!(plan.old_swapchain, 5);
    assert!(!plan.clipped);
    let swapchain = Swapchain::from_plan(&plan, vk::API_VERSION_1_1, 42, 3);
    assert_eq!(swapchain.image_count(), 3);
    assert_eq!(swapchain.image_format(), vk::Format::R8G8B8A8_SRGB.as_raw());
    assert_eq!(swapchain.color_space(), 0);
    assert_eq!(swapchain.extent(), Extent2D { width: 800, height: 600 });
    assert_eq!(swapchain.present_mode(), vk::PresentModeKHR::MAILBOX.as_raw());
    assert_eq!(swapchain.image_usage_flags(), vk::ImageUsageFlags::COLOR_ATTACHMENT.as_raw());
    assert!(swapchain.chains_image_view_usage(&[]));
    assert!(!swapchain.chains_image_view_usage(&[vk::StructureType::IMAGE_VIEW_CREATE_INFO.as_raw()]));
    let replaced = SwapchainBuilder::new(&device, WindowingPlatform::Other).set_old_swapchain(&swapchain);
    assert_eq!(replaced.info.old_swapchain, Some(42));
}

#[test]
fn features_combine_and_support() {
    let mut a = PhysicalDeviceFeatures::new().geometry_shader(true);
    let b = PhysicalDeviceFeatures::new().tessellation_shader(true);
    combine_features(&mut a, &b);
    assert!(a.has_feature(GEOMETRY_SHADER));
    assert!(a.has_feature(TESSELLATION_SHADER));
    assert!(b.supports(&a));
    assert!(!a.supports(&b));
    assert!(a.supports(&a));
    let mut odd = PhysicalDeviceFeatures::new();
    odd.flags[0] = 7;
    let mut z = PhysicalDeviceFeatures::default();
    combine_features(&mut z, &odd);
    assert_eq!(z.flags[0], 1);
}

#[test]
fn chain_combine_and_match() {
    let t11 = vk::StructureType::PHYSICAL_DEVICE_VULKAN_1_1_FEATURES.as_raw();
    let t12 = vk::StructureType::PHYSICAL_DEVICE_VULKAN_1_2_FEATURES.as_raw();
    let mut left = GenericFeatureChain::new();
    left.add_node(GenericFeatureNode::from_raw(t11, &[1, 0]));
    let mut right = GenericFeatureChain::default();
    right.add_node(GenericFeatureNode::from_raw(t11, &[0, 1]));
    right.add_node(GenericFeatureNode::from_raw(t12, &[1]));
    left.combine(right);
    assert_eq!(left.len(), 2);
    assert_eq!(&left.nodes()[0].fields[..3], &[1, 1, 0]);
    let mut requested = GenericFeatureChain::new();
    requested.add_node(GenericFeatureNode::from_raw(t12, &[1]));
    assert!(left.find_and_match(&requested));
    assert!(!left.contains_all(&requested));
    let mut missing = GenericFeatureChain::new();
    missing.add_node(GenericFeatureNode::from_raw(t12, &[0, 0, 1]));
    assert!(!left.find_and_match(&missing));
    let mut wider = GenericFeatureChain::new();
    wider.add_node(GenericFeatureNode::from_raw(t12, &[1, 0, 1]));
    assert!(left.find_and_match(&wider));
    let mut narrower = GenericFeatureChain::new();
    narrower.add_node(GenericFeatureNode::from_raw(t11, &[1]));
    assert!(!left.find_and_match(&narrower));
    assert!(left.same_layout_as(&left.copy_chain()));
    assert!(!left.same_layout_as(&requested));
    let n = GenericFeatureNode::default();
    assert_eq!(n.structure_type, 0);
    assert_eq!(n.fields.len(), NODE_FIELD_CAPACITY);
    let mut m = n.clone_raw();
    m.combine(&GenericFeatureNode::from_raw(0, &[5]));
    assert_eq!(m.fields[0], 1);
    assert!(!left.is_empty());
}
