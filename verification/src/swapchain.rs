//! Swapchain configuration, and the decisions of swapchain creation: image count,
//! format, extent, layers, present mode and sharing.

use vstd::prelude::*;

use crate::device::{Device, QueueType, is_queue_index};
use crate::errors::{SurfaceSupportError, SwapchainError};
use crate::feature_chain::{GenericFeatureChain, GenericFeatureNode, spec_add_node};
use crate::instance::WindowingPlatform;
use crate::model::{
    API_VERSION_1_0, API_VERSION_1_1, COLOR_SPACE_SRGB_NONLINEAR, COMPOSITE_ALPHA_INHERIT,
    COMPOSITE_ALPHA_OPAQUE, Extent2D, FORMAT_B8G8R8A8_SRGB, FORMAT_R8G8B8A8_SRGB,
    IMAGE_USAGE_COLOR_ATTACHMENT, PRESENT_MODE_FIFO, PRESENT_MODE_FIFO_RELAXED,
    PRESENT_MODE_IMMEDIATE, PRESENT_MODE_MAILBOX, STRUCTURE_TYPE_IMAGE_VIEW_CREATE_INFO,
    SurfaceCapabilities, SurfaceFormat,
};
use crate::utils::{
    SurfaceSupportDetails, find_best_surface_format, find_extent, find_present_mode,
    is_first_available_format, is_first_available_mode, spec_find_extent,
};

verus! {

/// The formats tried when none is desired: BGRA8 and then RGBA8, both sRGB.
pub open spec fn default_formats() -> Seq<SurfaceFormat> {
    seq![
        SurfaceFormat { format: FORMAT_B8G8R8A8_SRGB, color_space: COLOR_SPACE_SRGB_NONLINEAR },
        SurfaceFormat { format: FORMAT_R8G8B8A8_SRGB, color_space: COLOR_SPACE_SRGB_NONLINEAR },
    ]
}

/// The present modes tried when none is desired: mailbox, then FIFO.
pub open spec fn default_present_modes() -> Seq<i32> {
    seq![PRESENT_MODE_MAILBOX, PRESENT_MODE_FIFO]
}

/// The swapchain configuration.
#[derive(Debug)]
pub struct SwapchainInfo {
    /// Raw handle of the physical device.
    pub physical_device: u64,
    pub p_next_chain: GenericFeatureChain,
    pub create_flags: u32,
    /// Raw handle of the surface, if any.
    pub surface: Option<u64>,
    pub desired_formats: Vec<SurfaceFormat>,
    pub instance_version: u32,
    pub desired_width: u32,
    pub desired_height: u32,
    pub array_layer_count: u32,
    pub min_image_count: u32,
    pub required_min_image_count: u32,
    pub image_usage_flags: u32,
    pub graphics_queue_index: u32,
    pub present_queue_index: u32,
    pub pre_transform: u32,
    pub composite_alpha: u32,
    pub desired_present_modes: Vec<i32>,
    pub clipped: bool,
    /// Raw handle of the swapchain being replaced, if any.
    pub old_swapchain: Option<u64>,
}

/// The image count asked of the swapchain, or why the required count is too low.
pub open spec fn spec_image_count(info: SwapchainInfo, caps: SurfaceCapabilities) -> Result<
    u32,
    SwapchainError,
> {
    let count: int = if info.required_min_image_count >= 1 {
        info.required_min_image_count as int
    } else if info.min_image_count == 0 {
        caps.min_image_count + 1
    } else if info.min_image_count < caps.min_image_count {
        caps.min_image_count as int
    } else {
        info.min_image_count as int
    };
    if info.required_min_image_count >= 1 && info.required_min_image_count < caps.min_image_count {
        Err(SwapchainError::RequiredMinImageCountTooLow)
    } else if caps.max_image_count > 0 && count > caps.max_image_count {
        Ok(caps.max_image_count)
    } else {
        Ok(count as u32)
    }
}

/// The array layer count asked of the swapchain.
pub open spec fn spec_array_layers(info: SwapchainInfo, caps: SurfaceCapabilities) -> u32 {
    if caps.max_image_array_layers < info.array_layer_count {
        caps.max_image_array_layers
    } else if info.array_layer_count == 0 {
        1
    } else {
        info.array_layer_count
    }
}

/// One of the four present modes of the core surface extension.
pub open spec fn is_unextended_present_mode(mode: i32) -> bool {
    mode == PRESENT_MODE_IMMEDIATE || mode == PRESENT_MODE_FIFO || mode == PRESENT_MODE_MAILBOX
        || mode == PRESENT_MODE_FIFO_RELAXED
}

/// The desired formats, or the default ones when none is desired.
pub open spec fn effective_formats(info: SwapchainInfo) -> Seq<SurfaceFormat> {
    if info.desired_formats@.len() == 0 {
        default_formats()
    } else {
        info.desired_formats@
    }
}

/// The desired present modes, or the default ones when none is desired.
pub open spec fn effective_present_modes(info: SwapchainInfo) -> Seq<i32> {
    if info.desired_present_modes@.len() == 0 {
        default_present_modes()
    } else {
        info.desired_present_modes@
    }
}

/// `f` is the surface format that creation picks: the first effective desired format
/// the surface supports, else the first format it supports.
pub open spec fn picks_format(info: SwapchainInfo, formats: Seq<SurfaceFormat>, f: SurfaceFormat) -> bool {
    let desired = effective_formats(info);
    (exists|i: int| is_first_available_format(formats, desired, i) && f == desired[i]) || ((
    forall|i: int| 0 <= i < desired.len() ==> !formats.contains(#[trigger] desired[i])) && f
        == formats[0])
}

/// `m` is the present mode that creation picks: the first effective desired mode the
/// surface supports, else FIFO.
pub open spec fn picks_present_mode(info: SwapchainInfo, modes: Seq<i32>, m: i32) -> bool {
    let desired = effective_present_modes(info);
    (exists|i: int| is_first_available_mode(modes, desired, i) && m == desired[i]) || ((forall|
        i: int,
    | 0 <= i < desired.len() ==> !modes.contains(#[trigger] desired[i])) && m == PRESENT_MODE_FIFO)
}

/// What swapchain creation hands to the driver.
#[derive(Debug)]
pub struct SwapchainPlan {
    /// Raw handle of the surface.
    pub surface: u64,
    pub min_image_count: u32,
    pub surface_format: SurfaceFormat,
    pub extent: Extent2D,
    pub image_array_layers: u32,
    pub image_usage_flags: u32,
    /// Whether the images are shared by two queue families (graphics, then present).
    pub concurrent_sharing: bool,
    pub queue_family_indices: (u32, u32),
    pub pre_transform: u32,
    pub composite_alpha: u32,
    pub present_mode: i32,
    pub clipped: bool,
    /// Raw handle of the swapchain being replaced, zero for none.
    pub old_swapchain: u64,
    pub create_flags: u32,
    pub p_next_chain: GenericFeatureChain,
}

/// Builder of the swapchain.
#[derive(Debug)]
pub struct SwapchainBuilder {
    pub info: SwapchainInfo,
}

/// The image count is settled on an addition that does not overflow.
pub open spec fn image_count_computable(info: SwapchainInfo, caps: SurfaceCapabilities) -> bool {
    info.required_min_image_count == 0 && info.min_image_count == 0 ==> caps.min_image_count
        < u32::MAX
}

/// Creation reaches the choice of surface format only with some format to fall back on.
pub open spec fn support_usable(info: SwapchainInfo, support: Result<SurfaceSupportDetails, SurfaceSupportError>) -> bool {
    info.surface is Some ==> match support {
        Ok(s) => image_count_computable(info, s.capabilities) && (spec_image_count(
            info,
            s.capabilities,
        ) is Ok ==> s.formats@.len() > 0),
        Err(_) => true,
    }
}

impl SwapchainBuilder {
    /// A builder for the device, on the given windowing platform (which decides the
    /// default composite alpha): 256 by 256 images for color attachment, one layer, the
    /// device's graphics and present queue families.
    pub fn new(device: &Device, platform: WindowingPlatform) -> (r: Self)
        requires
            exists|k: u32| is_queue_index(*device, QueueType::Present, k),
            exists|k: u32| is_queue_index(*device, QueueType::Graphics, k),
        ensures
            r.info.physical_device == device.physical_device,
            r.info.p_next_chain@.len() == 0,
            r.info.create_flags == 0,
            r.info.surface == device.surface,
            r.info.desired_formats@.len() == 0,
            r.info.instance_version == device.instance_version,
            r.info.desired_width == 256,
            r.info.desired_height == 256,
            r.info.array_layer_count == 1,
            r.info.min_image_count == 0,
            r.info.required_min_image_count == 0,
            r.info.image_usage_flags == IMAGE_USAGE_COLOR_ATTACHMENT,
            is_queue_index(*device, QueueType::Graphics, r.info.graphics_queue_index),
            is_queue_index(*device, QueueType::Present, r.info.present_queue_index),
            r.info.pre_transform == 0,
            r.info.composite_alpha == (if platform == WindowingPlatform::Android {
                COMPOSITE_ALPHA_INHERIT
            } else {
                COMPOSITE_ALPHA_OPAQUE
            }),
            r.info.desired_present_modes@.len() == 0,
            r.info.clipped,
            r.info.old_swapchain is None,
    {
        let present_queue_index = match device.get_queue_index(QueueType::Present) {
            Ok(k) => k,
            Err(_) => {
                proof {
                    let k = choose|k: u32| is_queue_index(*device, QueueType::Present, k);
                }
                0
            },
        };
        let graphics_queue_index = match device.get_queue_index(QueueType::Graphics) {
            Ok(k) => k,
            Err(_) => {
                proof {
                    let k = choose|k: u32| is_queue_index(*device, QueueType::Graphics, k);
                }
                0
            },
        };
        let composite_alpha = match platform {
            WindowingPlatform::Android => COMPOSITE_ALPHA_INHERIT,
            _ => COMPOSITE_ALPHA_OPAQUE,
        };
        SwapchainBuilder {
            info: SwapchainInfo {
                physical_device: device.physical_device,
                p_next_chain: GenericFeatureChain::new(),
                create_flags: 0,
                surface: device.surface,
                desired_formats: Vec::new(),
                instance_version: device.instance_version,
                desired_width: 256,
                desired_height: 256,
                array_layer_count: 1,
                min_image_count: 0,
                required_min_image_count: 0,
                image_usage_flags: IMAGE_USAGE_COLOR_ATTACHMENT,
                graphics_queue_index,
                present_queue_index,
                pre_transform: 0,
                composite_alpha,
                desired_present_modes: Vec::new(),
                clipped: true,
                old_swapchain: None,
            },
        }
    }

    /// The image count asked of the swapchain, or why the required count is too low.
    fn image_count(&self, caps: &SurfaceCapabilities) -> (r: Result<u32, SwapchainError>)
        requires
            image_count_computable(self.info, *caps),
        ensures
            r == spec_image_count(self.info, *caps),
    {
        let info = &self.info;
        let mut image_count = info.min_image_count;
        if info.required_min_image_count >= 1 {
            if info.required_min_image_count < caps.min_image_count {
                return Err(SwapchainError::RequiredMinImageCountTooLow);
            }
            image_count = info.required_min_image_count;
        } else if info.min_image_count == 0 {
            image_count = caps.min_image_count + 1;
        } else {
            image_count = info.min_image_count;
            if image_count < caps.min_image_count {
                image_count = caps.min_image_count;
            }
        }
        if caps.max_image_count > 0 && image_count > caps.max_image_count {
            image_count = caps.max_image_count;
        }
        Ok(image_count)
    }

    /// The decisions of swapchain creation, from what the surface supports (or why that
    /// could not be queried): image count, format, extent, layers, usage, sharing,
    /// transform and present mode; or the error that stops creation before the driver is
    /// asked for the swapchain.
    pub fn plan(&self, support: Result<SurfaceSupportDetails, SurfaceSupportError>) -> (r: Result<SwapchainPlan, SwapchainError>)
        requires
            support_usable(self.info, support),
        ensures
            match (self.info.surface, support) {
            (None, _) => r == Err::<SwapchainPlan, SwapchainError>(SwapchainError::SurfaceHandleNotProvided),
            (Some(_), Err(_)) => r == Err::<SwapchainPlan, SwapchainError>(
                SwapchainError::FailedToQuerySurfaceSupportDetails,
            ),
            (Some(h), Ok(s)) => match spec_image_count(self.info, s.capabilities) {
                Err(e) => r == Err::<SwapchainPlan, SwapchainError>(e),
                Ok(count) => match r {
                    Ok(p) => {
                        &&& p.surface == h
                        &&& p.min_image_count == count
                        &&& picks_format(self.info, s.formats@, p.surface_format)
                        &&& p.extent == spec_find_extent(s.capabilities, self.info.desired_width, self.info.desired_height)
                        &&& p.image_array_layers == spec_array_layers(self.info, s.capabilities)
                        &&& p.image_usage_flags == self.info.image_usage_flags
                        &&& picks_present_mode(self.info, s.present_modes@, p.present_mode)
                        &&& !(is_unextended_present_mode(p.present_mode) && (self.info.image_usage_flags
                            & s.capabilities.supported_usage_flags) != self.info.image_usage_flags)
                        &&& p.concurrent_sharing == (self.info.graphics_queue_index != self.info.present_queue_index)
                        &&& p.queue_family_indices == (self.info.graphics_queue_index, self.info.present_queue_index)
                        &&& p.pre_transform == (if self.info.pre_transform == 0 {
                            s.capabilities.current_transform
                        } else {
                            self.info.pre_transform
                        })
                        &&& p.composite_alpha == self.info.composite_alpha
                        &&& p.clipped == self.info.clipped
                        &&& p.old_swapchain == (match self.info.old_swapchain {
                            Some(h) => h,
                            None => 0,
                        })
                        &&& p.create_flags == self.info.create_flags
                        &&& p.p_next_chain@ == self.info.p_next_chain@
                    },
                    Err(e) => {
                        &&& e == SwapchainError::RequiredUsageNotSupported
                        &&& exists|m: i32|
                            picks_present_mode(self.info, s.present_modes@, m) && is_unextended_present_mode(m)
                                && (self.info.image_usage_flags & s.capabilities.supported_usage_flags)
                                != self.info.image_usage_flags
                    },
                },
            },
            },
    {
        let info = &self.info;
        let surface = match info.surface {
            Some(h) => h,
            None => {
                return Err(SwapchainError::SurfaceHandleNotProvided);
            },
        };
        let desired_formats = if info.desired_formats.len() == 0 {
            let v = vec![
                SurfaceFormat { format: FORMAT_B8G8R8A8_SRGB, color_space: COLOR_SPACE_SRGB_NONLINEAR },
                SurfaceFormat { format: FORMAT_R8G8B8A8_SRGB, color_space: COLOR_SPACE_SRGB_NONLINEAR },
            ];
            assert(v@ =~= default_formats());
            v
        } else {
            copy_formats(&info.desired_formats)
        };
        let desired_present_modes = if info.desired_present_modes.len() == 0 {
            let v = vec![PRESENT_MODE_MAILBOX, PRESENT_MODE_FIFO];
            assert(v@ =~= default_present_modes());
            v
        } else {
            copy_modes(&info.desired_present_modes)
        };
        let surface_support = match support {
            Ok(s) => s,
            Err(_) => {
                return Err(SwapchainError::FailedToQuerySurfaceSupportDetails);
            },
        };
        let caps = &surface_support.capabilities;
        let image_count = match self.image_count(caps) {
            Ok(c) => c,
            Err(e) => {
                return Err(e);
            },
        };
        let surface_format = find_best_surface_format(
            surface_support.formats.as_slice(),
            desired_formats.as_slice(),
        );
        let extent = find_extent(caps, info.desired_width, info.desired_height);
        let image_array_layers = if caps.max_image_array_layers < info.array_layer_count {
            caps.max_image_array_layers
        } else if info.array_layer_count == 0 {
            1
        } else {
            info.array_layer_count
        };
        let present_mode = find_present_mode(
            surface_support.present_modes.as_slice(),
            desired_present_modes.as_slice(),
        );
        assert(desired_formats@ == effective_formats(self.info));
        assert(desired_present_modes@ == effective_present_modes(self.info));
        assert(picks_format(self.info, surface_support.formats@, surface_format));
        assert(picks_present_mode(self.info, surface_support.present_modes@, present_mode));
        let unextended = present_mode == PRESENT_MODE_IMMEDIATE || present_mode
            == PRESENT_MODE_FIFO || present_mode == PRESENT_MODE_MAILBOX || present_mode
            == PRESENT_MODE_FIFO_RELAXED;
        if unextended && (info.image_usage_flags & caps.supported_usage_flags)
            != info.image_usage_flags {
            assert(is_unextended_present_mode(present_mode));
            assert(picks_present_mode(self.info, surface_support.present_modes@, present_mode)
                && is_unextended_present_mode(present_mode) && (self.info.image_usage_flags
                & surface_support.capabilities.supported_usage_flags) != self.info.image_usage_flags);
            return Err(SwapchainError::RequiredUsageNotSupported);
        }
        let pre_transform = if info.pre_transform == 0 {
            caps.current_transform
        } else {
            info.pre_transform
        };
        let old_swapchain = match info.old_swapchain {
            Some(h) => h,
            None => 0,
        };
        Ok(
            SwapchainPlan {
                surface,
                min_image_count: image_count,
                surface_format,
                extent,
                image_array_layers,
                image_usage_flags: info.image_usage_flags,
                concurrent_sharing: info.graphics_queue_index != info.present_queue_index,
                queue_family_indices: (info.graphics_queue_index, info.present_queue_index),
                pre_transform,
                composite_alpha: info.composite_alpha,
                present_mode,
                clipped: info.clipped,
                old_swapchain,
                create_flags: info.create_flags,
                p_next_chain: info.p_next_chain.copy_chain(),
            },
        )
    }
}

/// A copy of a list of surface formats.
fn copy_formats(v: &Vec<SurfaceFormat>) -> (r: Vec<SurfaceFormat>)
    ensures
        r@ == v@,
{
    let mut r: Vec<SurfaceFormat> = Vec::new();
    let mut i: usize = 0;
    while i < v.len()
        invariant
            i <= v@.len(),
            r@ == v@.take(i as int),
        decreases v@.len() - i,
    {
        r.push(v[i]);
        assert(r@ =~= v@.take(i + 1));
        i = i + 1;
    }
    assert(r@ =~= v@);
    r
}

/// A copy of a list of present modes.
fn copy_modes(v: &Vec<i32>) -> (r: Vec<i32>)
    ensures
        r@ == v@,
{
    let mut r: Vec<i32> = Vec::new();
    let mut i: usize = 0;
    while i < v.len()
        invariant
            i <= v@.len(),
            r@ == v@.take(i as int),
        decreases v@.len() - i,
    {
        r.push(v[i]);
        assert(r@ =~= v@.take(i + 1));
        i = i + 1;
    }
    assert(r@ =~= v@);
    r
}


impl SwapchainBuilder {
    /// Sets the swapchain (its raw handle) that the new one replaces.
    pub fn set_old_vk_swapchain(self, old_swapchain: u64) -> (r: Self)
        ensures
            r.info == (SwapchainInfo { old_swapchain: Some(old_swapchain), ..self.info }),
    {
        let mut b = self;
        b.info.old_swapchain = Some(old_swapchain);
        b
    }

    /// Sets the extent wished for when the surface leaves it open.
    pub fn set_desired_extent(self, width: u32, height: u32) -> (r: Self)
        ensures
            r.info == (SwapchainInfo { desired_width: width, desired_height: height, ..self.info }),
    {
        let mut b = self;
        b.info.desired_width = width;
        b.info.desired_height = height;
        b
    }

    /// Puts a format first among the desired ones.
    pub fn set_desired_format(self, format: SurfaceFormat) -> (r: Self)
        ensures
            r.info.desired_formats@ == seq![format] + self.info.desired_formats@,
            r.info == (SwapchainInfo { desired_formats: r.info.desired_formats, ..self.info }),
    {
        let mut b = self;
        b.info.desired_formats.insert(0, format);
        assert(b.info.desired_formats@ =~= seq![format] + self.info.desired_formats@);
        b
    }

    /// Puts a format last among the desired ones.
    pub fn add_fallback_format(self, format: SurfaceFormat) -> (r: Self)
        ensures
            r.info.desired_formats@ == self.info.desired_formats@.push(format),
            r.info == (SwapchainInfo { desired_formats: r.info.desired_formats, ..self.info }),
    {
        let mut b = self;
        b.info.desired_formats.push(format);
        b
    }

    /// Puts a present mode first among the desired ones.
    pub fn set_desired_present_mode(self, mode: i32) -> (r: Self)
        ensures
            r.info.desired_present_modes@ == seq![mode] + self.info.desired_present_modes@,
            r.info == (SwapchainInfo { desired_present_modes: r.info.desired_present_modes, ..self.info }),
    {
        let mut b = self;
        b.info.desired_present_modes.insert(0, mode);
        assert(b.info.desired_present_modes@ =~= seq![mode] + self.info.desired_present_modes@);
        b
    }

    /// Puts a present mode last among the desired ones.
    pub fn add_fallback_present_mode(self, mode: i32) -> (r: Self)
        ensures
            r.info.desired_present_modes@ == self.info.desired_present_modes@.push(mode),
            r.info == (SwapchainInfo { desired_present_modes: r.info.desired_present_modes, ..self.info }),
    {
        let mut b = self;
        b.info.desired_present_modes.push(mode);
        b
    }

    /// Sets the image usage flags.
    pub fn set_image_usage_flags(self, flags: u32) -> (r: Self)
        ensures
            r.info == (SwapchainInfo { image_usage_flags: flags, ..self.info }),
    {
        let mut b = self;
        b.info.image_usage_flags = flags;
        b
    }

    /// Adds image usage flags.
    pub fn add_image_usage_flags(self, flags: u32) -> (r: Self)
        ensures
            r.info == (SwapchainInfo { image_usage_flags: self.info.image_usage_flags | flags, ..self.info }),
    {
        let mut b = self;
        b.info.image_usage_flags = b.info.image_usage_flags | flags;
        b
    }

    /// Uses the images as color attachments only.
    pub fn use_default_image_usage_flags(self) -> (r: Self)
        ensures
            r.info == (SwapchainInfo { image_usage_flags: IMAGE_USAGE_COLOR_ATTACHMENT, ..self.info }),
    {
        let mut b = self;
        b.info.image_usage_flags = IMAGE_USAGE_COLOR_ATTACHMENT;
        b
    }

    /// Sets the number of array layers.
    pub fn set_image_array_layer_count(self, count: u32) -> (r: Self)
        ensures
            r.info == (SwapchainInfo { array_layer_count: count, ..self.info }),
    {
        let mut b = self;
        b.info.array_layer_count = count;
        b
    }

    /// Sets the image count wished for, raised to the surface's minimum.
    pub fn set_desired_min_image_count(self, count: u32) -> (r: Self)
        ensures
            r.info == (SwapchainInfo { min_image_count: count, ..self.info }),
    {
        let mut b = self;
        b.info.min_image_count = count;
        b
    }

    /// Sets an image count that the surface must allow.
    pub fn set_required_min_image_count(self, count: u32) -> (r: Self)
        ensures
            r.info == (SwapchainInfo { required_min_image_count: count, ..self.info }),
    {
        let mut b = self;
        b.info.required_min_image_count = count;
        b
    }

    /// Sets whether hidden pixels may be discarded.
    pub fn set_clipped(self, clipped: bool) -> (r: Self)
        ensures
            r.info == (SwapchainInfo { clipped, ..self.info }),
    {
        let mut b = self;
        b.info.clipped = clipped;
        b
    }

    /// Sets the swapchain create flags.
    pub fn set_create_flags(self, flags: u32) -> (r: Self)
        ensures
            r.info == (SwapchainInfo { create_flags: flags, ..self.info }),
    {
        let mut b = self;
        b.info.create_flags = flags;
        b
    }

    /// Sets the transform applied before presentation (zero: the surface's current one).
    pub fn set_pre_transform_flags(self, flags: u32) -> (r: Self)
        ensures
            r.info == (SwapchainInfo { pre_transform: flags, ..self.info }),
    {
        let mut b = self;
        b.info.pre_transform = flags;
        b
    }

    /// Sets the composite alpha mode.
    pub fn set_composite_alpha_flags(self, flags: u32) -> (r: Self)
        ensures
            r.info == (SwapchainInfo { composite_alpha: flags, ..self.info }),
    {
        let mut b = self;
        b.info.composite_alpha = flags;
        b
    }

    /// Sets the swapchain that the new one replaces.
    pub fn set_old_swapchain(self, old_swapchain: &Swapchain) -> (r: Self)
        ensures
            r.info == (SwapchainInfo { old_swapchain: Some(old_swapchain.swapchain), ..self.info }),
    {
        self.set_old_vk_swapchain(old_swapchain.swapchain)
    }

    /// Tries the default formats: BGRA8 and then RGBA8, both sRGB.
    pub fn use_default_format_selection(self) -> (r: Self)
        ensures
            r.info.desired_formats@ == default_formats(),
            r.info == (SwapchainInfo { desired_formats: r.info.desired_formats, ..self.info }),
    {
        let mut b = self;
        b.info.desired_formats.clear();
        SwapchainBuilder::add_desired_formats(&mut b.info.desired_formats);
        assert(b.info.desired_formats@ =~= default_formats());
        b
    }

    /// Tries the default present modes: mailbox, then FIFO.
    pub fn use_default_present_mode_selection(self) -> (r: Self)
        ensures
            r.info.desired_present_modes@ == default_present_modes(),
            r.info == (SwapchainInfo { desired_present_modes: r.info.desired_present_modes, ..self.info }),
    {
        let mut b = self;
        b.info.desired_present_modes.clear();
        SwapchainBuilder::add_desired_present_modes(&mut b.info.desired_present_modes);
        assert(b.info.desired_present_modes@ =~= default_present_modes());
        b
    }

    /// Adds an extension structure to chain into the swapchain create info.
    pub fn add_p_next(self, next: GenericFeatureNode) -> (r: Self)
        ensures
            r.info.p_next_chain@ == spec_add_node(self.info.p_next_chain@, next@),
            r.info == (SwapchainInfo { p_next_chain: r.info.p_next_chain, ..self.info }),
    {
        let mut b = self;
        b.info.p_next_chain.add_node(next);
        b
    }

    /// Appends the default formats.
    fn add_desired_formats(formats: &mut Vec<SurfaceFormat>)
        ensures
            final(formats)@ == old(formats)@ + default_formats(),
    {
        formats.push(SurfaceFormat { format: FORMAT_B8G8R8A8_SRGB, color_space: COLOR_SPACE_SRGB_NONLINEAR });
        formats.push(SurfaceFormat { format: FORMAT_R8G8B8A8_SRGB, color_space: COLOR_SPACE_SRGB_NONLINEAR });
        assert(formats@ =~= old(formats)@ + default_formats());
    }

    /// Appends the default present modes.
    fn add_desired_present_modes(modes: &mut Vec<i32>)
        ensures
            final(modes)@ == old(modes)@ + default_present_modes(),
    {
        modes.push(PRESENT_MODE_MAILBOX);
        modes.push(PRESENT_MODE_FIFO);
        assert(modes@ =~= old(modes)@ + default_present_modes());
    }
}

/// What the bootstrap reads of a created swapchain.
#[derive(Clone, Copy, Debug, PartialEq, Eq, Structural)]
pub struct Swapchain {
    /// Raw handle of the swapchain.
    pub swapchain: u64,
    pub image_count: u32,
    pub image_format: i32,
    pub color_space: i32,
    pub image_usage_flags: u32,
    pub extent: Extent2D,
    pub requested_min_image_count: u32,
    pub present_mode: i32,
    pub instance_version: u32,
}

impl Swapchain {
    /// The swapchain that a creation plan describes, once the driver created it (its raw
    /// handle) with the given number of images.
    pub fn from_plan(plan: &SwapchainPlan, instance_version: u32, swapchain: u64, image_count: usize) -> (r: Self)
        ensures
            r == (Swapchain {
                swapchain,
                image_count: image_count as u32,
                image_format: plan.surface_format.format,
                color_space: plan.surface_format.color_space,
                image_usage_flags: plan.image_usage_flags,
                extent: plan.extent,
                requested_min_image_count: plan.min_image_count,
                present_mode: plan.present_mode,
                instance_version,
            }),
    {
        Swapchain {
            swapchain,
            image_count: image_count as u32,
            image_format: plan.surface_format.format,
            color_space: plan.surface_format.color_space,
            image_usage_flags: plan.image_usage_flags,
            extent: plan.extent,
            requested_min_image_count: plan.min_image_count,
            present_mode: plan.present_mode,
            instance_version,
        }
    }

    /// Whether the image views get a chained usage structure: on Vulkan 1.1 when the
    /// caller's chain (the structure types along it) holds no image view create info.
    pub fn chains_image_view_usage(&self, p_next_types: &[i32]) -> (r: bool)
        ensures
            r == (self.instance_version >= API_VERSION_1_1 && !p_next_types@.contains(
                STRUCTURE_TYPE_IMAGE_VIEW_CREATE_INFO,
            )),
    {
        let mut found = false;
        let mut i: usize = 0;
        while i < p_next_types.len()
            invariant
                i <= p_next_types@.len(),
                found == exists|k: int| 0 <= k < i && #[trigger] p_next_types@[k] == STRUCTURE_TYPE_IMAGE_VIEW_CREATE_INFO,
            decreases p_next_types@.len() - i,
        {
            if p_next_types[i] == STRUCTURE_TYPE_IMAGE_VIEW_CREATE_INFO {
                found = true;
            }
            i = i + 1;
        }
        self.instance_version >= API_VERSION_1_1 && !found
    }

    /// The format of the images.
    pub fn image_format(&self) -> (r: i32)
        ensures
            r == self.image_format,
    {
        self.image_format
    }

    /// The color space of the images.
    pub fn color_space(&self) -> (r: i32)
        ensures
            r == self.color_space,
    {
        self.color_space
    }

    /// The extent of the images.
    pub fn extent(&self) -> (r: Extent2D)
        ensures
            r == self.extent,
    {
        self.extent
    }

    /// The present mode.
    pub fn present_mode(&self) -> (r: i32)
        ensures
            r == self.present_mode,
    {
        self.present_mode
    }

    /// The number of images.
    pub fn image_count(&self) -> (r: u32)
        ensures
            r == self.image_count,
    {
        self.image_count
    }

    /// The usage flags of the images.
    pub fn image_usage_flags(&self) -> (r: u32)
        ensures
            r == self.image_usage_flags,
    {
        self.image_usage_flags
    }
}

} // verus!
