//! Logical device creation: which queues, extensions and features to ask for, and which
//! queue family serves each kind of work.

use vstd::prelude::*;

use crate::errors::{DeviceError, QueueError};
use crate::feature_chain::{GenericFeatureChain, GenericFeatureNode, spec_add_node};
use crate::features::PhysicalDeviceFeatures;
use crate::instance::{copy_names, opt_name, push_name};
use crate::model::{
    API_VERSION_1_1, KHR_SWAPCHAIN_NAME, QUEUE_COMPUTE, QUEUE_GRAPHICS, QUEUE_TRANSFER,
    QueueFamilyProperties, STRUCTURE_TYPE_PHYSICAL_DEVICE_FEATURES_2,
};
use crate::physical_device::PhysicalDevice;
use crate::system_info::no_nul;
use crate::utils::{
    get_dedicated_queue_index, get_first_queue_index, get_present_queue_index,
    get_separate_queue_index, is_first_dedicated, is_first_true, is_first_with_flags,
    is_separate_choice, names,
};
use crate::vulkan::flags_contain;

verus! {

/// The configuration of the logical device beyond what the physical device decides.
#[derive(Debug)]
pub struct DeviceInfo {
    pub flags: u32,
    /// Extension structures to chain into the device create info.
    pub p_next_chain: Vec<GenericFeatureNode>,
    /// The queue families to create queues in, one description each; empty means one
    /// queue in every family.
    pub queue_descriptions: Vec<u32>,
}

/// Builder of the logical device.
#[derive(Debug)]
pub struct DeviceBuilder {
    pub physical_device: PhysicalDevice,
    pub device_info: DeviceInfo,
}

/// The name that a C string made from `name` carries: `name` itself, or the empty
/// string when `name` holds a nul character.
pub open spec fn c_string_name(name: Seq<char>) -> Seq<char> {
    if no_nul(name) {
        name
    } else {
        Seq::empty()
    }
}

/// The device extensions to enable: those the physical device selected (each made a C
/// string), then the swapchain extension when there is or will be a surface.
pub open spec fn spec_device_extensions(pd: PhysicalDevice) -> Seq<Seq<char>> {
    names(pd.extensions_to_enable@).map_values(|n: Seq<char>| c_string_name(n)) + opt_name(
        pd.surface is Some || pd.defer_surface_initialization,
        KHR_SWAPCHAIN_NAME@,
    )
}

/// The queue families that get queues: those of the custom descriptions, or every family
/// of the device.
pub open spec fn spec_queue_families(info: DeviceInfo, pd: PhysicalDevice) -> Seq<u32> {
    if info.queue_descriptions@.len() == 0 {
        Seq::new(pd.queue_families@.len(), |i: int| i as u32)
    } else {
        info.queue_descriptions@
    }
}

/// The user's chain holds a `VkPhysicalDeviceFeatures2` structure.
pub open spec fn user_features2(info: DeviceInfo) -> bool {
    exists|i: int|
        0 <= i < info.p_next_chain@.len() && (#[trigger] info.p_next_chain@[i]).structure_type
            == STRUCTURE_TYPE_PHYSICAL_DEVICE_FEATURES_2
}

/// The chain after each of `nodes` is added in turn.
pub open spec fn spec_add_nodes(
    chain: Seq<(i32, Seq<u32>)>,
    nodes: Seq<GenericFeatureNode>,
) -> Seq<(i32, Seq<u32>)>
    decreases nodes.len(),
{
    if nodes.len() == 0 {
        chain
    } else {
        spec_add_node(spec_add_nodes(chain, nodes.drop_last()), nodes.last()@)
    }
}

/// What device creation hands to the driver.
#[derive(Debug)]
pub struct DevicePlan {
    /// The queue families to create queues in, in order.
    pub queue_families: Vec<u32>,
    /// Whether each queue gets the default priority (no custom descriptions).
    pub default_priorities: bool,
    pub extensions: Vec<String>,
    /// The extension structures to chain after `VkPhysicalDeviceFeatures2`.
    pub p_next_chain: GenericFeatureChain,
    /// The core features, handed over in a chained `VkPhysicalDeviceFeatures2`.
    pub features: PhysicalDeviceFeatures,
    /// Whether the core features are also set as `pEnabledFeatures`.
    pub features_in_create_info: bool,
}

impl DeviceBuilder {
    /// A builder for the selected physical device.
    pub fn new(physical_device: PhysicalDevice) -> (r: Self)
        ensures
            r.physical_device == physical_device,
            r.device_info.flags == 0,
            r.device_info.p_next_chain@.len() == 0,
            r.device_info.queue_descriptions@.len() == 0,
    {
        DeviceBuilder {
            physical_device,
            device_info: DeviceInfo {
                flags: 0,
                p_next_chain: Vec::new(),
                queue_descriptions: Vec::new(),
            },
        }
    }

    /// Creates queues in the given families instead of one in every family.
    pub fn custom_queue_setup(self, queue_descriptions: Vec<u32>) -> (r: Self)
        ensures
            r.physical_device == self.physical_device,
            r.device_info == (DeviceInfo { queue_descriptions, ..self.device_info }),
    {
        let mut b = self;
        b.device_info.queue_descriptions = queue_descriptions;
        b
    }

    /// The decisions of device creation: the queues, the extensions, the chained
    /// structures and where the core features go; or the error that stops creation when
    /// the user's chain holds a `VkPhysicalDeviceFeatures2` while the criteria required
    /// extension features.
    pub fn plan(&self) -> (r: Result<DevicePlan, DeviceError>)
        ensures
            match r {
                Ok(p) => {
                    &&& !(user_features2(self.device_info) && self.physical_device.feature_chain@.len() > 0)
                    &&& p.queue_families@ == spec_queue_families(self.device_info, self.physical_device)
                    &&& p.default_priorities == (self.device_info.queue_descriptions@.len() == 0)
                    &&& names(p.extensions@) == spec_device_extensions(self.physical_device)
                    &&& p.p_next_chain@ == spec_add_nodes(
                        self.physical_device.feature_chain@,
                        self.device_info.p_next_chain@,
                    )
                    &&& p.features == self.physical_device.features
                    &&& p.features_in_create_info == !(user_features2(self.device_info)
                        || self.physical_device.instance_version >= API_VERSION_1_1
                        || self.physical_device.properties2_ext_enabled)
                },
                Err(e) => {
                    &&& e == DeviceError::VkPhysicalDeviceFeatures2InPNextChainWhileUsingAddRequiredExtensionFeatures
                    &&& user_features2(self.device_info)
                    &&& self.physical_device.feature_chain@.len() > 0
                },
            },
    {
        let pd = &self.physical_device;
        let info = &self.device_info;
        // Queues.
        let mut queue_families: Vec<u32> = Vec::new();
        let default_priorities = info.queue_descriptions.len() == 0;
        if default_priorities {
            let mut i: usize = 0;
            while i < pd.queue_families.len()
                invariant
                    i <= pd.queue_families@.len(),
                    queue_families@ == Seq::new(i as nat, |k: int| k as u32),
                decreases pd.queue_families@.len() - i,
            {
                queue_families.push(i as u32);
                assert(queue_families@ =~= Seq::new((i + 1) as nat, |k: int| k as u32));
                i = i + 1;
            }
        } else {
            let mut i: usize = 0;
            while i < info.queue_descriptions.len()
                invariant
                    i <= info.queue_descriptions@.len(),
                    queue_families@ == info.queue_descriptions@.take(i as int),
                decreases info.queue_descriptions@.len() - i,
            {
                queue_families.push(info.queue_descriptions[i]);
                assert(queue_families@ =~= info.queue_descriptions@.take(i + 1));
                i = i + 1;
            }
            assert(queue_families@ =~= info.queue_descriptions@);
        }
        // Extensions.
        let mut extensions: Vec<String> = Vec::new();
        let mut i: usize = 0;
        while i < pd.extensions_to_enable.len()
            invariant
                i <= pd.extensions_to_enable@.len(),
                names(extensions@) == names(pd.extensions_to_enable@).take(i as int).map_values(
                    |n: Seq<char>| c_string_name(n),
                ),
            decreases pd.extensions_to_enable@.len() - i,
        {
            let ghost prev = names(extensions@);
            let name = &pd.extensions_to_enable[i];
            proof {
                reveal_strlit("");
                assert(names(pd.extensions_to_enable@)[i as int] == pd.extensions_to_enable@[i as int]@);
                assert(""@ =~= Seq::<char>::empty());
            }
            if has_nul(name.as_str()) {
                push_name(&mut extensions, "");
            } else {
                push_name(&mut extensions, name.as_str());
            }
            assert(names(extensions@) == prev.push(c_string_name(name@)));
            assert(names(extensions@) =~= names(pd.extensions_to_enable@).take(i + 1).map_values(
                |n: Seq<char>| c_string_name(n),
            ));
            i = i + 1;
        }
        assert(names(pd.extensions_to_enable@).take(pd.extensions_to_enable@.len() as int) =~= names(pd.extensions_to_enable@));
        if pd.surface.is_some() || pd.defer_surface_initialization {
            push_name(&mut extensions, KHR_SWAPCHAIN_NAME);
        }
        assert(names(extensions@) =~= spec_device_extensions(self.physical_device));
        // Chained structures.
        let mut user_defined_phys_dev_features_2 = false;
        let mut j: usize = 0;
        while j < info.p_next_chain.len()
            invariant
                j <= info.p_next_chain@.len(),
                user_defined_phys_dev_features_2 == exists|k: int|
                    0 <= k < j && (#[trigger] info.p_next_chain@[k]).structure_type
                        == STRUCTURE_TYPE_PHYSICAL_DEVICE_FEATURES_2,
            decreases info.p_next_chain@.len() - j,
        {
            if info.p_next_chain[j].structure_type == STRUCTURE_TYPE_PHYSICAL_DEVICE_FEATURES_2 {
                user_defined_phys_dev_features_2 = true;
            }
            j = j + 1;
        }
        if user_defined_phys_dev_features_2 && !pd.feature_chain.is_empty() {
            return Err(DeviceError::VkPhysicalDeviceFeatures2InPNextChainWhileUsingAddRequiredExtensionFeatures);
        }
        let features_in_create_info = !(user_defined_phys_dev_features_2 || pd.instance_version
            >= API_VERSION_1_1 || pd.properties2_ext_enabled);
        let mut final_p_next_chain = pd.feature_chain.copy_chain();
        let mut k: usize = 0;
        while k < info.p_next_chain.len()
            invariant
                k <= info.p_next_chain@.len(),
                final_p_next_chain@ == spec_add_nodes(
                    pd.feature_chain@,
                    info.p_next_chain@.take(k as int),
                ),
            decreases info.p_next_chain@.len() - k,
        {
            assert(info.p_next_chain@.take(k + 1).drop_last() =~= info.p_next_chain@.take(k as int));
            final_p_next_chain.add_node(info.p_next_chain[k]);
            k = k + 1;
        }
        assert(info.p_next_chain@.take(info.p_next_chain@.len() as int) =~= info.p_next_chain@);
        Ok(
            DevicePlan {
                queue_families,
                default_priorities,
                extensions,
                p_next_chain: final_p_next_chain,
                features: pd.features,
                features_in_create_info,
            },
        )
    }
}

/// Whether the string holds a nul character.
fn has_nul(s: &str) -> (r: bool)
    ensures
        r == !no_nul(s@),
{
    let n = s.unicode_len();
    let mut i: usize = 0;
    while i < n
        invariant
            i <= n == s@.len(),
            forall|k: int| 0 <= k < i ==> #[trigger] s@[k] != '\0',
        decreases n - i,
    {
        if s.get_char(i) == '\0' {
            assert(s@.contains('\0'));
            return true;
        }
        i = i + 1;
    }
    false
}

/// The kinds of work a queue is asked for.
#[derive(Clone, Copy, Debug, PartialEq, Eq, Structural)]
pub enum QueueType {
    Present,
    Graphics,
    Compute,
    Transfer,
}

/// What the bootstrap reads of a created logical device.
#[derive(Debug)]
pub struct Device {
    /// Raw handle of the physical device.
    pub physical_device: u64,
    /// Raw handle of the surface, if any.
    pub surface: Option<u64>,
    pub queue_families: Vec<QueueFamilyProperties>,
    pub instance_version: u32,
    /// For each queue family, whether it can present to the surface.
    pub present_support: Vec<bool>,
}

/// `k` is the family index that `Device::get_queue_index` gives for the queue type.
pub open spec fn is_queue_index(d: Device, queue_type: QueueType, k: u32) -> bool {
    let f = d.queue_families@;
    match queue_type {
        QueueType::Present => d.surface is Some && exists|i: int|
            is_first_true(d.present_support@, i) && k == i as u32,
        QueueType::Graphics => exists|i: int| is_first_with_flags(f, QUEUE_GRAPHICS, i) && k == i as u32,
        QueueType::Compute => exists|i: int|
            is_separate_choice(f, QUEUE_COMPUTE, QUEUE_TRANSFER, i) && k == i as u32,
        QueueType::Transfer => exists|i: int|
            is_separate_choice(f, QUEUE_TRANSFER, QUEUE_COMPUTE, i) && k == i as u32,
    }
}

/// The error that `Device::get_queue_index` gives for the queue type.
pub open spec fn queue_error(queue_type: QueueType) -> QueueError {
    match queue_type {
        QueueType::Present => QueueError::PresentUnavailable,
        QueueType::Graphics => QueueError::GraphicsUnavailable,
        QueueType::Compute => QueueError::ComputeUnavailable,
        QueueType::Transfer => QueueError::TransferUnavailable,
    }
}

impl Device {
    /// The device that creation describes, for the physical device it was created on and
    /// the presentation support of its queue families.
    pub fn from_physical_device(physical_device: PhysicalDevice, present_support: Vec<bool>) -> (r:
        Self)
        ensures
            r.physical_device == physical_device.physical_device,
            r.surface == physical_device.surface,
            r.queue_families == physical_device.queue_families,
            r.instance_version == physical_device.instance_version,
            r.present_support == present_support,
    {
        Device {
            physical_device: physical_device.physical_device,
            surface: physical_device.surface,
            queue_families: physical_device.queue_families,
            instance_version: physical_device.instance_version,
            present_support,
        }
    }

    /// The queue family for the kind of work: the first that can present, the first
    /// graphics family, or a separate compute or transfer family.
    pub fn get_queue_index(&self, queue_type: QueueType) -> (r: Result<u32, QueueError>)
        ensures
            match r {
                Ok(k) => is_queue_index(*self, queue_type, k),
                Err(e) => e == queue_error(queue_type) && forall|k: u32| !is_queue_index(*self, queue_type, k),
            },
    {
        match queue_type {
            QueueType::Present => {
                if self.surface.is_some() {
                    match get_present_queue_index(self.present_support.as_slice()) {
                        Some(k) => Ok(k),
                        None => Err(QueueError::PresentUnavailable),
                    }
                } else {
                    Err(QueueError::PresentUnavailable)
                }
            },
            QueueType::Graphics => match get_first_queue_index(self.queue_families.as_slice(), QUEUE_GRAPHICS) {
                Some(k) => Ok(k),
                None => Err(QueueError::GraphicsUnavailable),
            },
            QueueType::Compute => match get_separate_queue_index(
                self.queue_families.as_slice(),
                QUEUE_COMPUTE,
                QUEUE_TRANSFER,
            ) {
                Some(k) => Ok(k),
                None => Err(QueueError::ComputeUnavailable),
            },
            QueueType::Transfer => match get_separate_queue_index(
                self.queue_families.as_slice(),
                QUEUE_TRANSFER,
                QUEUE_COMPUTE,
            ) {
                Some(k) => Ok(k),
                None => Err(QueueError::TransferUnavailable),
            },
        }
    }

    /// The family dedicated to compute or transfer; other kinds of work have none.
    pub fn get_dedicated_queue_index(&self, queue_type: QueueType) -> (r: Result<u32, QueueError>)
        ensures
            match queue_type {
                QueueType::Compute => match r {
                    Ok(k) => exists|i: int|
                        is_first_dedicated(self.queue_families@, QUEUE_COMPUTE, QUEUE_TRANSFER, i)
                            && k == i as u32,
                    Err(e) => e == QueueError::ComputeUnavailable && !exists|i: int|
                        is_first_dedicated(self.queue_families@, QUEUE_COMPUTE, QUEUE_TRANSFER, i),
                },
                QueueType::Transfer => match r {
                    Ok(k) => exists|i: int|
                        is_first_dedicated(self.queue_families@, QUEUE_TRANSFER, QUEUE_COMPUTE, i)
                            && k == i as u32,
                    Err(e) => e == QueueError::TransferUnavailable && !exists|i: int|
                        is_first_dedicated(self.queue_families@, QUEUE_TRANSFER, QUEUE_COMPUTE, i),
                },
                _ => r == Err::<u32, QueueError>(QueueError::InvalidQueueFamilyIndex),
            },
    {
        match queue_type {
            QueueType::Compute => match get_dedicated_queue_index(
                self.queue_families.as_slice(),
                QUEUE_COMPUTE,
                QUEUE_TRANSFER,
            ) {
                Some(k) => Ok(k),
                None => Err(QueueError::ComputeUnavailable),
            },
            QueueType::Transfer => match get_dedicated_queue_index(
                self.queue_families.as_slice(),
                QUEUE_TRANSFER,
                QUEUE_COMPUTE,
            ) {
                Some(k) => Ok(k),
                None => Err(QueueError::TransferUnavailable),
            },
            _ => Err(QueueError::InvalidQueueFamilyIndex),
        }
    }
}

} // verus!
