//! Physical device selection: the criteria, what the driver reports of each device, and
//! the rules that rank the devices.

use vstd::prelude::*;

use crate::errors::PhysicalDeviceError;
use crate::feature_chain::{
    GenericFeatureChain, GenericFeatureNode, chain_comparison_defined, chain_contains_all,
    same_layout, spec_add_node,
};
use crate::features::{
    PhysicalDeviceFeatures, SupportsFeatures, combine_features, features_subset, features_union,
};
use crate::instance::{Instance, opt_name, copy_names, push_name, str_names};
use crate::model::{
    API_VERSION_1_0, API_VERSION_1_1, KHR_PORTABILITY_SUBSET_NAME, MEMORY_HEAP_DEVICE_LOCAL,
    MemoryHeap, PHYSICAL_DEVICE_TYPE_DISCRETE_GPU, PhysicalDeviceProperties, QUEUE_COMPUTE,
    QUEUE_TRANSFER, QueueFamilyProperties,
};
use crate::utils::{
    check_device_extension_support, contains_name, get_dedicated_queue_index,
    get_present_queue_index, get_separate_queue_index, is_dedicated_family, is_separate_family,
    names, supported_names,
};
use crate::vulkan::{flags_contain, make_api_version, memory_heap_flags_contains, spec_make_api_version};

verus! {

/// How well a physical device meets the selection criteria.
#[derive(Clone, Copy, Debug, PartialEq, Eq, Structural)]
pub enum PhysicalDeviceSuitability {
    Suitable,
    PartiallySuitable,
    Unsuitable,
}

/// The requirements that a physical device must meet to be selected.
#[derive(Debug)]
pub struct SelectionCriteria {
    pub name: String,
    pub preferred_type: i32,
    pub allow_any_type: bool,
    pub require_present: bool,
    pub require_dedicated_transfer_queue: bool,
    pub require_dedicated_compute_queue: bool,
    pub require_separate_transfer_queue: bool,
    pub require_separate_compute_queue: bool,
    pub required_mem_size: u64,
    pub required_extensions: Vec<String>,
    pub required_version: u32,
    pub required_features: PhysicalDeviceFeatures,
    pub feature_chain: GenericFeatureChain,
    pub defer_surface_initialization: bool,
    pub use_first_gpu_unconditionally: bool,
    pub enable_portability_subset: bool,
}

/// What selection reads of the instance: the surface to present to (its raw handle),
/// the instance version and whether the properties-2 extension is enabled.
#[derive(Clone, Copy, Debug, PartialEq, Eq, Structural)]
pub struct SelectorInstanceInfo {
    pub surface: Option<u64>,
    pub version: u32,
    pub headless: bool,
    pub properties2_ext_enabled: bool,
}

/// A physical device as the driver describes it, with what selection decided of it.
#[derive(Debug)]
pub struct PhysicalDevice {
    pub name: String,
    /// Raw handle of the physical device.
    pub physical_device: u64,
    /// Raw handle of the surface that selection presented to, if any.
    pub surface: Option<u64>,
    pub features: PhysicalDeviceFeatures,
    pub properties: PhysicalDeviceProperties,
    /// The memory heaps the device reports, in order.
    pub memory_heaps: Vec<MemoryHeap>,
    pub instance_version: u32,
    pub extensions_to_enable: Vec<String>,
    pub available_extensions: Vec<String>,
    pub queue_families: Vec<QueueFamilyProperties>,
    pub feature_chain: GenericFeatureChain,
    pub defer_surface_initialization: bool,
    pub properties2_ext_enabled: bool,
    pub suitability: PhysicalDeviceSuitability,
    /// For each queue family, whether the driver reports that it can present to the
    /// selector's surface (a failed query counts as no).
    pub present_support: Vec<bool>,
    /// Whether the surface format query for the selector's surface succeeded with at
    /// least one format.
    pub has_surface_formats: bool,
    /// Whether the present mode query for the selector's surface succeeded with at least
    /// one mode.
    pub has_present_modes: bool,
}

/// Some family is dedicated to the desired operations.
pub open spec fn has_dedicated(families: Seq<QueueFamilyProperties>, desired: u32, undesired: u32) -> bool {
    exists|i: int|
        0 <= i < families.len() && is_dedicated_family(#[trigger] families[i].queue_flags, desired, undesired)
}

/// Some non-graphics family has the desired operations.
pub open spec fn has_separate(families: Seq<QueueFamilyProperties>, desired: u32) -> bool {
    exists|i: int| 0 <= i < families.len() && is_separate_family(#[trigger] families[i].queue_flags, desired)
}

/// The device can present to the selector's surface through some family.
pub open spec fn can_present(inst: SelectorInstanceInfo, pd: PhysicalDevice) -> bool {
    inst.surface is Some && exists|i: int| 0 <= i < pd.present_support@.len() && #[trigger] pd.present_support@[i]
}

/// Some device-local heap is at least `size` bytes.
pub open spec fn has_required_memory(heaps: Seq<MemoryHeap>, size: u64) -> bool {
    exists|i: int|
        0 <= i < heaps.len() && flags_contain(#[trigger] heaps[i].flags, MEMORY_HEAP_DEVICE_LOCAL) && heaps[i].size >= size
}

/// The device fails one of the checks that come before the feature checks.
pub open spec fn fails_early_checks(c: SelectionCriteria, inst: SelectorInstanceInfo, pd: PhysicalDevice) -> bool {
    ||| (c.name@.len() > 0 && c.name@ != pd.name@)
    ||| c.required_version > pd.properties.api_version
    ||| (c.require_dedicated_compute_queue && !has_dedicated(pd.queue_families@, QUEUE_COMPUTE, QUEUE_TRANSFER))
    ||| (c.require_dedicated_transfer_queue && !has_dedicated(pd.queue_families@, QUEUE_TRANSFER, QUEUE_COMPUTE))
    ||| (c.require_separate_compute_queue && !has_separate(pd.queue_families@, QUEUE_COMPUTE))
    ||| (c.require_separate_transfer_queue && !has_separate(pd.queue_families@, QUEUE_TRANSFER))
    ||| (c.require_present && !can_present(inst, pd) && !c.defer_surface_initialization)
    ||| supported_names(pd.available_extensions@, c.required_extensions@).len() != c.required_extensions@.len()
    ||| (!c.defer_surface_initialization && c.require_present && (!pd.has_surface_formats || !pd.has_present_modes))
}

/// The device fails some check of the criteria.
pub open spec fn fails_checks(c: SelectionCriteria, inst: SelectorInstanceInfo, pd: PhysicalDevice) -> bool {
    ||| fails_early_checks(c, inst, pd)
    ||| !features_subset(c.required_features.flags@, pd.features.flags@)
    ||| !chain_contains_all(pd.feature_chain@, c.feature_chain@)
    ||| !has_required_memory(pd.memory_heaps@, c.required_mem_size)
}

/// How well the device meets the criteria: unsuitable when it fails a check, partially
/// suitable when only its type differs from the preferred one, else suitable.
pub open spec fn spec_suitability(c: SelectionCriteria, inst: SelectorInstanceInfo, pd: PhysicalDevice) -> PhysicalDeviceSuitability {
    if fails_checks(c, inst, pd) {
        PhysicalDeviceSuitability::Unsuitable
    } else if !c.allow_any_type && pd.properties.device_type != c.preferred_type {
        PhysicalDeviceSuitability::PartiallySuitable
    } else {
        PhysicalDeviceSuitability::Suitable
    }
}

/// Whether some device-local heap is at least `size` bytes.
fn heaps_have_memory(heaps: &Vec<MemoryHeap>, size: u64) -> (r: bool)
    ensures
        r == has_required_memory(heaps@, size),
{
    let mut i: usize = 0;
    while i < heaps.len()
        invariant
            i <= heaps@.len(),
            forall|j: int|
                0 <= j < i ==> !(flags_contain(#[trigger] heaps@[j].flags, MEMORY_HEAP_DEVICE_LOCAL)
                    && heaps@[j].size >= size),
        decreases heaps@.len() - i,
    {
        if memory_heap_flags_contains(heaps[i].flags, MEMORY_HEAP_DEVICE_LOCAL) {
            if heaps[i].size >= size {
                return true;
            }
        }
        i = i + 1;
    }
    false
}

/// The physical device selector: the criteria and what it reads of the instance.
#[derive(Debug)]
pub struct PhysicalDeviceSelector {
    pub criteria: SelectionCriteria,
    pub instance: SelectorInstanceInfo,
}

impl PhysicalDeviceSelector {
    /// How well the device meets the criteria.
    pub fn is_device_suitable(&self, pd: &PhysicalDevice) -> (r: PhysicalDeviceSuitability)
        requires
            fails_early_checks(self.criteria, self.instance, *pd) || chain_comparison_defined(
                pd.feature_chain@,
                self.criteria.feature_chain@,
            ),
        ensures
            r == spec_suitability(self.criteria, self.instance, *pd),
    {
        let c = &self.criteria;
        let mut suitable = PhysicalDeviceSuitability::Suitable;
        if !c.name.as_str().is_empty() && c.name != pd.name {
            return PhysicalDeviceSuitability::Unsuitable;
        }
        if c.required_version > pd.properties.api_version {
            return PhysicalDeviceSuitability::Unsuitable;
        }
        let dedicated_compute = get_dedicated_queue_index(
            pd.queue_families.as_slice(),
            QUEUE_COMPUTE,
            QUEUE_TRANSFER,
        ).is_some();
        let dedicated_transfer = get_dedicated_queue_index(
            pd.queue_families.as_slice(),
            QUEUE_TRANSFER,
            QUEUE_COMPUTE,
        ).is_some();
        let separate_compute = get_separate_queue_index(
            pd.queue_families.as_slice(),
            QUEUE_COMPUTE,
            QUEUE_TRANSFER,
        ).is_some();
        let separate_transfer = get_separate_queue_index(
            pd.queue_families.as_slice(),
            QUEUE_TRANSFER,
            QUEUE_COMPUTE,
        ).is_some();
        let present_queue = if self.instance.surface.is_some() {
            get_present_queue_index(pd.present_support.as_slice()).is_some()
        } else {
            false
        };
        if c.require_dedicated_compute_queue && !dedicated_compute {
            return PhysicalDeviceSuitability::Unsuitable;
        }
        if c.require_dedicated_transfer_queue && !dedicated_transfer {
            return PhysicalDeviceSuitability::Unsuitable;
        }
        if c.require_separate_compute_queue && !separate_compute {
            return PhysicalDeviceSuitability::Unsuitable;
        }
        if c.require_separate_transfer_queue && !separate_transfer {
            return PhysicalDeviceSuitability::Unsuitable;
        }
        if c.require_present && !present_queue && !c.defer_surface_initialization {
            return PhysicalDeviceSuitability::Unsuitable;
        }
        let required_extensions_supported = check_device_extension_support(
            pd.available_extensions.as_slice(),
            c.required_extensions.as_slice(),
        );
        if required_extensions_supported.len() != c.required_extensions.len() {
            return PhysicalDeviceSuitability::Unsuitable;
        }
        if !c.defer_surface_initialization && c.require_present {
            if !pd.has_surface_formats {
                return PhysicalDeviceSuitability::Unsuitable;
            }
            if !pd.has_present_modes {
                return PhysicalDeviceSuitability::Unsuitable;
            }
        }
        assert(!fails_early_checks(self.criteria, self.instance, *pd));
        if !c.allow_any_type && pd.properties.device_type != c.preferred_type {
            suitable = PhysicalDeviceSuitability::PartiallySuitable;
        }
        let required_features_supported = c.required_features.supports(&pd.features);
        let required_additional_features_supported = pd.feature_chain.contains_all(&c.feature_chain);
        if !required_features_supported || !required_additional_features_supported {
            return PhysicalDeviceSuitability::Unsuitable;
        }
        let has_required_memory = heaps_have_memory(&pd.memory_heaps, c.required_mem_size);
        if !has_required_memory {
            return PhysicalDeviceSuitability::Unsuitable;
        }
        suitable
    }
}

/// Position lists name devices by their place in the enumeration.
pub open spec fn positions(n: nat) -> Seq<int> {
    Seq::new(n, |i: int| i)
}

/// The property of a position that its device has the given suitability.
pub open spec fn has_suitability(
    c: SelectionCriteria,
    inst: SelectorInstanceInfo,
    ds: Seq<PhysicalDevice>,
    s: PhysicalDeviceSuitability,
) -> spec_fn(int) -> bool {
    |i: int| spec_suitability(c, inst, ds[i]) == s
}

/// The positions, in enumeration order, of the devices with the given suitability.
pub open spec fn positions_with(
    c: SelectionCriteria,
    inst: SelectorInstanceInfo,
    ds: Seq<PhysicalDevice>,
    s: PhysicalDeviceSuitability,
) -> Seq<int> {
    positions(ds.len()).filter(has_suitability(c, inst, ds, s))
}

/// The order of the selected devices: the suitable ones, then the partially suitable
/// ones, each in enumeration order.
pub open spec fn selection_order(c: SelectionCriteria, inst: SelectorInstanceInfo, ds: Seq<PhysicalDevice>) -> Seq<
    int,
> {
    positions_with(c, inst, ds, PhysicalDeviceSuitability::Suitable) + positions_with(
        c,
        inst,
        ds,
        PhysicalDeviceSuitability::PartiallySuitable,
    )
}

/// The extensions to enable on a selected device: the required ones, then the
/// portability subset extension when it is enabled and available.
pub open spec fn spec_extensions_to_enable(c: SelectionCriteria, pd: PhysicalDevice) -> Seq<Seq<char>> {
    names(c.required_extensions@) + opt_name(
        c.enable_portability_subset && names(pd.available_extensions@).contains(
            KHR_PORTABILITY_SUBSET_NAME@,
        ),
        KHR_PORTABILITY_SUBSET_NAME@,
    )
}

/// `out` is `src` with the given suitability, filled out with the criteria: the required
/// features and feature chain, and the extensions to enable.
pub open spec fn filled_out(
    c: SelectionCriteria,
    src: PhysicalDevice,
    suitability: PhysicalDeviceSuitability,
    out: PhysicalDevice,
) -> bool {
    &&& out == (PhysicalDevice {
        features: c.required_features,
        feature_chain: out.feature_chain,
        extensions_to_enable: out.extensions_to_enable,
        suitability,
        ..src
    })
    &&& out.feature_chain@ == c.feature_chain@
    &&& names(out.extensions_to_enable@) == spec_extensions_to_enable(c, src)
}

/// `v` is what selection returns for the enumerated devices `ds`.
pub open spec fn selected_from(
    c: SelectionCriteria,
    inst: SelectorInstanceInfo,
    ds: Seq<PhysicalDevice>,
    v: Seq<PhysicalDevice>,
) -> bool {
    if c.use_first_gpu_unconditionally {
        v.len() == 1 && filled_out(c, ds[0], ds[0].suitability, v[0])
    } else {
        let order = selection_order(c, inst, ds);
        &&& v.len() == order.len()
        &&& forall|k: int|
            0 <= k < v.len() ==> filled_out(
                c,
                ds[order[k]],
                spec_suitability(c, inst, ds[order[k]]),
                #[trigger] v[k],
            )
    }
}

/// The error that selection stops with before it ranks devices, if any.
pub open spec fn select_precheck(
    c: SelectionCriteria,
    inst: SelectorInstanceInfo,
    devices: Option<Seq<PhysicalDevice>>,
) -> Option<PhysicalDeviceError> {
    if c.require_present && !c.defer_surface_initialization && inst.surface is None {
        Some(PhysicalDeviceError::NoSurfaceProvided)
    } else {
        match devices {
            None => Some(PhysicalDeviceError::FailedEnumeratePhysicalDevices),
            Some(ds) => if ds.len() == 0 {
                Some(PhysicalDeviceError::NoPhysicalDevicesFound)
            } else {
                None
            },
        }
    }
}

/// The enumerated devices as a sequence, if the enumeration succeeded.
pub open spec fn enumerated(devices: Option<Vec<PhysicalDevice>>) -> Option<Seq<PhysicalDevice>> {
    match devices {
        Some(v) => Some(v@),
        None => None,
    }
}

/// Every device carries a feature chain laid out like the criteria's.
pub open spec fn chains_match_criteria(c: SelectionCriteria, devices: Option<Vec<PhysicalDevice>>) -> bool {
    devices matches Some(v) ==> forall|i: int|
        0 <= i < v@.len() ==> same_layout(#[trigger] v@[i].feature_chain@, c.feature_chain@)
}

/// Chains laid out alike compare without meeting nodes of different types.
proof fn lemma_same_layout_comparison_defined(a: Seq<(i32, Seq<u32>)>, b: Seq<(i32, Seq<u32>)>)
    requires
        same_layout(a, b),
    ensures
        chain_comparison_defined(a, b),
{
}

/// Fills out a device with the criteria: the required features and feature chain, and
/// the extensions to enable.
fn fill_out_phys_dev_with_criteria(phys_dev: &mut PhysicalDevice, criteria: &SelectionCriteria)
    ensures
        filled_out(*criteria, *old(phys_dev), old(phys_dev).suitability, *final(phys_dev)),
{
    phys_dev.features = criteria.required_features;
    phys_dev.feature_chain = criteria.feature_chain.copy_chain();
    let subset_name = KHR_PORTABILITY_SUBSET_NAME.to_owned();
    let portability_ext_available = if criteria.enable_portability_subset {
        contains_name(phys_dev.available_extensions.as_slice(), &subset_name)
    } else {
        false
    };
    let mut extensions = copy_names(&criteria.required_extensions);
    if portability_ext_available {
        push_name(&mut extensions, KHR_PORTABILITY_SUBSET_NAME);
    }
    phys_dev.extensions_to_enable = extensions;
    assert(names(phys_dev.extensions_to_enable@) =~= spec_extensions_to_enable(
        *criteria,
        *old(phys_dev),
    ));
}

impl PhysicalDeviceSelector {
    /// The suitable and then the partially suitable devices among the enumerated ones
    /// (`None`: the enumeration failed), each filled out with the criteria; or, when the
    /// first device is selected unconditionally, that device alone.
    pub fn select_impl(&self, devices: Option<Vec<PhysicalDevice>>) -> (r: Result<
        Vec<PhysicalDevice>,
        PhysicalDeviceError,
    >)
        requires
            chains_match_criteria(self.criteria, devices),
        ensures
            match select_precheck(self.criteria, self.instance, enumerated(devices)) {
                Some(e) => r == Err::<Vec<PhysicalDevice>, PhysicalDeviceError>(e),
                None => r matches Ok(v) && selected_from(
                    self.criteria,
                    self.instance,
                    enumerated(devices).unwrap(),
                    v@,
                ),
            },
    {
        let c = &self.criteria;
        if c.require_present && !c.defer_surface_initialization && self.instance.surface.is_none() {
            return Err(PhysicalDeviceError::NoSurfaceProvided);
        }
        let mut rest = match devices {
            Some(v) => {
                if v.len() == 0 {
                    return Err(PhysicalDeviceError::NoPhysicalDevicesFound);
                }
                v
            },
            None => {
                return Err(PhysicalDeviceError::FailedEnumeratePhysicalDevices);
            },
        };
        let ghost ds = rest@;
        if c.use_first_gpu_unconditionally {
            let mut first = rest.remove(0);
            fill_out_phys_dev_with_criteria(&mut first, c);
            let mut v: Vec<PhysicalDevice> = Vec::new();
            v.push(first);
            return Ok(v);
        }
        let ghost ps = has_suitability(*c, self.instance, ds, PhysicalDeviceSuitability::Suitable);
        let ghost pp = has_suitability(
            *c,
            self.instance,
            ds,
            PhysicalDeviceSuitability::PartiallySuitable,
        );
        let n = rest.len();
        let mut suitable: Vec<PhysicalDevice> = Vec::new();
        let mut partial: Vec<PhysicalDevice> = Vec::new();
        let mut i: usize = 0;
        while i < n
            invariant
                *c == self.criteria,
                n == ds.len(),
                i <= n,
                rest@ == ds.skip(i as int),
                forall|j: int|
                    0 <= j < ds.len() ==> same_layout(#[trigger] ds[j].feature_chain@, c.feature_chain@),
                ps == has_suitability(*c, self.instance, ds, PhysicalDeviceSuitability::Suitable),
                pp == has_suitability(*c, self.instance, ds, PhysicalDeviceSuitability::PartiallySuitable),
                suitable@.len() == positions(i as nat).filter(ps).len(),
                forall|k: int|
                    0 <= k < suitable@.len() ==> filled_out(
                        *c,
                        ds[positions(i as nat).filter(ps)[k]],
                        PhysicalDeviceSuitability::Suitable,
                        #[trigger] suitable@[k],
                    ),
                partial@.len() == positions(i as nat).filter(pp).len(),
                forall|k: int|
                    0 <= k < partial@.len() ==> filled_out(
                        *c,
                        ds[positions(i as nat).filter(pp)[k]],
                        PhysicalDeviceSuitability::PartiallySuitable,
                        #[trigger] partial@[k],
                    ),
            decreases n - i,
        {
            proof {
                reveal_with_fuel(Seq::<int>::filter, 1);
                assert(positions((i + 1) as nat).drop_last() =~= positions(i as nat));
                assert(positions((i + 1) as nat).last() == i);
            }
            let mut d = rest.remove(0);
            assert(d == ds[i as int]);
            proof {
                assert(same_layout(ds[i as int].feature_chain@, c.feature_chain@));
                lemma_same_layout_comparison_defined(d.feature_chain@, c.feature_chain@);
            }
            let suitability = self.is_device_suitable(&d);
            d.suitability = suitability;
            let ghost src = ds[i as int];
            fill_out_phys_dev_with_criteria(&mut d, c);
            assert(rest@ =~= ds.skip(i + 1));
            match suitability {
                PhysicalDeviceSuitability::Suitable => {
                    assert(ps(i as int));
                    assert(!pp(i as int));
                    suitable.push(d);
                    assert(positions((i + 1) as nat).filter(ps) == positions(i as nat).filter(ps).push(i as int));
                    assert(positions((i + 1) as nat).filter(pp) == positions(i as nat).filter(pp));
                },
                PhysicalDeviceSuitability::PartiallySuitable => {
                    assert(!ps(i as int));
                    assert(pp(i as int));
                    partial.push(d);
                    assert(positions((i + 1) as nat).filter(pp) == positions(i as nat).filter(pp).push(i as int));
                    assert(positions((i + 1) as nat).filter(ps) == positions(i as nat).filter(ps));
                },
                PhysicalDeviceSuitability::Unsuitable => {
                    assert(!ps(i as int));
                    assert(!pp(i as int));
                    assert(positions((i + 1) as nat).filter(pp) == positions(i as nat).filter(pp));
                    assert(positions((i + 1) as nat).filter(ps) == positions(i as nat).filter(ps));
                },
            }
            i = i + 1;
        }
        let ghost s_len = suitable@.len();
        suitable.append(&mut partial);
        proof {
            let order = selection_order(*c, self.instance, ds);
            assert(order == positions(n as nat).filter(ps) + positions(n as nat).filter(pp));
            assert forall|k: int| 0 <= k < suitable@.len() implies filled_out(
                *c,
                ds[order[k]],
                spec_suitability(*c, self.instance, ds[order[k]]),
                #[trigger] suitable@[k],
            ) by {
                broadcast use vstd::seq_lib::group_filter_ensures;
                if k < s_len {
                    assert(order[k] == positions(n as nat).filter(ps)[k]);
                    assert(ps(positions(n as nat).filter(ps)[k]));
                } else {
                    assert(order[k] == positions(n as nat).filter(pp)[k - s_len]);
                    assert(pp(positions(n as nat).filter(pp)[k - s_len]));
                }
            }
        }
        Ok(suitable)
    }
}

/// No selection is made: devices are ranked, and none is suitable or partially suitable.
pub open spec fn nothing_selected(c: SelectionCriteria, inst: SelectorInstanceInfo, ds: Seq<PhysicalDevice>) -> bool {
    !c.use_first_gpu_unconditionally && selection_order(c, inst, ds).len() == 0
}

/// `d` is the first device that selection returns for the enumerated devices `ds`.
pub open spec fn selects_first(
    c: SelectionCriteria,
    inst: SelectorInstanceInfo,
    ds: Seq<PhysicalDevice>,
    d: PhysicalDevice,
) -> bool {
    if c.use_first_gpu_unconditionally {
        filled_out(c, ds[0], ds[0].suitability, d)
    } else {
        let order = selection_order(c, inst, ds);
        order.len() > 0 && filled_out(c, ds[order[0]], spec_suitability(c, inst, ds[order[0]]), d)
    }
}

/// `r` is what `select` returns for the enumerated devices (`None`: the enumeration
/// failed): the error that stops selection, or the first device it selects.
pub open spec fn select_result(
    c: SelectionCriteria,
    inst: SelectorInstanceInfo,
    devices: Option<Seq<PhysicalDevice>>,
    r: Result<PhysicalDevice, PhysicalDeviceError>,
) -> bool {
    match select_precheck(c, inst, devices) {
        Some(e) => r == Err::<PhysicalDevice, PhysicalDeviceError>(e),
        None => if nothing_selected(c, inst, devices.unwrap()) {
            r == Err::<PhysicalDevice, PhysicalDeviceError>(PhysicalDeviceError::NoSuitableDevice)
        } else {
            r matches Ok(d) && selects_first(c, inst, devices.unwrap(), d)
        },
    }
}

/// `r` is what `select_devices` returns for the enumerated devices (`None`: the
/// enumeration failed): the error that stops selection, or the devices it selects, best
/// first.
pub open spec fn select_devices_result(
    c: SelectionCriteria,
    inst: SelectorInstanceInfo,
    devices: Option<Seq<PhysicalDevice>>,
    r: Result<Seq<PhysicalDevice>, PhysicalDeviceError>,
) -> bool {
    match select_precheck(c, inst, devices) {
        Some(e) => r == Err::<Seq<PhysicalDevice>, PhysicalDeviceError>(e),
        None => if nothing_selected(c, inst, devices.unwrap()) {
            r == Err::<Seq<PhysicalDevice>, PhysicalDeviceError>(PhysicalDeviceError::NoSuitableDevice)
        } else {
            r matches Ok(v) && selected_from(c, inst, devices.unwrap(), v)
        },
    }
}

/// A list of devices as a sequence, or the error.
pub open spec fn devices_result(r: Result<Vec<PhysicalDevice>, PhysicalDeviceError>) -> Result<
    Seq<PhysicalDevice>,
    PhysicalDeviceError,
> {
    match r {
        Ok(v) => Ok(v@),
        Err(e) => Err(e),
    }
}

/// Two devices agree on every field, their feature chains and extensions to enable by
/// their views.
pub open spec fn same_device(a: PhysicalDevice, b: PhysicalDevice) -> bool {
    &&& a == (PhysicalDevice {
        feature_chain: a.feature_chain,
        extensions_to_enable: a.extensions_to_enable,
        ..b
    })
    &&& a.feature_chain@ == b.feature_chain@
    &&& names(a.extensions_to_enable@) == names(b.extensions_to_enable@)
}

/// How the driver is asked for the extension features of a device.
#[derive(Clone, Copy, Debug, PartialEq, Eq, Structural)]
pub enum Features2Query {
    /// The chain is left as it is.
    Skip,
    /// Through the core `vkGetPhysicalDeviceFeatures2`.
    Core,
    /// Through `vkGetPhysicalDeviceFeatures2KHR` of the properties-2 extension.
    Extension,
}

/// What the driver reports of one physical device.
#[derive(Debug)]
pub struct DeviceDetails {
    /// Raw handle of the physical device.
    pub physical_device: u64,
    pub properties: PhysicalDeviceProperties,
    pub features: PhysicalDeviceFeatures,
    pub memory_heaps: Vec<MemoryHeap>,
    pub queue_families: Vec<QueueFamilyProperties>,
    /// The device extensions, or `None` when their enumeration failed.
    pub available_extensions: Option<Vec<String>>,
    /// The criteria's feature chain as the driver filled it in.
    pub feature_chain: GenericFeatureChain,
    /// For each queue family, whether it can present to the selector's surface.
    pub present_support: Vec<bool>,
    pub has_surface_formats: bool,
    pub has_present_modes: bool,
}

impl PhysicalDeviceSelector {
    /// The first device that selection returns, or why there is none.
    pub fn select(&self, devices: Option<Vec<PhysicalDevice>>) -> (r: Result<PhysicalDevice, PhysicalDeviceError>)
        requires
            chains_match_criteria(self.criteria, devices),
        ensures
            select_result(self.criteria, self.instance, enumerated(devices), r),
    {
        match self.select_impl(devices) {
            Ok(mut v) => {
                if v.len() == 0 {
                    return Err(PhysicalDeviceError::NoSuitableDevice);
                }
                Ok(v.remove(0))
            },
            Err(e) => Err(e),
        }
    }

    /// The devices that selection returns, best first, or why there are none.
    pub fn select_devices(&self, devices: Option<Vec<PhysicalDevice>>) -> (r: Result<Vec<PhysicalDevice>, PhysicalDeviceError>)
        requires
            chains_match_criteria(self.criteria, devices),
        ensures
            select_devices_result(self.criteria, self.instance, enumerated(devices), devices_result(r)),
    {
        match self.select_impl(devices) {
            Ok(v) => {
                if v.len() == 0 {
                    return Err(PhysicalDeviceError::NoSuitableDevice);
                }
                Ok(v)
            },
            Err(e) => Err(e),
        }
    }

    /// The names of the devices that selection returns, best first, or why there are
    /// none.
    pub fn select_device_names(&self, devices: Option<Vec<PhysicalDevice>>) -> (r: Result<Vec<String>, PhysicalDeviceError>)
        requires
            chains_match_criteria(self.criteria, devices),
        ensures
            match select_precheck(self.criteria, self.instance, enumerated(devices)) {
                Some(e) => r == Err::<Vec<String>, PhysicalDeviceError>(e),
                None => {
                    let ds = enumerated(devices).unwrap();
                    let order = selection_order(self.criteria, self.instance, ds);
                    if nothing_selected(self.criteria, self.instance, ds) {
                        r == Err::<Vec<String>, PhysicalDeviceError>(PhysicalDeviceError::NoSuitableDevice)
                    } else if self.criteria.use_first_gpu_unconditionally {
                        r matches Ok(n) && n@.len() == 1 && n@[0]@ == ds[0].name@
                    } else {
                        r matches Ok(n) && n@.len() == order.len() && forall|k: int|
                            0 <= k < n@.len() ==> (#[trigger] n@[k])@ == ds[order[k]].name@
                    }
                },
            },
    {
        let ghost ds = enumerated(devices).unwrap();
        match self.select_impl(devices) {
            Ok(v) => {
                if v.len() == 0 {
                    return Err(PhysicalDeviceError::NoSuitableDevice);
                }
                let mut names_out: Vec<String> = Vec::new();
                let mut i: usize = 0;
                while i < v.len()
                    invariant
                        i <= v@.len(),
                        names_out@.len() == i,
                        forall|k: int| 0 <= k < i ==> (#[trigger] names_out@[k])@ == v@[k].name@,
                    decreases v@.len() - i,
                {
                    names_out.push(v[i].name.clone());
                    i = i + 1;
                }
                Ok(names_out)
            },
            Err(e) => Err(e),
        }
    }

    /// How the driver is asked to fill in the feature chain of each device: not at all
    /// when the chain is empty or neither Vulkan 1.1 nor the properties-2 extension is
    /// there; else through the core call on 1.1, else through the extension.
    pub fn features2_query(&self) -> (r: Features2Query)
        ensures
            r == (if self.criteria.feature_chain@.len() == 0 || !(self.instance.version >= API_VERSION_1_1
                || self.instance.properties2_ext_enabled) {
                Features2Query::Skip
            } else if self.instance.version >= API_VERSION_1_1 {
                Features2Query::Core
            } else {
                Features2Query::Extension
            }),
    {
        let instance_is_1_1 = self.instance.version >= API_VERSION_1_1;
        if !self.criteria.feature_chain.is_empty() && (instance_is_1_1
            || self.instance.properties2_ext_enabled) {
            if instance_is_1_1 {
                Features2Query::Core
            } else {
                Features2Query::Extension
            }
        } else {
            Features2Query::Skip
        }
    }

    /// The physical device that the driver's report describes, as selection first sees
    /// it: suitable, with nothing to enable yet.
    pub fn populate_device_details(&self, details: DeviceDetails) -> (r: PhysicalDevice)
        ensures
            r.name@ == details.properties.device_name@,
            r.physical_device == details.physical_device,
            r.surface == self.instance.surface,
            r.features == details.features,
            r.properties == details.properties,
            r.memory_heaps == details.memory_heaps,
            r.instance_version == self.instance.version,
            r.extensions_to_enable@.len() == 0,
            r.available_extensions@ == match details.available_extensions {
                Some(v) => v@,
                None => Seq::<String>::empty(),
            },
            r.queue_families == details.queue_families,
            r.feature_chain == details.feature_chain,
            r.defer_surface_initialization == self.criteria.defer_surface_initialization,
            r.properties2_ext_enabled == self.instance.properties2_ext_enabled,
            r.suitability == PhysicalDeviceSuitability::Suitable,
            r.present_support == details.present_support,
            r.has_surface_formats == details.has_surface_formats,
            r.has_present_modes == details.has_present_modes,
    {
        let name = details.properties.device_name.clone();
        let available_extensions = match details.available_extensions {
            Some(v) => v,
            None => Vec::new(),
        };
        PhysicalDevice {
            name,
            physical_device: details.physical_device,
            surface: self.instance.surface,
            features: details.features,
            properties: details.properties,
            memory_heaps: details.memory_heaps,
            instance_version: self.instance.version,
            extensions_to_enable: Vec::new(),
            available_extensions,
            queue_families: details.queue_families,
            feature_chain: details.feature_chain,
            defer_surface_initialization: self.criteria.defer_surface_initialization,
            properties2_ext_enabled: self.instance.properties2_ext_enabled,
            suitability: PhysicalDeviceSuitability::Suitable,
            present_support: details.present_support,
            has_surface_formats: details.has_surface_formats,
            has_present_modes: details.has_present_modes,
        }
    }
}

/// The default criteria: a discrete GPU preferred but any type allowed, presentation
/// required, nothing else required, the portability subset enabled when available.
pub open spec fn default_criteria(c: SelectionCriteria) -> bool {
    &&& c.name@ == Seq::<char>::empty()
    &&& c.preferred_type == PHYSICAL_DEVICE_TYPE_DISCRETE_GPU
    &&& c.allow_any_type
    &&& c.require_present
    &&& !c.require_dedicated_transfer_queue
    &&& !c.require_dedicated_compute_queue
    &&& !c.require_separate_transfer_queue
    &&& !c.require_separate_compute_queue
    &&& c.required_mem_size == 0
    &&& c.required_extensions@.len() == 0
    &&& c.required_version == API_VERSION_1_0
    &&& (forall|i: int| 0 <= i < c.required_features.flags@.len() ==> #[trigger] c.required_features.flags@[i] == 0)
    &&& c.feature_chain@.len() == 0
    &&& !c.defer_surface_initialization
    &&& !c.use_first_gpu_unconditionally
    &&& c.enable_portability_subset
}

impl SelectionCriteria {
    /// The default criteria.
    pub fn new() -> (r: Self)
        ensures
            default_criteria(r),
    {
        SelectionCriteria {
            name: String::new(),
            preferred_type: PHYSICAL_DEVICE_TYPE_DISCRETE_GPU,
            allow_any_type: true,
            require_present: true,
            require_dedicated_transfer_queue: false,
            require_dedicated_compute_queue: false,
            require_separate_transfer_queue: false,
            require_separate_compute_queue: false,
            required_mem_size: 0,
            required_extensions: Vec::new(),
            required_version: API_VERSION_1_0,
            required_features: PhysicalDeviceFeatures::new(),
            feature_chain: GenericFeatureChain::new(),
            defer_surface_initialization: false,
            use_first_gpu_unconditionally: false,
            enable_portability_subset: true,
        }
    }
}

impl PhysicalDeviceSelector {
    /// A selector for the instance, with no surface.
    pub fn new(instance: &Instance) -> (r: Self)
        ensures
            r.instance == (SelectorInstanceInfo {
                surface: None,
                version: instance.instance_version,
                headless: instance.headless,
                properties2_ext_enabled: instance.properties2_ext_enabled,
            }),
            r.criteria == (SelectionCriteria {
                require_present: !instance.headless,
                required_version: instance.api_version,
                ..r.criteria
            }),
            default_criteria(
                SelectionCriteria { require_present: true, required_version: API_VERSION_1_0, ..r.criteria },
            ),
    {
        Self::new_with_surface(instance, None)
    }

    /// A selector for the instance and the surface (its raw handle): presentation is
    /// required unless the instance is headless, and the instance's API version is.
    pub fn new_with_surface(instance: &Instance, surface: Option<u64>) -> (r: Self)
        ensures
            r.instance == (SelectorInstanceInfo {
                surface,
                version: instance.instance_version,
                headless: instance.headless,
                properties2_ext_enabled: instance.properties2_ext_enabled,
            }),
            r.criteria == (SelectionCriteria {
                require_present: !instance.headless,
                required_version: instance.api_version,
                ..r.criteria
            }),
            default_criteria(
                SelectionCriteria { require_present: true, required_version: API_VERSION_1_0, ..r.criteria },
            ),
    {
        let mut criteria = SelectionCriteria::new();
        criteria.require_present = !instance.headless;
        criteria.required_version = instance.api_version;
        PhysicalDeviceSelector {
            criteria,
            instance: SelectorInstanceInfo {
                surface,
                version: instance.instance_version,
                headless: instance.headless,
                properties2_ext_enabled: instance.properties2_ext_enabled,
            },
        }
    }

    /// Sets the surface (its raw handle) to present to.
    pub fn set_surface(self, surface: u64) -> (r: Self)
        ensures
            r.instance == (SelectorInstanceInfo { surface: Some(surface), ..self.instance }),
            r.criteria == self.criteria,
    {
        let mut b = self;
        b.instance.surface = Some(surface);
        b
    }

    /// Only the device of this name is suitable (an empty name allows any).
    pub fn set_name(self, name: &str) -> (r: Self)
        ensures
            r.criteria.name@ == name@,
            r.criteria == (SelectionCriteria { name: r.criteria.name, ..self.criteria }),
            r.instance == self.instance,
    {
        let mut b = self;
        b.criteria.name = name.to_owned();
        b
    }

    /// Sets the preferred device type (`VkPhysicalDeviceType`).
    pub fn prefer_gpu_device_type(self, device_type: i32) -> (r: Self)
        ensures
            r.criteria == (SelectionCriteria { preferred_type: device_type, ..self.criteria }),
            r.instance == self.instance,
    {
        let mut b = self;
        b.criteria.preferred_type = device_type;
        b
    }

    /// Sets whether devices of other types than the preferred one are fully suitable.
    pub fn allow_any_gpu_device_type(self, allow_any: bool) -> (r: Self)
        ensures
            r.criteria == (SelectionCriteria { allow_any_type: allow_any, ..self.criteria }),
            r.instance == self.instance,
    {
        let mut b = self;
        b.criteria.allow_any_type = allow_any;
        b
    }

    /// Sets whether the device must present to the surface.
    pub fn require_present(self, require_present: bool) -> (r: Self)
        ensures
            r.criteria == (SelectionCriteria { require_present, ..self.criteria }),
            r.instance == self.instance,
    {
        let mut b = self;
        b.criteria.require_present = require_present;
        b
    }

    /// Requires a queue family for compute alone.
    pub fn require_dedicated_compute_queue(self) -> (r: Self)
        ensures
            r.criteria == (SelectionCriteria { require_dedicated_compute_queue: true, ..self.criteria }),
            r.instance == self.instance,
    {
        let mut b = self;
        b.criteria.require_dedicated_compute_queue = true;
        b
    }

    /// Requires a queue family for transfer alone.
    pub fn require_dedicated_transfer_queue(self) -> (r: Self)
        ensures
            r.criteria == (SelectionCriteria { require_dedicated_transfer_queue: true, ..self.criteria }),
            r.instance == self.instance,
    {
        let mut b = self;
        b.criteria.require_dedicated_transfer_queue = true;
        b
    }

    /// Requires a non-graphics queue family with transfer.
    pub fn require_separate_transfer_queue(self) -> (r: Self)
        ensures
            r.criteria == (SelectionCriteria { require_separate_transfer_queue: true, ..self.criteria }),
            r.instance == self.instance,
    {
        let mut b = self;
        b.criteria.require_separate_transfer_queue = true;
        b
    }

    /// Requires a non-graphics queue family with compute.
    pub fn require_separate_compute_queue(self) -> (r: Self)
        ensures
            r.criteria == (SelectionCriteria { require_separate_compute_queue: true, ..self.criteria }),
            r.instance == self.instance,
    {
        let mut b = self;
        b.criteria.require_separate_compute_queue = true;
        b
    }

    /// Requires a device-local heap of at least `size` bytes.
    pub fn required_device_memory_size(self, size: u64) -> (r: Self)
        ensures
            r.criteria == (SelectionCriteria { required_mem_size: size, ..self.criteria }),
            r.instance == self.instance,
    {
        let mut b = self;
        b.criteria.required_mem_size = size;
        b
    }

    /// Requires a device extension.
    pub fn add_required_extension(self, extension: &str) -> (r: Self)
        ensures
            names(r.criteria.required_extensions@) == names(self.criteria.required_extensions@).push(extension@),
            r.criteria == (SelectionCriteria { required_extensions: r.criteria.required_extensions, ..self.criteria }),
            r.instance == self.instance,
    {
        let mut b = self;
        push_name(&mut b.criteria.required_extensions, extension);
        b
    }

    /// Does not enable the portability subset extension on the selected device.
    pub fn disable_portability_subset(self) -> (r: Self)
        ensures
            r.criteria == (SelectionCriteria { enable_portability_subset: false, ..self.criteria }),
            r.instance == self.instance,
    {
        let mut b = self;
        b.criteria.enable_portability_subset = false;
        b
    }

    /// Does not check presentation, for a surface created later.
    pub fn defer_surface_initialization(self) -> (r: Self)
        ensures
            r.criteria == (SelectionCriteria { defer_surface_initialization: true, ..self.criteria }),
            r.instance == self.instance,
    {
        let mut b = self;
        b.criteria.defer_surface_initialization = true;
        b
    }

    /// Sets whether the first enumerated device is selected without any check.
    pub fn select_first_gpu_unconditionally(self, unconditionally: bool) -> (r: Self)
        ensures
            r.criteria == (SelectionCriteria { use_first_gpu_unconditionally: unconditionally, ..self.criteria }),
            r.instance == self.instance,
    {
        let mut b = self;
        b.criteria.use_first_gpu_unconditionally = unconditionally;
        b
    }

    /// Requires device extensions, in order.
    pub fn add_required_extensions(self, extensions: &[&str]) -> (r: Self)
        ensures
            names(r.criteria.required_extensions@) == names(self.criteria.required_extensions@)
                + str_names(extensions@),
            r.criteria == (SelectionCriteria {
                required_extensions: r.criteria.required_extensions,
                ..self.criteria
            }),
            r.instance == self.instance,
    {
        let ghost start = self.criteria;
        let mut b = self;
        let mut i: usize = 0;
        while i < extensions.len()
            invariant
                i <= extensions@.len(),
                names(b.criteria.required_extensions@) == names(start.required_extensions@)
                    + str_names(extensions@).take(i as int),
                b.criteria == (SelectionCriteria {
                    required_extensions: b.criteria.required_extensions,
                    ..start
                }),
                b.instance == self.instance,
            decreases extensions@.len() - i,
        {
            push_name(&mut b.criteria.required_extensions, extensions[i]);
            assert(str_names(extensions@).take(i + 1) =~= str_names(extensions@).take(
                i as int,
            ).push(extensions@[i as int]@));
            i = i + 1;
        }
        assert(str_names(extensions@).take(extensions@.len() as int) =~= str_names(extensions@));
        b
    }

    /// Requires at least the given API version (major and minor numbers).
    pub fn set_minimum_version(self, major: u32, minor: u32) -> (r: Self)
        ensures
            r.criteria == (SelectionCriteria {
                required_version: spec_make_api_version(0, major, minor, 0),
                ..self.criteria
            }),
            r.instance == self.instance,
    {
        let mut b = self;
        b.criteria.required_version = make_api_version(0, major, minor, 0);
        b
    }

    /// Adds required core features: every feature enabled in `features` becomes
    /// required.
    pub fn set_required_features(self, features: &PhysicalDeviceFeatures) -> (r: Self)
        ensures
            r.criteria.required_features.flags@ == features_union(
                self.criteria.required_features.flags@,
                features.flags@,
            ),
            r.criteria == (SelectionCriteria {
                required_features: r.criteria.required_features,
                ..self.criteria
            }),
            r.instance == self.instance,
    {
        let mut b = self;
        combine_features(&mut b.criteria.required_features, features);
        b
    }

    /// Adds a required extension feature structure to the criteria's chain.
    pub fn set_required_additional_features(self, features: GenericFeatureNode) -> (r: Self)
        ensures
            r.criteria.feature_chain@ == spec_add_node(self.criteria.feature_chain@, features@),
            r.criteria == (SelectionCriteria {
                feature_chain: r.criteria.feature_chain,
                ..self.criteria
            }),
            r.instance == self.instance,
    {
        let mut b = self;
        b.criteria.feature_chain.add_node(features);
        b
    }
}

/// No name occurs twice in the list.
pub open spec fn no_duplicates(list: Seq<Seq<char>>) -> bool {
    forall|i: int, j: int| 0 <= i < j < list.len() ==> #[trigger] list[i] != #[trigger] list[j]
}

/// The outcome of enabling each of `exts` in turn when it is available and not yet
/// enabled, stopping at the first that is not: whether all were enabled, and the enabled
/// list after.
pub open spec fn spec_enable_all(
    available: Seq<Seq<char>>,
    enabled: Seq<Seq<char>>,
    exts: Seq<Seq<char>>,
) -> (bool, Seq<Seq<char>>)
    decreases exts.len(),
{
    if exts.len() == 0 {
        (true, enabled)
    } else if available.contains(exts[0]) && !enabled.contains(exts[0]) {
        spec_enable_all(available, enabled.push(exts[0]), exts.drop_first())
    } else {
        (false, enabled)
    }
}

/// Adding a name that is not in a duplicate-free list keeps it duplicate-free.
proof fn lemma_push_fresh(list: Seq<Seq<char>>, n: Seq<char>)
    requires
        no_duplicates(list),
        !list.contains(n),
    ensures
        no_duplicates(list.push(n)),
{
    assert forall|i: int, j: int| 0 <= i < j < list.push(n).len() implies #[trigger] list.push(n)[i]
        != #[trigger] list.push(n)[j] by {
        if j == list.len() {
            assert(list.push(n)[i] == list[i]);
        } else {
            assert(list.push(n)[i] == list[i]);
            assert(list.push(n)[j] == list[j]);
        }
    }
}

/// Enabling extensions in turn keeps a duplicate-free list duplicate-free.
proof fn lemma_enable_all_no_duplicates(
    available: Seq<Seq<char>>,
    enabled: Seq<Seq<char>>,
    exts: Seq<Seq<char>>,
)
    requires
        no_duplicates(enabled),
    ensures
        no_duplicates(spec_enable_all(available, enabled, exts).1),
    decreases exts.len(),
{
    if exts.len() > 0 && available.contains(exts[0]) && !enabled.contains(exts[0]) {
        lemma_push_fresh(enabled, exts[0]);
        lemma_enable_all_no_duplicates(available, enabled.push(exts[0]), exts.drop_first());
    }
}

/// The device with a different list of extensions to enable.
pub open spec fn same_but_extensions(a: PhysicalDevice, b: PhysicalDevice) -> bool {
    a == (PhysicalDevice { extensions_to_enable: a.extensions_to_enable, ..b })
}

impl PhysicalDevice {
    /// Whether some queue family is for compute alone.
    pub fn has_dedicated_compute_queue(&self) -> (r: bool)
        ensures
            r == has_dedicated(self.queue_families@, QUEUE_COMPUTE, QUEUE_TRANSFER),
    {
        get_dedicated_queue_index(self.queue_families.as_slice(), QUEUE_COMPUTE, QUEUE_TRANSFER).is_some()
    }

    /// Whether some queue family is for transfer alone.
    pub fn has_dedicated_transfer_queue(&self) -> (r: bool)
        ensures
            r == has_dedicated(self.queue_families@, QUEUE_TRANSFER, QUEUE_COMPUTE),
    {
        get_dedicated_queue_index(self.queue_families.as_slice(), QUEUE_TRANSFER, QUEUE_COMPUTE).is_some()
    }

    /// Whether some non-graphics queue family has compute.
    pub fn has_separate_compute_queue(&self) -> (r: bool)
        ensures
            r == has_separate(self.queue_families@, QUEUE_COMPUTE),
    {
        get_separate_queue_index(self.queue_families.as_slice(), QUEUE_COMPUTE, QUEUE_TRANSFER).is_some()
    }

    /// Whether some non-graphics queue family has transfer.
    pub fn has_separate_transfer_queue(&self) -> (r: bool)
        ensures
            r == has_separate(self.queue_families@, QUEUE_TRANSFER),
    {
        get_separate_queue_index(self.queue_families.as_slice(), QUEUE_TRANSFER, QUEUE_COMPUTE).is_some()
    }

    /// The queue families of the device.
    pub fn get_queue_families(&self) -> (r: Vec<QueueFamilyProperties>)
        ensures
            r@ == self.queue_families@,
    {
        let mut r: Vec<QueueFamilyProperties> = Vec::new();
        let mut i: usize = 0;
        while i < self.queue_families.len()
            invariant
                i <= self.queue_families@.len(),
                r@ == self.queue_families@.take(i as int),
            decreases self.queue_families@.len() - i,
        {
            r.push(self.queue_families[i]);
            assert(r@ =~= self.queue_families@.take(i + 1));
            i = i + 1;
        }
        assert(r@ =~= self.queue_families@);
        r
    }

    /// The extensions to enable on the device.
    pub fn get_extensions(&self) -> (r: Vec<String>)
        ensures
            names(r@) == names(self.extensions_to_enable@),
    {
        copy_names(&self.extensions_to_enable)
    }

    /// The extensions the device has.
    pub fn get_available_extensions(&self) -> (r: Vec<String>)
        ensures
            names(r@) == names(self.available_extensions@),
    {
        copy_names(&self.available_extensions)
    }

    /// Whether the device has the extension.
    pub fn is_extension_present(&self, ext: &str) -> (r: bool)
        ensures
            r == names(self.available_extensions@).contains(ext@),
    {
        let name = ext.to_owned();
        contains_name(self.available_extensions.as_slice(), &name)
    }

    /// Enables the extension when the device has it and it is not enabled yet; tells
    /// whether it did.
    pub fn enable_extension_if_present(&mut self, ext: &str) -> (r: bool)
        ensures
            r == (names(old(self).available_extensions@).contains(ext@) && !names(
                old(self).extensions_to_enable@,
            ).contains(ext@)),
            names(final(self).extensions_to_enable@) == names(old(self).extensions_to_enable@)
                + opt_name(r, ext@),
            same_but_extensions(*final(self), *old(self)),
            no_duplicates(names(old(self).extensions_to_enable@)) ==> no_duplicates(
                names(final(self).extensions_to_enable@),
            ),
    {
        let name = ext.to_owned();
        if self.is_extension_present(ext) && !contains_name(
            self.extensions_to_enable.as_slice(),
            &name,
        ) {
            let ghost before = names(self.extensions_to_enable@);
            push_name(&mut self.extensions_to_enable, ext);
            proof {
                assert(names(self.extensions_to_enable@) =~= before + opt_name(true, ext@));
                if no_duplicates(before) {
                    lemma_push_fresh(before, ext@);
                }
            }
            return true;
        }
        assert(names(self.extensions_to_enable@) =~= names(old(self).extensions_to_enable@)
            + opt_name(false, ext@));
        false
    }

    /// Enables each extension in turn when the device has it and it is not enabled yet,
    /// stopping at the first that fails; tells whether all were enabled.
    pub fn enable_extensions_if_present(&mut self, extensions: &[&str]) -> (r: bool)
        ensures
            (r, names(final(self).extensions_to_enable@)) == spec_enable_all(
                names(old(self).available_extensions@),
                names(old(self).extensions_to_enable@),
                str_names(extensions@),
            ),
            same_but_extensions(*final(self), *old(self)),
            no_duplicates(names(old(self).extensions_to_enable@)) ==> no_duplicates(
                names(final(self).extensions_to_enable@),
            ),
    {
        proof {
            if no_duplicates(names(self.extensions_to_enable@)) {
                lemma_enable_all_no_duplicates(
                    names(self.available_extensions@),
                    names(self.extensions_to_enable@),
                    str_names(extensions@),
                );
            }
        }
        assert(str_names(extensions@).skip(0) =~= str_names(extensions@));
        let mut i: usize = 0;
        while i < extensions.len()
            invariant
                i <= extensions@.len(),
                same_but_extensions(*self, *old(self)),
                no_duplicates(names(old(self).extensions_to_enable@)) ==> no_duplicates(
                    spec_enable_all(
                        names(old(self).available_extensions@),
                        names(old(self).extensions_to_enable@),
                        str_names(extensions@),
                    ).1,
                ),
                spec_enable_all(
                    names(old(self).available_extensions@),
                    names(old(self).extensions_to_enable@),
                    str_names(extensions@),
                ) == spec_enable_all(
                    names(self.available_extensions@),
                    names(self.extensions_to_enable@),
                    str_names(extensions@).skip(i as int),
                ),
            decreases extensions@.len() - i,
        {
            let ghost rest = str_names(extensions@).skip(i as int);
            assert(rest[0] == extensions@[i as int]@);
            assert(rest.drop_first() =~= str_names(extensions@).skip(i + 1));
            let ghost prev = names(self.extensions_to_enable@);
            if !self.enable_extension_if_present(extensions[i]) {
                assert(names(self.extensions_to_enable@) =~= prev);
                return false;
            }
            assert(names(self.extensions_to_enable@) =~= prev.push(extensions@[i as int]@));
            i = i + 1;
        }
        true
    }
}

} // verus!
