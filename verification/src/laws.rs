//! Properties that relate the operations of the library to one another.

use vstd::prelude::*;

use crate::feature_chain::{
    distinct_types, node_matched, spec_add_node, is_first_of_type,
};
use crate::features::{enabled, features_subset, features_union, spec_bool32};
use crate::model::{SurfaceCapabilities, QUEUE_GRAPHICS};
use crate::physical_device::{
    PhysicalDeviceSuitability, SelectionCriteria, SelectorInstanceInfo, PhysicalDevice,
    selection_order, positions, positions_with, has_suitability, spec_suitability, spec_enable_all, no_duplicates,
    select_result, select_devices_result, same_device, filled_out,
};
use crate::errors::{InstanceError, PhysicalDeviceError, SwapchainError};
use crate::device::{
    Device, DeviceInfo, QueueType, is_queue_index, spec_device_extensions, spec_queue_families,
};
use crate::instance::{
    InstanceInfo, WindowingPlatform, spec_api_version, spec_build_error, spec_instance_version,
    spec_layers, spec_extensions,
};
use crate::model::{
    API_VERSION_1_0, API_VERSION_1_1, COLOR_SPACE_SRGB_NONLINEAR, EXT_LAYER_SETTINGS_NAME,
    FORMAT_B8G8R8A8_SRGB, FORMAT_R8G8B8A8_SRGB, KHR_GET_PHYSICAL_DEVICE_PROPERTIES2_NAME,
    KHR_PORTABILITY_ENUMERATION_NAME, KHR_SURFACE_NAME, KHR_SWAPCHAIN_NAME,
    MEMORY_HEAP_DEVICE_LOCAL, PRESENT_MODE_FIFO, PRESENT_MODE_MAILBOX, QUEUE_COMPUTE,
    QUEUE_TRANSFER, SurfaceFormat,
};
use crate::system_info::{EXT_DEBUG_UTILS_NAME, SystemInfo, VALIDATION_LAYER_NAME};
use crate::swapchain::{
    SwapchainInfo, image_count_computable, picks_format, picks_present_mode, spec_array_layers,
    spec_image_count,
};
use crate::utils::{
    clamp_between, is_dedicated_family, is_first_dedicated, is_separate_choice,
    is_separate_family, names, spec_find_extent, supported_names, is_first_available_format,
    is_first_available_mode,
};
use crate::vulkan::{flags_contain, flags_intersect};

verus! {

/// Every feature set asks for nothing beyond itself.
pub proof fn law_supports_reflexive(a: Seq<u32>)
    ensures
        features_subset(a, a),
{
}

/// Asking for nothing beyond `b`, which asks for nothing beyond `c`, asks for nothing
/// beyond `c`.
pub proof fn law_supports_transitive(a: Seq<u32>, b: Seq<u32>, c: Seq<u32>)
    requires
        a.len() <= b.len(),
        features_subset(a, b),
        features_subset(b, c),
    ensures
        features_subset(a, c),
{
    assert forall|i: int| 0 <= i < a.len() && #[trigger] enabled(a[i]) implies enabled(c[i]) by {
        assert(enabled(b[i]));
    }
}

/// Combining feature sets keeps every feature of each: both ask for nothing beyond their
/// combination.
pub proof fn law_combine_contains_both(a: Seq<u32>, b: Seq<u32>)
    requires
        a.len() == b.len(),
    ensures
        features_subset(a, features_union(a, b)),
        features_subset(b, features_union(a, b)),
{
    assert forall|i: int| 0 <= i < b.len() && #[trigger] enabled(b[i]) implies enabled(
        features_union(a, b)[i],
    ) by {}
}

/// Requiring two feature sets one after the other is requiring both: a device meets the
/// combination exactly when it meets each.
pub proof fn law_combined_requirement(a: Seq<u32>, b: Seq<u32>, device: Seq<u32>)
    requires
        a.len() == b.len(),
    ensures
        features_subset(features_union(a, b), device) <==> (features_subset(a, device)
            && features_subset(b, device)),
{
    let u = features_union(a, b);
    if features_subset(u, device) {
        assert forall|i: int| 0 <= i < a.len() && #[trigger] enabled(a[i]) implies enabled(device[i]) by {
            assert(enabled(u[i]));
        }
        assert forall|i: int| 0 <= i < b.len() && #[trigger] enabled(b[i]) implies enabled(device[i]) by {
            assert(enabled(u[i]));
        }
    }
    if features_subset(a, device) && features_subset(b, device) {
        assert forall|i: int| 0 <= i < u.len() && #[trigger] enabled(u[i]) implies enabled(device[i]) by {
            if enabled(a[i]) {
            } else {
                assert(enabled(b[i]));
            }
        }
    }
}

/// Combining is the same in either order.
pub proof fn law_combine_commutative(a: Seq<u32>, b: Seq<u32>)
    requires
        a.len() == b.len(),
    ensures
        features_union(a, b) == features_union(b, a),
{
    assert(features_union(a, b) =~= features_union(b, a));
}

/// After a node is added, the chain has a node of its structure type that enables all
/// it asks for, and its structure types stay distinct.
pub proof fn law_add_node_covers_node(chain: Seq<(i32, Seq<u32>)>, node: (i32, Seq<u32>))
    requires
        distinct_types(chain),
        forall|i: int| 0 <= i < chain.len() ==> (#[trigger] chain[i]).1.len() == node.1.len(),
    ensures
        node_matched(spec_add_node(chain, node), node),
{
    let after = spec_add_node(chain, node);
    if exists|i: int| is_first_of_type(chain, node.0, i) {
        let i = choose|i: int| is_first_of_type(chain, node.0, i);
        law_combine_contains_both(chain[i].1, node.1);
        assert(after == chain.update(i, (chain[i].0, features_union(chain[i].1, node.1))));
        assert(after[i] == (chain[i].0, features_union(chain[i].1, node.1)));
        assert(after[i].0 == node.0);
        assert(features_subset(node.1, after[i].1));
        assert(0 <= i < after.len() && after[i].0 == node.0 && features_subset(node.1, after[i].1));
    } else {
        assert(after == chain.push(node));
        assert(after[chain.len() as int] == node);
        law_supports_reflexive(node.1);
        assert(after[chain.len() as int].0 == node.0);
    }
}

/// A dedicated family is a separate family; when one exists, separate-queue selection
/// picks the first dedicated family.
pub proof fn law_separate_prefers_dedicated(
    families: Seq<crate::model::QueueFamilyProperties>,
    desired: u32,
    undesired: u32,
    i: int,
    j: int,
)
    requires
        is_first_dedicated(families, desired, undesired, i),
        is_separate_choice(families, desired, undesired, j),
    ensures
        i == j,
{
    if flags_intersect(families[j].queue_flags, undesired) {
        assert(!is_dedicated_family(families[i].queue_flags, desired, undesired));
    } else {
        assert(is_dedicated_family(families[j].queue_flags, desired, undesired));
        if i < j {
            assert(!is_dedicated_family(families[i].queue_flags, desired, undesired));
        } else if j < i {
            assert(!is_dedicated_family(families[j].queue_flags, desired, undesired));
        }
    }
}

/// The chosen separate family never has graphics.
pub proof fn law_separate_is_not_graphics(
    families: Seq<crate::model::QueueFamilyProperties>,
    desired: u32,
    undesired: u32,
    j: int,
)
    requires
        is_separate_choice(families, desired, undesired, j),
    ensures
        !flags_contain(families[j].queue_flags, QUEUE_GRAPHICS),
{
}

/// All required extensions are supported exactly when the supported ones are as many as
/// the required ones.
pub proof fn law_extension_support_complete(available: Seq<String>, required: Seq<String>)
    ensures
        supported_names(available, required).len() == required.len() <==> forall|i: int|
            0 <= i < required.len() ==> names(available).contains(#[trigger] names(required)[i]),
    decreases required.len(),
{
    let p = |n: Seq<char>| names(available).contains(n);
    reveal(Seq::filter);
    if required.len() > 0 {
        let rest = required.drop_last();
        law_extension_support_complete(available, rest);
        assert(names(required).drop_last() =~= names(rest));
        assert(names(required).last() == required.last()@);
        names(rest).lemma_filter_len(p);
        if supported_names(available, required).len() == required.len() {
            assert(supported_names(available, rest).len() <= rest.len());
            assert forall|i: int| 0 <= i < required.len() implies names(available).contains(
                #[trigger] names(required)[i],
            ) by {
                if i < rest.len() {
                    assert(names(required)[i] == names(rest)[i]);
                }
            }
        }
        if forall|i: int| 0 <= i < required.len() ==> names(available).contains(#[trigger] names(required)[i]) {
            assert forall|i: int| 0 <= i < rest.len() implies names(available).contains(
                #[trigger] names(rest)[i],
            ) by {
                assert(names(required)[i] == names(rest)[i]);
            }
            assert(names(available).contains(names(required)[required.len() - 1]));
        }
    }
}

/// When the surface leaves the extent open and its minimum is not above its maximum,
/// the chosen extent lies between them.
pub proof fn law_extent_within_bounds(caps: SurfaceCapabilities, width: u32, height: u32)
    requires
        caps.current_extent.width == u32::MAX,
        caps.min_image_extent.width <= caps.max_image_extent.width,
        caps.min_image_extent.height <= caps.max_image_extent.height,
    ensures
        caps.min_image_extent.width <= spec_find_extent(caps, width, height).width
            <= caps.max_image_extent.width,
        caps.min_image_extent.height <= spec_find_extent(caps, width, height).height
            <= caps.max_image_extent.height,
{
}

/// The image count asked of the swapchain never exceeds the surface's maximum (when it
/// has one), and is at least the surface's minimum unless that maximum caps it.
pub proof fn law_image_count_within_bounds(info: SwapchainInfo, caps: SurfaceCapabilities)
    requires
        image_count_computable(info, caps),
        spec_image_count(info, caps) is Ok,
    ensures
        caps.max_image_count == 0 || spec_image_count(info, caps).unwrap() <= caps.max_image_count,
        spec_image_count(info, caps).unwrap() >= caps.min_image_count || spec_image_count(
            info,
            caps,
        ).unwrap() == caps.max_image_count,
{
}

/// The swapchain has at least one array layer when the surface allows one.
pub proof fn law_array_layers_positive(info: SwapchainInfo, caps: SurfaceCapabilities)
    requires
        caps.max_image_array_layers >= 1,
    ensures
        1 <= spec_array_layers(info, caps) <= caps.max_image_array_layers,
{
}

/// Ranked selection returns no unsuitable device, and no partially suitable device ahead
/// of a suitable one.
pub proof fn law_selection_ranks_suitable_first(
    c: SelectionCriteria,
    inst: SelectorInstanceInfo,
    ds: Seq<PhysicalDevice>,
    k1: int,
    k2: int,
)
    requires
        0 <= k1 < k2 < selection_order(c, inst, ds).len(),
    ensures
        spec_suitability(c, inst, ds[selection_order(c, inst, ds)[k1]]) != PhysicalDeviceSuitability::Unsuitable,
        spec_suitability(c, inst, ds[selection_order(c, inst, ds)[k2]]) != PhysicalDeviceSuitability::Unsuitable,
        !(spec_suitability(c, inst, ds[selection_order(c, inst, ds)[k1]]) == PhysicalDeviceSuitability::PartiallySuitable
            && spec_suitability(c, inst, ds[selection_order(c, inst, ds)[k2]]) == PhysicalDeviceSuitability::Suitable),
{
    broadcast use vstd::seq_lib::group_filter_ensures;
    let ps = has_suitability(c, inst, ds, PhysicalDeviceSuitability::Suitable);
    let pp = has_suitability(c, inst, ds, PhysicalDeviceSuitability::PartiallySuitable);
    let a = positions_with(c, inst, ds, PhysicalDeviceSuitability::Suitable);
    let b = positions_with(c, inst, ds, PhysicalDeviceSuitability::PartiallySuitable);
    let order = selection_order(c, inst, ds);
    assert(a == positions(ds.len()).filter(ps));
    assert(b == positions(ds.len()).filter(pp));
    if k1 < a.len() {
        assert(order[k1] == a[k1]);
        assert(ps(a[k1]));
    } else {
        assert(order[k1] == b[k1 - a.len()]);
        assert(pp(b[k1 - a.len()]));
    }
    if k2 < a.len() {
        assert(order[k2] == a[k2]);
        assert(ps(a[k2]));
    } else {
        assert(order[k2] == b[k2 - a.len()]);
        assert(pp(b[k2 - a.len()]));
    }
}

/// Ranked selection leaves out no device that the criteria do not find unsuitable.
pub proof fn law_selection_complete(
    c: SelectionCriteria,
    inst: SelectorInstanceInfo,
    ds: Seq<PhysicalDevice>,
    i: int,
)
    requires
        0 <= i < ds.len(),
        spec_suitability(c, inst, ds[i]) != PhysicalDeviceSuitability::Unsuitable,
    ensures
        selection_order(c, inst, ds).contains(i),
{
    let s = spec_suitability(c, inst, ds[i]);
    let pos = positions(ds.len());
    let a = positions_with(c, inst, ds, PhysicalDeviceSuitability::Suitable);
    let b = positions_with(c, inst, ds, PhysicalDeviceSuitability::PartiallySuitable);
    let order = selection_order(c, inst, ds);
    assert(pos[i] == i);
    pos.lemma_filter_contains(has_suitability(c, inst, ds, s), i);
    if s == PhysicalDeviceSuitability::Suitable {
        let k = choose|k: int| 0 <= k < a.len() && a[k] == i;
        assert(order[k] == i);
    } else {
        let k = choose|k: int| 0 <= k < b.len() && b[k] == i;
        assert(order[a.len() + k] == i);
    }
}

/// `select` returns the first device of those that `select_devices` returns for the
/// same enumeration: one succeeds exactly when the other does, the device agrees with
/// the first of the list, and otherwise both return the same error.
pub proof fn law_select_is_first_of_select_devices(
    c: SelectionCriteria,
    inst: SelectorInstanceInfo,
    devices: Option<Seq<PhysicalDevice>>,
    one: Result<PhysicalDevice, PhysicalDeviceError>,
    all: Result<Seq<PhysicalDevice>, PhysicalDeviceError>,
)
    requires
        select_result(c, inst, devices, one),
        select_devices_result(c, inst, devices, all),
    ensures
        one is Ok <==> all is Ok,
        one matches Ok(d) ==> (all matches Ok(v) && v.len() > 0 && same_device(d, v[0])),
        one matches Err(e) ==> all == Err::<Seq<PhysicalDevice>, PhysicalDeviceError>(e),
{
    if let Ok(d) = one {
        let ds = devices.unwrap();
        let v = all->Ok_0;
        if c.use_first_gpu_unconditionally {
            lemma_filled_out_agree(c, ds[0], ds[0].suitability, d, v[0]);
        } else {
            let order = selection_order(c, inst, ds);
            let k = order[0];
            assert(filled_out(c, ds[k], spec_suitability(c, inst, ds[k]), v[0]));
            lemma_filled_out_agree(c, ds[k], spec_suitability(c, inst, ds[k]), d, v[0]);
        }
    }
}

/// Two devices filled out from the same device with the same suitability agree.
proof fn lemma_filled_out_agree(
    c: SelectionCriteria,
    src: PhysicalDevice,
    suitability: PhysicalDeviceSuitability,
    a: PhysicalDevice,
    b: PhysicalDevice,
)
    requires
        filled_out(c, src, suitability, a),
        filled_out(c, src, suitability, b),
    ensures
        same_device(a, b),
{
}

/// Enabling the same extensions a second time enables nothing more: once a run has
/// enabled them all, a second run stops at the first of them (when there is one).
pub proof fn law_enable_twice(available: Seq<Seq<char>>, enabled_list: Seq<Seq<char>>, exts: Seq<Seq<char>>)
    requires
        exts.len() > 0,
        spec_enable_all(available, enabled_list, exts).0,
    ensures
        spec_enable_all(available, spec_enable_all(available, enabled_list, exts).1, exts)
            == (false, spec_enable_all(available, enabled_list, exts).1),
{
    lemma_enable_all_contains_first(available, enabled_list, exts);
}

/// A successful run of enabling leaves its first extension enabled.
proof fn lemma_enable_all_contains_first(available: Seq<Seq<char>>, enabled_list: Seq<Seq<char>>, exts: Seq<Seq<char>>)
    requires
        exts.len() > 0,
        spec_enable_all(available, enabled_list, exts).0,
    ensures
        spec_enable_all(available, enabled_list, exts).1.contains(exts[0]),
{
    assert(enabled_list.push(exts[0])[enabled_list.len() as int] == exts[0]);
    lemma_enable_all_keeps(available, enabled_list.push(exts[0]), exts.drop_first(), exts[0]);
}

/// Enabling keeps every name already enabled.
proof fn lemma_enable_all_keeps(available: Seq<Seq<char>>, enabled_list: Seq<Seq<char>>, exts: Seq<Seq<char>>, n: Seq<char>)
    requires
        enabled_list.contains(n),
    ensures
        spec_enable_all(available, enabled_list, exts).1.contains(n),
    decreases exts.len(),
{
    if exts.len() > 0 && available.contains(exts[0]) && !enabled_list.contains(exts[0]) {
        let k = choose|k: int| 0 <= k < enabled_list.len() && enabled_list[k] == n;
        assert(enabled_list.push(exts[0])[k] == n);
        lemma_enable_all_keeps(available, enabled_list.push(exts[0]), exts.drop_first(), n);
    }
}

/// With no desired and no required image count, the swapchain asks for one image more
/// than the surface's minimum, lowered to the surface's maximum only when that maximum
/// is nonzero and smaller.
pub proof fn law_default_image_count(info: SwapchainInfo, caps: SurfaceCapabilities)
    requires
        info.required_min_image_count == 0,
        info.min_image_count == 0,
        caps.min_image_count < u32::MAX,
    ensures
        caps.max_image_count == 0 || caps.max_image_count > caps.min_image_count
            ==> spec_image_count(info, caps) == Ok::<u32, SwapchainError>((caps.min_image_count + 1) as u32),
        0 < caps.max_image_count <= caps.min_image_count
            ==> spec_image_count(info, caps) == Ok::<u32, SwapchainError>(caps.max_image_count),
{
}

/// With a desired image count and no required one, the swapchain asks for the desired
/// count raised to the surface's minimum, lowered to the surface's maximum when that
/// maximum is nonzero and smaller.
pub proof fn law_desired_image_count(info: SwapchainInfo, caps: SurfaceCapabilities)
    requires
        info.required_min_image_count == 0,
        info.min_image_count > 0,
    ensures
        ({
            let raised = if info.min_image_count < caps.min_image_count {
                caps.min_image_count
            } else {
                info.min_image_count
            };
            spec_image_count(info, caps) == Ok::<u32, SwapchainError>(
                if 0 < caps.max_image_count < raised { caps.max_image_count } else { raised },
            )
        }),
{
}

/// A required image count below the surface's minimum fails; otherwise it is asked for,
/// lowered to the surface's maximum when that maximum is nonzero and smaller.
pub proof fn law_required_image_count(info: SwapchainInfo, caps: SurfaceCapabilities)
    requires
        info.required_min_image_count >= 1,
    ensures
        info.required_min_image_count < caps.min_image_count ==> spec_image_count(info, caps)
            == Err::<u32, SwapchainError>(SwapchainError::RequiredMinImageCountTooLow),
        info.required_min_image_count >= caps.min_image_count ==> spec_image_count(info, caps)
            == Ok::<u32, SwapchainError>(
            if 0 < caps.max_image_count < info.required_min_image_count {
                caps.max_image_count
            } else {
                info.required_min_image_count
            },
        ),
{
}

/// A device is unsuitable when it fails any one criterion: its name differs from the
/// one asked for, its API version is too old, a required dedicated or separate compute
/// or transfer family is missing, it cannot present when presentation is required now,
/// a required extension is missing, the surface offers no format or present mode, a
/// required core feature is missing, or no device-local heap is large enough.
pub proof fn law_unsuitable_when_a_check_fails(
    c: SelectionCriteria,
    inst: SelectorInstanceInfo,
    pd: PhysicalDevice,
)
    ensures
        c.name@.len() > 0 && c.name@ != pd.name@ ==> spec_suitability(c, inst, pd)
            == PhysicalDeviceSuitability::Unsuitable,
        c.required_version > pd.properties.api_version ==> spec_suitability(c, inst, pd)
            == PhysicalDeviceSuitability::Unsuitable,
        c.require_dedicated_compute_queue && (forall|i: int|
            0 <= i < pd.queue_families@.len() ==> !({
                let f = #[trigger] pd.queue_families@[i].queue_flags;
                f & QUEUE_COMPUTE == QUEUE_COMPUTE && f & QUEUE_GRAPHICS != QUEUE_GRAPHICS && f
                    & QUEUE_TRANSFER == 0
            })) ==> spec_suitability(c, inst, pd) == PhysicalDeviceSuitability::Unsuitable,
        c.require_dedicated_transfer_queue && (forall|i: int|
            0 <= i < pd.queue_families@.len() ==> !({
                let f = #[trigger] pd.queue_families@[i].queue_flags;
                f & QUEUE_TRANSFER == QUEUE_TRANSFER && f & QUEUE_GRAPHICS != QUEUE_GRAPHICS && f
                    & QUEUE_COMPUTE == 0
            })) ==> spec_suitability(c, inst, pd) == PhysicalDeviceSuitability::Unsuitable,
        c.require_separate_compute_queue && (forall|i: int|
            0 <= i < pd.queue_families@.len() ==> !({
                let f = #[trigger] pd.queue_families@[i].queue_flags;
                f & QUEUE_COMPUTE == QUEUE_COMPUTE && f & QUEUE_GRAPHICS != QUEUE_GRAPHICS
            })) ==> spec_suitability(c, inst, pd) == PhysicalDeviceSuitability::Unsuitable,
        c.require_separate_transfer_queue && (forall|i: int|
            0 <= i < pd.queue_families@.len() ==> !({
                let f = #[trigger] pd.queue_families@[i].queue_flags;
                f & QUEUE_TRANSFER == QUEUE_TRANSFER && f & QUEUE_GRAPHICS != QUEUE_GRAPHICS
            })) ==> spec_suitability(c, inst, pd) == PhysicalDeviceSuitability::Unsuitable,
        c.require_present && !c.defer_surface_initialization && (inst.surface is None || forall|i: int|
            0 <= i < pd.present_support@.len() ==> !#[trigger] pd.present_support@[i])
            ==> spec_suitability(c, inst, pd) == PhysicalDeviceSuitability::Unsuitable,
        (exists|k: int|
            0 <= k < c.required_extensions@.len() && !names(pd.available_extensions@).contains(
                #[trigger] c.required_extensions@[k]@,
            )) ==> spec_suitability(c, inst, pd) == PhysicalDeviceSuitability::Unsuitable,
        c.require_present && !c.defer_surface_initialization && (!pd.has_surface_formats
            || !pd.has_present_modes) ==> spec_suitability(c, inst, pd)
            == PhysicalDeviceSuitability::Unsuitable,
        (exists|i: int|
            0 <= i < c.required_features.flags@.len() && #[trigger] c.required_features.flags@[i] != 0
                && pd.features.flags@[i] == 0) ==> spec_suitability(c, inst, pd)
            == PhysicalDeviceSuitability::Unsuitable,
        (forall|i: int|
            0 <= i < pd.memory_heaps@.len() ==> !({
                let h = #[trigger] pd.memory_heaps@[i];
                h.flags & MEMORY_HEAP_DEVICE_LOCAL == MEMORY_HEAP_DEVICE_LOCAL && h.size
                    >= c.required_mem_size
            })) ==> spec_suitability(c, inst, pd) == PhysicalDeviceSuitability::Unsuitable,
{
    let req = c.required_extensions@;
    let avail = pd.available_extensions@;
    law_extension_support_complete(avail, req);
    if exists|k: int| 0 <= k < req.len() && !names(avail).contains(#[trigger] req[k]@) {
        let k = choose|k: int| 0 <= k < req.len() && !names(avail).contains(#[trigger] req[k]@);
        assert(names(req)[k] == req[k]@);
        assert(supported_names(avail, req).len() != req.len());
    }
    let rf = c.required_features.flags@;
    let df = pd.features.flags@;
    if exists|i: int| 0 <= i < rf.len() && #[trigger] rf[i] != 0 && df[i] == 0 {
        let i = choose|i: int| 0 <= i < rf.len() && #[trigger] rf[i] != 0 && df[i] == 0;
        assert(enabled(rf[i]) && !enabled(df[i]));
        assert(!features_subset(rf, df));
    }
}

/// Once the loader reports version 1.1 or newer and the version checks pass, the API
/// version asked of the instance is the required API version; on a 1.0 loader it is the
/// loader's version.
pub proof fn law_api_version_follows_requirement(info: InstanceInfo, v: u32)
    requires
        info.minimum_instance_version > API_VERSION_1_0 || info.required_api_version > API_VERSION_1_0,
        v >= info.minimum_instance_version,
        info.minimum_instance_version != 0 || v >= info.required_api_version,
    ensures
        spec_instance_version(info, Some(v)) == Ok::<u32, InstanceError>(v),
        v >= API_VERSION_1_1 ==> spec_api_version(info, v) == info.required_api_version,
        v < API_VERSION_1_1 ==> spec_api_version(info, v) == v,
{
}

/// When neither the minimum instance version nor the required API version is above 1.0,
/// the loader is not asked, and instance and API version are 1.0.
pub proof fn law_version_without_query(info: InstanceInfo, reported: Option<u32>)
    requires
        info.minimum_instance_version <= API_VERSION_1_0,
        info.required_api_version <= API_VERSION_1_0,
    ensures
        spec_instance_version(info, reported) == Ok::<u32, InstanceError>(API_VERSION_1_0),
        spec_api_version(info, API_VERSION_1_0) == API_VERSION_1_0,
{
}

/// The device extensions are the selected ones, followed by the swapchain extension
/// exactly when the device has a surface or defers its initialization.
pub proof fn law_device_swapchain_extension(pd: PhysicalDevice)
    ensures
        pd.surface is Some || pd.defer_surface_initialization ==> {
            &&& spec_device_extensions(pd).len() == pd.extensions_to_enable@.len() + 1
            &&& spec_device_extensions(pd).last() == KHR_SWAPCHAIN_NAME@
        },
        !(pd.surface is Some || pd.defer_surface_initialization) ==> spec_device_extensions(pd).len()
            == pd.extensions_to_enable@.len(),
{
}

/// A validation layer that is only requested is added exactly when the loader has it;
/// one that is required is always added.
pub proof fn law_validation_layer(info: InstanceInfo, sys: SystemInfo)
    ensures
        info.enable_validation_layers ==> spec_layers(info, sys).len()
            == info.enabled_layers@.len() + 1 && spec_layers(info, sys).last() == VALIDATION_LAYER_NAME@,
        !info.enable_validation_layers ==> (spec_layers(info, sys).len() == info.enabled_layers@.len() + 1
            <==> info.request_validation_layers && sys.layer_names().contains(VALIDATION_LAYER_NAME@)),
        !info.enable_validation_layers && info.request_validation_layers && sys.layer_names().contains(
            VALIDATION_LAYER_NAME@,
        ) ==> spec_layers(info, sys).last() == VALIDATION_LAYER_NAME@,
{
}

/// Requesting validation never makes instance creation fail on layers: when the loader
/// has every explicitly enabled layer and validation is not required, the layers are
/// available.
pub proof fn law_requested_validation_never_fails(
    info: InstanceInfo,
    sys: SystemInfo,
    reported: Option<u32>,
    platform: WindowingPlatform,
)
    requires
        !info.enable_validation_layers,
        forall|i: int|
            0 <= i < info.enabled_layers@.len() ==> sys.layer_names().contains(
                #[trigger] info.enabled_layers@[i]@,
            ),
    ensures
        spec_build_error(info, sys, reported, platform) != Some(
            InstanceError::RequestedLayersUnavailable,
        ),
{
    let layers = spec_layers(info, sys);
    assert forall|i: int| 0 <= i < layers.len() implies sys.layer_names().contains(
        #[trigger] layers[i],
    ) by {
        if i < info.enabled_layers@.len() {
            assert(layers[i] == names(info.enabled_layers@)[i]);
            assert(names(info.enabled_layers@)[i] == info.enabled_layers@[i]@);
        }
    }
}

/// The present mode picked is one the surface supports, or FIFO. With no desired modes it
/// is mailbox when the surface has it, else FIFO; with desired modes it is the first of
/// them when the surface has that one.
pub proof fn law_present_mode_choice(info: SwapchainInfo, modes: Seq<i32>, m: i32)
    requires
        picks_present_mode(info, modes, m),
    ensures
        m == PRESENT_MODE_FIFO || modes.contains(m),
        info.desired_present_modes@.len() == 0 && modes.contains(PRESENT_MODE_MAILBOX) ==> m
            == PRESENT_MODE_MAILBOX,
        info.desired_present_modes@.len() == 0 && !modes.contains(PRESENT_MODE_MAILBOX) ==> m
            == PRESENT_MODE_FIFO,
        info.desired_present_modes@.len() > 0 && modes.contains(info.desired_present_modes@[0])
            ==> m == info.desired_present_modes@[0],
        (forall|i: int|
            0 <= i < info.desired_present_modes@.len() ==> !modes.contains(
                #[trigger] info.desired_present_modes@[i],
            )) && info.desired_present_modes@.len() > 0 ==> m == PRESENT_MODE_FIFO,
{
    let desired = crate::swapchain::effective_present_modes(info);
    if exists|i: int| is_first_available_mode(modes, desired, i) && m == desired[i] {
        let i = choose|i: int| is_first_available_mode(modes, desired, i) && m == desired[i];
        if info.desired_present_modes@.len() == 0 {
            if modes.contains(PRESENT_MODE_MAILBOX) && i > 0 {
                assert(!modes.contains(desired[0]));
            }
        } else {
            if i > 0 {
                assert(!modes.contains(desired[0]));
            }
            assert(modes.contains(info.desired_present_modes@[i]));
        }
    } else {
        if info.desired_present_modes@.len() == 0 {
            assert(!modes.contains(desired[0]));
        } else {
            assert(!modes.contains(desired[0]));
        }
    }
}

/// The surface format picked is one the surface supports. With no desired formats it is
/// B8G8R8A8 sRGB when the surface has it, else R8G8B8A8 sRGB when it has that; with
/// desired formats it is the first of them when the surface has that one.
pub proof fn law_format_choice(info: SwapchainInfo, formats: Seq<SurfaceFormat>, f: SurfaceFormat)
    requires
        picks_format(info, formats, f),
        formats.len() > 0,
    ensures
        formats.contains(f),
        info.desired_formats@.len() == 0 && formats.contains(
            (SurfaceFormat { format: FORMAT_B8G8R8A8_SRGB, color_space: COLOR_SPACE_SRGB_NONLINEAR }),
        ) ==> f == (SurfaceFormat { format: FORMAT_B8G8R8A8_SRGB, color_space: COLOR_SPACE_SRGB_NONLINEAR }),
        info.desired_formats@.len() == 0 && !formats.contains(
            (SurfaceFormat { format: FORMAT_B8G8R8A8_SRGB, color_space: COLOR_SPACE_SRGB_NONLINEAR }),
        ) && formats.contains(
            (SurfaceFormat { format: FORMAT_R8G8B8A8_SRGB, color_space: COLOR_SPACE_SRGB_NONLINEAR }),
        ) ==> f == (SurfaceFormat { format: FORMAT_R8G8B8A8_SRGB, color_space: COLOR_SPACE_SRGB_NONLINEAR }),
        info.desired_formats@.len() > 0 && formats.contains(info.desired_formats@[0]) ==> f
            == info.desired_formats@[0],
{
    let desired = crate::swapchain::effective_formats(info);
    if exists|i: int| is_first_available_format(formats, desired, i) && f == desired[i] {
        let i = choose|i: int| is_first_available_format(formats, desired, i) && f == desired[i];
        if i > 0 {
            assert(!formats.contains(desired[0]));
        }
        if i > 1 {
            assert(!formats.contains(desired[1]));
        }
    } else {
        assert(formats.contains(formats[0]));
        if desired.len() > 0 {
            assert(!formats.contains(desired[0]));
        }
        if desired.len() > 1 {
            assert(!formats.contains(desired[1]));
        }
    }
}

/// A fixed surface extent is taken as it is; a flexible one takes the desired size,
/// clamped into the surface's range.
pub proof fn law_extent_choice(caps: SurfaceCapabilities, width: u32, height: u32)
    ensures
        caps.current_extent.width != u32::MAX ==> spec_find_extent(caps, width, height)
            == caps.current_extent,
        caps.current_extent.width == u32::MAX && caps.min_image_extent.width <= width
            <= caps.max_image_extent.width ==> spec_find_extent(caps, width, height).width == width,
        caps.current_extent.width == u32::MAX && caps.min_image_extent.height <= height
            <= caps.max_image_extent.height ==> spec_find_extent(caps, width, height).height == height,
        caps.current_extent.width == u32::MAX && caps.min_image_extent.width
            <= caps.max_image_extent.width < width ==> spec_find_extent(caps, width, height).width
            == caps.max_image_extent.width,
        caps.current_extent.width == u32::MAX && width < caps.min_image_extent.width ==> spec_find_extent(
            caps,
            width,
            height,
        ).width == caps.min_image_extent.width,
        caps.current_extent.width == u32::MAX && caps.min_image_extent.height
            <= caps.max_image_extent.height < height ==> spec_find_extent(caps, width, height).height
            == caps.max_image_extent.height,
        caps.current_extent.width == u32::MAX && height < caps.min_image_extent.height
            ==> spec_find_extent(caps, width, height).height == caps.min_image_extent.height,
{
}

/// The array layer count asked for is the configured one when the surface allows it,
/// one when none is configured, and the surface's maximum when more are configured.
pub proof fn law_array_layers_choice(info: SwapchainInfo, caps: SurfaceCapabilities)
    ensures
        0 < info.array_layer_count <= caps.max_image_array_layers ==> spec_array_layers(info, caps)
            == info.array_layer_count,
        info.array_layer_count == 0 ==> spec_array_layers(info, caps) == 1,
        info.array_layer_count > caps.max_image_array_layers ==> spec_array_layers(info, caps)
            == caps.max_image_array_layers,
{
}

/// The instance extensions hold every enabled extension; debug utils when the default
/// messenger is used and the loader has it; the properties-2 extension on a 1.0 API
/// version when the loader has it; layer settings when a setting was added; portability
/// enumeration when the loader has it; and, unless headless, the surface extension when
/// the loader has it.
pub proof fn law_instance_extensions(
    info: InstanceInfo,
    sys: SystemInfo,
    api_version: u32,
    platform: WindowingPlatform,
)
    ensures
        forall|i: int|
            0 <= i < info.enabled_extensions@.len() ==> spec_extensions(
                info,
                sys,
                api_version,
                platform,
            ).contains(#[trigger] info.enabled_extensions@[i]@),
        info.has_debug_callback && info.use_debug_messenger && sys.extension_names().contains(
            EXT_DEBUG_UTILS_NAME@,
        ) ==> spec_extensions(info, sys, api_version, platform).contains(EXT_DEBUG_UTILS_NAME@),
        api_version < API_VERSION_1_1 && sys.extension_names().contains(
            KHR_GET_PHYSICAL_DEVICE_PROPERTIES2_NAME@,
        ) ==> spec_extensions(info, sys, api_version, platform).contains(
            KHR_GET_PHYSICAL_DEVICE_PROPERTIES2_NAME@,
        ),
        info.layer_setting_count > 0 ==> spec_extensions(info, sys, api_version, platform).contains(
            EXT_LAYER_SETTINGS_NAME@,
        ),
        sys.extension_names().contains(KHR_PORTABILITY_ENUMERATION_NAME@) ==> spec_extensions(
            info,
            sys,
            api_version,
            platform,
        ).contains(KHR_PORTABILITY_ENUMERATION_NAME@),
        !info.headless_context && sys.extension_names().contains(KHR_SURFACE_NAME@)
            ==> spec_extensions(info, sys, api_version, platform).contains(KHR_SURFACE_NAME@),
{
    let all = spec_extensions(info, sys, api_version, platform);
    let en = names(info.enabled_extensions@);
    let a1 = en + crate::instance::opt_name(
        info.has_debug_callback && info.use_debug_messenger && sys.extension_names().contains(
            EXT_DEBUG_UTILS_NAME@,
        ),
        EXT_DEBUG_UTILS_NAME@,
    );
    let a2 = a1 + crate::instance::opt_name(
        crate::instance::properties2_enabled(sys, api_version),
        KHR_GET_PHYSICAL_DEVICE_PROPERTIES2_NAME@,
    );
    let a3 = a2 + crate::instance::opt_name(info.layer_setting_count > 0, EXT_LAYER_SETTINGS_NAME@);
    let req = crate::instance::spec_requested_extensions(info, sys, api_version);
    assert(req == a3 + crate::instance::opt_name(
        crate::instance::portability_enabled(sys),
        KHR_PORTABILITY_ENUMERATION_NAME@,
    ));
    assert forall|i: int| 0 <= i < info.enabled_extensions@.len() implies all.contains(
        #[trigger] info.enabled_extensions@[i]@,
    ) by {
        assert(en[i] == info.enabled_extensions@[i]@);
        assert(all[i] == en[i]);
    }
    if info.has_debug_callback && info.use_debug_messenger && sys.extension_names().contains(
        EXT_DEBUG_UTILS_NAME@,
    ) {
        assert(all[en.len() as int] == EXT_DEBUG_UTILS_NAME@);
    }
    if api_version < API_VERSION_1_1 && sys.extension_names().contains(
        KHR_GET_PHYSICAL_DEVICE_PROPERTIES2_NAME@,
    ) {
        assert(all[a1.len() as int] == KHR_GET_PHYSICAL_DEVICE_PROPERTIES2_NAME@);
    }
    if info.layer_setting_count > 0 {
        assert(all[a2.len() as int] == EXT_LAYER_SETTINGS_NAME@);
    }
    if sys.extension_names().contains(KHR_PORTABILITY_ENUMERATION_NAME@) {
        assert(all[a3.len() as int] == KHR_PORTABILITY_ENUMERATION_NAME@);
    }
    if !info.headless_context && sys.extension_names().contains(KHR_SURFACE_NAME@) {
        let p = |n: Seq<char>| sys.extension_names().contains(n);
        let cands = seq![KHR_SURFACE_NAME@] + crate::instance::platform_surface_names(platform);
        assert(cands[0] == KHR_SURFACE_NAME@);
        cands.lemma_filter_contains(p, 0);
        let w = crate::instance::spec_window_extensions(sys, platform);
        let k = choose|k: int| 0 <= k < w.len() && w[k] == KHR_SURFACE_NAME@;
        assert(all[req.len() + k] == KHR_SURFACE_NAME@);
    }
}

/// Partial suitability comes from the device type alone: a device that passes every
/// check is partially suitable exactly when any type is not allowed and its type is not
/// the preferred one.
pub proof fn law_partial_suitability_by_type(
    c: SelectionCriteria,
    inst: SelectorInstanceInfo,
    pd: PhysicalDevice,
)
    ensures
        spec_suitability(c, inst, pd) == PhysicalDeviceSuitability::PartiallySuitable ==> !c.allow_any_type
            && pd.properties.device_type != c.preferred_type,
        spec_suitability(c, inst, pd) != PhysicalDeviceSuitability::Unsuitable && !c.allow_any_type
            && pd.properties.device_type != c.preferred_type ==> spec_suitability(c, inst, pd)
            == PhysicalDeviceSuitability::PartiallySuitable,
        spec_suitability(c, inst, pd) != PhysicalDeviceSuitability::Unsuitable && (c.allow_any_type
            || pd.properties.device_type == c.preferred_type) ==> spec_suitability(c, inst, pd)
            == PhysicalDeviceSuitability::Suitable,
{
}

/// The graphics queue family is the first family with graphics; the present family is
/// the first that can present to the device's surface.
pub proof fn law_graphics_and_present_queue(d: Device, k: u32)
    requires
        d.queue_families@.len() <= u32::MAX,
        d.present_support@.len() <= u32::MAX,
    ensures
        is_queue_index(d, QueueType::Graphics, k) ==> {
            &&& k < d.queue_families@.len()
            &&& d.queue_families@[k as int].queue_flags & QUEUE_GRAPHICS == QUEUE_GRAPHICS
            &&& forall|j: int|
                0 <= j < k ==> #[trigger] d.queue_families@[j].queue_flags & QUEUE_GRAPHICS
                    != QUEUE_GRAPHICS
        },
        is_queue_index(d, QueueType::Present, k) ==> {
            &&& d.surface is Some
            &&& k < d.present_support@.len()
            &&& d.present_support@[k as int]
            &&& forall|j: int| 0 <= j < k ==> !#[trigger] d.present_support@[j]
        },
{
    if is_queue_index(d, QueueType::Graphics, k) {
        let i = choose|i: int| crate::utils::is_first_with_flags(d.queue_families@, QUEUE_GRAPHICS, i) && k == i as u32;
        assert(i == k);
    }
    if is_queue_index(d, QueueType::Present, k) {
        let i = choose|i: int| crate::utils::is_first_true(d.present_support@, i) && k == i as u32;
        assert(i == k);
    }
}

/// The compute (transfer) queue family has compute (transfer) and no graphics; when
/// some such family has no transfer (compute) either, the chosen one is the first of
/// those.
pub proof fn law_separate_queues(d: Device, k: u32)
    requires
        d.queue_families@.len() <= u32::MAX,
    ensures
        is_queue_index(d, QueueType::Compute, k) ==> {
            let f = d.queue_families@;
            &&& k < f.len()
            &&& f[k as int].queue_flags & QUEUE_COMPUTE == QUEUE_COMPUTE
            &&& f[k as int].queue_flags & QUEUE_GRAPHICS != QUEUE_GRAPHICS
            &&& (exists|i: int|
                0 <= i < f.len() && is_dedicated_family(
                    #[trigger] f[i].queue_flags,
                    QUEUE_COMPUTE,
                    QUEUE_TRANSFER,
                )) ==> {
                &&& f[k as int].queue_flags & QUEUE_TRANSFER == 0
                &&& forall|j: int|
                    0 <= j < k ==> !(#[trigger] f[j].queue_flags & QUEUE_COMPUTE == QUEUE_COMPUTE
                        && f[j].queue_flags & QUEUE_GRAPHICS != QUEUE_GRAPHICS && f[j].queue_flags
                        & QUEUE_TRANSFER == 0)
            }
        },
        is_queue_index(d, QueueType::Transfer, k) ==> {
            let f = d.queue_families@;
            &&& k < f.len()
            &&& f[k as int].queue_flags & QUEUE_TRANSFER == QUEUE_TRANSFER
            &&& f[k as int].queue_flags & QUEUE_GRAPHICS != QUEUE_GRAPHICS
            &&& (exists|i: int|
                0 <= i < f.len() && is_dedicated_family(
                    #[trigger] f[i].queue_flags,
                    QUEUE_TRANSFER,
                    QUEUE_COMPUTE,
                )) ==> {
                &&& f[k as int].queue_flags & QUEUE_COMPUTE == 0
                &&& forall|j: int|
                    0 <= j < k ==> !(#[trigger] f[j].queue_flags & QUEUE_TRANSFER == QUEUE_TRANSFER
                        && f[j].queue_flags & QUEUE_GRAPHICS != QUEUE_GRAPHICS && f[j].queue_flags
                        & QUEUE_COMPUTE == 0)
            }
        },
{
    let f = d.queue_families@;
    if is_queue_index(d, QueueType::Compute, k) {
        let i = choose|i: int| is_separate_choice(f, QUEUE_COMPUTE, QUEUE_TRANSFER, i) && k == i as u32;
        assert(i == k);
    }
    if is_queue_index(d, QueueType::Transfer, k) {
        let i = choose|i: int| is_separate_choice(f, QUEUE_TRANSFER, QUEUE_COMPUTE, i) && k == i as u32;
        assert(i == k);
    }
}

/// Without custom queue descriptions a device gets a queue in every family, in order;
/// with them, in the described families.
pub proof fn law_device_queue_families(info: DeviceInfo, pd: PhysicalDevice)
    requires
        pd.queue_families@.len() <= u32::MAX,
    ensures
        info.queue_descriptions@.len() == 0 ==> {
            &&& spec_queue_families(info, pd).len() == pd.queue_families@.len()
            &&& forall|i: int|
                0 <= i < pd.queue_families@.len() ==> #[trigger] spec_queue_families(info, pd)[i] == i
        },
        info.queue_descriptions@.len() > 0 ==> spec_queue_families(info, pd) == info.queue_descriptions@,
{
}

} // verus!
