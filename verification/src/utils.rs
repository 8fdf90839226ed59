//! Selection rules over what a physical device and a surface report: queue families,
//! extensions, surface formats, extents and present modes.

use vstd::prelude::*;

use crate::errors::SurfaceSupportError;
use crate::model::{
    Extent2D, PRESENT_MODE_FIFO, QUEUE_GRAPHICS, QueueFamilyProperties, SurfaceCapabilities,
    SurfaceFormat,
};
use crate::vulkan::{flags_contain, flags_intersect, queue_flags_contains, queue_flags_intersects};

verus! {

/// A family that has the desired flags, is not a graphics family and has none of the
/// undesired flags.
pub open spec fn is_dedicated_family(flags: u32, desired: u32, undesired: u32) -> bool {
    &&& flags_contain(flags, desired)
    &&& !flags_contain(flags, QUEUE_GRAPHICS)
    &&& !flags_intersect(flags, undesired)
}

/// A family that has the desired flags and is not a graphics family.
pub open spec fn is_separate_family(flags: u32, desired: u32) -> bool {
    flags_contain(flags, desired) && !flags_contain(flags, QUEUE_GRAPHICS)
}

/// `i` is the first position of a dedicated family.
pub open spec fn is_first_dedicated(
    families: Seq<QueueFamilyProperties>,
    desired: u32,
    undesired: u32,
    i: int,
) -> bool {
    &&& 0 <= i < families.len()
    &&& is_dedicated_family(families[i].queue_flags, desired, undesired)
    &&& forall|j: int|
        0 <= j < i ==> !is_dedicated_family(#[trigger] families[j].queue_flags, desired, undesired)
}

/// `i` is the first position of a family that has the desired flags.
pub open spec fn is_first_with_flags(families: Seq<QueueFamilyProperties>, desired: u32, i: int) -> bool {
    &&& 0 <= i < families.len()
    &&& flags_contain(families[i].queue_flags, desired)
    &&& forall|j: int| 0 <= j < i ==> !flags_contain(#[trigger] families[j].queue_flags, desired)
}

/// `i` is the position that separate-queue selection picks: the first separate family
/// without the undesired flags, or, when there is none, the last separate family.
pub open spec fn is_separate_choice(
    families: Seq<QueueFamilyProperties>,
    desired: u32,
    undesired: u32,
    i: int,
) -> bool {
    &&& 0 <= i < families.len()
    &&& is_separate_family(families[i].queue_flags, desired)
    &&& if !flags_intersect(families[i].queue_flags, undesired) {
        forall|j: int|
            0 <= j < i ==> !is_dedicated_family(#[trigger] families[j].queue_flags, desired, undesired)
    } else {
        &&& forall|j: int|
            0 <= j < families.len() ==> !is_dedicated_family(
                #[trigger] families[j].queue_flags,
                desired,
                undesired,
            )
        &&& forall|j: int|
            i < j < families.len() ==> !is_separate_family(#[trigger] families[j].queue_flags, desired)
    }
}

/// Position of the first family that has `desired_flags`, is no graphics family and has
/// none of `undesired_flags`.
pub fn get_dedicated_queue_index(
    families: &[QueueFamilyProperties],
    desired_flags: u32,
    undesired_flags: u32,
) -> (r: Option<u32>)
    ensures
        match r {
            Some(k) => exists|i: int|
                is_first_dedicated(families@, desired_flags, undesired_flags, i) && k == i as u32,
            None => forall|i: int|
                0 <= i < families@.len() ==> !is_dedicated_family(
                    #[trigger] families@[i].queue_flags,
                    desired_flags,
                    undesired_flags,
                ),
        },
{
    let mut i: usize = 0;
    while i < families.len()
        invariant
            i <= families@.len(),
            forall|j: int|
                0 <= j < i ==> !is_dedicated_family(
                    #[trigger] families@[j].queue_flags,
                    desired_flags,
                    undesired_flags,
                ),
        decreases families@.len() - i,
    {
        let f = families[i].queue_flags;
        if queue_flags_contains(f, desired_flags) && !queue_flags_contains(f, QUEUE_GRAPHICS)
            && !queue_flags_intersects(f, undesired_flags) {
            assert(is_first_dedicated(families@, desired_flags, undesired_flags, i as int));
            return Some(i as u32);
        }
        i = i + 1;
    }
    None
}

/// Position of the first family that has `desired_flags`.
pub fn get_first_queue_index(families: &[QueueFamilyProperties], desired_flags: u32) -> (r: Option<
    u32,
>)
    ensures
        match r {
            Some(k) => exists|i: int| is_first_with_flags(families@, desired_flags, i) && k == i as u32,
            None => forall|i: int|
                0 <= i < families@.len() ==> !flags_contain(
                    #[trigger] families@[i].queue_flags,
                    desired_flags,
                ),
        },
{
    let mut i: usize = 0;
    while i < families.len()
        invariant
            i <= families@.len(),
            forall|j: int|
                0 <= j < i ==> !flags_contain(#[trigger] families@[j].queue_flags, desired_flags),
        decreases families@.len() - i,
    {
        if queue_flags_contains(families[i].queue_flags, desired_flags) {
            assert(is_first_with_flags(families@, desired_flags, i as int));
            return Some(i as u32);
        }
        i = i + 1;
    }
    None
}

/// Position of a non-graphics family with `desired_flags`: the first one without any of
/// `undesired_flags`, or else the last one.
pub fn get_separate_queue_index(
    families: &[QueueFamilyProperties],
    desired_flags: u32,
    undesired_flags: u32,
) -> (r: Option<u32>)
    ensures
        match r {
            Some(k) => exists|i: int|
                is_separate_choice(families@, desired_flags, undesired_flags, i) && k == i as u32,
            None => forall|i: int|
                0 <= i < families@.len() ==> !is_separate_family(
                    #[trigger] families@[i].queue_flags,
                    desired_flags,
                ),
        },
{
    let mut fallback: Option<u32> = None;
    let ghost mut fallback_at: int = -1;
    let mut i: usize = 0;
    while i < families.len()
        invariant
            i <= families@.len(),
            forall|j: int|
                0 <= j < i ==> !is_dedicated_family(
                    #[trigger] families@[j].queue_flags,
                    desired_flags,
                    undesired_flags,
                ),
            match fallback {
                Some(k) => {
                    &&& 0 <= fallback_at < i
                    &&& k == fallback_at as u32
                    &&& is_separate_family(families@[fallback_at].queue_flags, desired_flags)
                    &&& forall|j: int|
                        fallback_at < j < i ==> !is_separate_family(
                            #[trigger] families@[j].queue_flags,
                            desired_flags,
                        )
                },
                None => forall|j: int|
                    0 <= j < i ==> !is_separate_family(
                        #[trigger] families@[j].queue_flags,
                        desired_flags,
                    ),
            },
        decreases families@.len() - i,
    {
        let f = families[i].queue_flags;
        if queue_flags_contains(f, desired_flags) && !queue_flags_contains(f, QUEUE_GRAPHICS) {
            if !queue_flags_intersects(f, undesired_flags) {
                assert(is_separate_choice(families@, desired_flags, undesired_flags, i as int));
                return Some(i as u32);
            } else {
                fallback = Some(i as u32);
                proof {
                    fallback_at = i as int;
                }
            }
        }
        i = i + 1;
    }
    if fallback.is_some() {
        assert(is_separate_choice(families@, desired_flags, undesired_flags, fallback_at));
    }
    fallback
}

/// `i` is the first position whose family can present.
pub open spec fn is_first_true(support: Seq<bool>, i: int) -> bool {
    &&& 0 <= i < support.len()
    &&& support[i]
    &&& forall|j: int| 0 <= j < i ==> !#[trigger] support[j]
}

/// Position of the first queue family that can present to the surface, given for each
/// family whether the driver reports presentation support for it (a failed query counts
/// as no support).
pub fn get_present_queue_index(present_support: &[bool]) -> (r: Option<u32>)
    ensures
        match r {
            Some(k) => exists|i: int| is_first_true(present_support@, i) && k == i as u32,
            None => forall|i: int| 0 <= i < present_support@.len() ==> !#[trigger] present_support@[i],
        },
{
    let mut i: usize = 0;
    while i < present_support.len()
        invariant
            i <= present_support@.len(),
            forall|j: int| 0 <= j < i ==> !#[trigger] present_support@[j],
        decreases present_support@.len() - i,
    {
        if present_support[i] {
            assert(is_first_true(present_support@, i as int));
            return Some(i as u32);
        }
        i = i + 1;
    }
    None
}

/// The character sequences of a list of names.
pub open spec fn names(v: Seq<String>) -> Seq<Seq<char>> {
    v.map_values(|s: String| s@)
}

/// The names of `required` that also occur in `available`, in the order of `required`.
pub open spec fn supported_names(available: Seq<String>, required: Seq<String>) -> Seq<Seq<char>> {
    names(required).filter(|n: Seq<char>| names(available).contains(n))
}

/// Whether `name` occurs in `list`.
pub fn contains_name(list: &[String], name: &String) -> (r: bool)
    ensures
        r == names(list@).contains(name@),
{
    let mut i: usize = 0;
    while i < list.len()
        invariant
            i <= list@.len(),
            forall|j: int| 0 <= j < i ==> #[trigger] list@[j]@ != name@,
        decreases list@.len() - i,
    {
        if list[i] == *name {
            assert(names(list@)[i as int] == name@);
            return true;
        }
        i = i + 1;
    }
    assert forall|j: int| 0 <= j < names(list@).len() implies names(list@)[j] != name@ by {
        assert(list@[j]@ != name@);
    }
    false
}

/// The required extensions that are available, in the order in which they were required.
pub fn check_device_extension_support(available: &[String], required: &[String]) -> (r: Vec<
    String,
>)
    ensures
        names(r@) == supported_names(available@, required@),
{
    let mut r: Vec<String> = Vec::new();
    let mut i: usize = 0;
    let ghost pred = |n: Seq<char>| names(available@).contains(n);
    while i < required.len()
        invariant
            i <= required@.len(),
            pred == (|n: Seq<char>| names(available@).contains(n)),
            names(r@) == names(required@).take(i as int).filter(pred),
        decreases required@.len() - i,
    {
        proof {
            reveal_with_fuel(Seq::<Seq<char>>::filter, 1);
            assert(names(required@).take(i + 1).drop_last() =~= names(required@).take(i as int));
        }
        if contains_name(available, &required[i]) {
            let s = required[i].clone();
            r.push(s);
            assert(names(r@) =~= names(required@).take(i + 1).filter(pred));
        } else {
            assert(names(r@) =~= names(required@).take(i + 1).filter(pred));
        }
        i = i + 1;
    }
    assert(names(required@).take(required@.len() as int) =~= names(required@));
    r
}

/// `i` is the first position of `desired` whose format is among `available`.
pub open spec fn is_first_available_format(
    available: Seq<SurfaceFormat>,
    desired: Seq<SurfaceFormat>,
    i: int,
) -> bool {
    &&& 0 <= i < desired.len()
    &&& available.contains(desired[i])
    &&& forall|j: int| 0 <= j < i ==> !available.contains(#[trigger] desired[j])
}

/// Whether `format` (both its format and its color space) is among `available`.
pub fn format_available(available: &[SurfaceFormat], format: &SurfaceFormat) -> (r: bool)
    ensures
        r == available@.contains(*format),
{
    let mut i: usize = 0;
    while i < available.len()
        invariant
            i <= available@.len(),
            forall|j: int| 0 <= j < i ==> #[trigger] available@[j] != *format,
        decreases available@.len() - i,
    {
        let a = &available[i];
        if a.format == format.format && a.color_space == format.color_space {
            assert(available@[i as int] == *format);
            return true;
        }
        i = i + 1;
    }
    false
}

/// The first desired surface format that the surface supports.
pub fn find_desired_surface_format(available: &[SurfaceFormat], desired: &[SurfaceFormat]) -> (r:
    Result<SurfaceFormat, SurfaceSupportError>)
    ensures
        match r {
            Ok(f) => exists|i: int|
                is_first_available_format(available@, desired@, i) && f == desired@[i],
            Err(e) => {
                &&& e == SurfaceSupportError::NoSuitableDesiredFormat
                &&& forall|i: int|
                    0 <= i < desired@.len() ==> !available@.contains(#[trigger] desired@[i])
            },
        },
{
    let mut i: usize = 0;
    while i < desired.len()
        invariant
            i <= desired@.len(),
            forall|j: int| 0 <= j < i ==> !available@.contains(#[trigger] desired@[j]),
        decreases desired@.len() - i,
    {
        if format_available(available, &desired[i]) {
            assert(is_first_available_format(available@, desired@, i as int));
            return Ok(desired[i]);
        }
        i = i + 1;
    }
    Err(SurfaceSupportError::NoSuitableDesiredFormat)
}

/// The first desired surface format that the surface supports, or else the first format
/// that it supports.
pub fn find_best_surface_format(available: &[SurfaceFormat], desired: &[SurfaceFormat]) -> (r:
    SurfaceFormat)
    requires
        available@.len() > 0,
    ensures
        (exists|i: int| is_first_available_format(available@, desired@, i) && r == desired@[i])
            || ((forall|i: int|
            0 <= i < desired@.len() ==> !available@.contains(#[trigger] desired@[i]))
            && r == available@[0]),
{
    let fallback = available[0];
    match find_desired_surface_format(available, desired) {
        Ok(f) => f,
        Err(_) => fallback,
    }
}

/// `a` clamped into `[lo, hi]` the way `lo.max(hi.min(a))` clamps it.
pub open spec fn clamp_between(lo: u32, hi: u32, a: u32) -> u32 {
    let upper = if hi <= a { hi } else { a };
    if lo >= upper { lo } else { upper }
}

/// The swapchain extent for the given capabilities and desired size.
pub open spec fn spec_find_extent(
    capabilities: SurfaceCapabilities,
    desired_width: u32,
    desired_height: u32,
) -> Extent2D {
    if capabilities.current_extent.width != u32::MAX {
        capabilities.current_extent
    } else {
        Extent2D {
            width: clamp_between(
                capabilities.min_image_extent.width,
                capabilities.max_image_extent.width,
                desired_width,
            ),
            height: clamp_between(
                capabilities.min_image_extent.height,
                capabilities.max_image_extent.height,
                desired_height,
            ),
        }
    }
}

fn clamp_u32(lo: u32, hi: u32, a: u32) -> (r: u32)
    ensures
        r == clamp_between(lo, hi, a),
{
    let upper = if hi <= a {
        hi
    } else {
        a
    };
    if lo >= upper {
        lo
    } else {
        upper
    }
}

/// The current extent of the surface when it is fixed, else the desired size clamped to
/// the surface's minimum and maximum extents.
pub fn find_extent(capabilities: &SurfaceCapabilities, desired_width: u32, desired_height: u32) -> (r:
    Extent2D)
    ensures
        r == spec_find_extent(*capabilities, desired_width, desired_height),
{
    if capabilities.current_extent.width != u32::MAX {
        capabilities.current_extent
    } else {
        Extent2D {
            width: clamp_u32(
                capabilities.min_image_extent.width,
                capabilities.max_image_extent.width,
                desired_width,
            ),
            height: clamp_u32(
                capabilities.min_image_extent.height,
                capabilities.max_image_extent.height,
                desired_height,
            ),
        }
    }
}

/// `i` is the first position of `desired` whose mode is among `available`.
pub open spec fn is_first_available_mode(available: Seq<i32>, desired: Seq<i32>, i: int) -> bool {
    &&& 0 <= i < desired.len()
    &&& available.contains(desired[i])
    &&& forall|j: int| 0 <= j < i ==> !available.contains(#[trigger] desired[j])
}

/// Whether `mode` is among `available`.
pub fn mode_available(available: &[i32], mode: i32) -> (r: bool)
    ensures
        r == available@.contains(mode),
{
    let mut i: usize = 0;
    while i < available.len()
        invariant
            i <= available@.len(),
            forall|j: int| 0 <= j < i ==> #[trigger] available@[j] != mode,
        decreases available@.len() - i,
    {
        if available[i] == mode {
            assert(available@[i as int] == mode);
            return true;
        }
        i = i + 1;
    }
    false
}

/// The first desired present mode that the surface supports, or else FIFO, which every
/// surface supports.
pub fn find_present_mode(available: &[i32], desired: &[i32]) -> (r: i32)
    ensures
        (exists|i: int| is_first_available_mode(available@, desired@, i) && r == desired@[i]) || ((
        forall|i: int| 0 <= i < desired@.len() ==> !available@.contains(#[trigger] desired@[i]))
            && r == PRESENT_MODE_FIFO),
{
    let mut i: usize = 0;
    while i < desired.len()
        invariant
            i <= desired@.len(),
            forall|j: int| 0 <= j < i ==> !available@.contains(#[trigger] desired@[j]),
        decreases desired@.len() - i,
    {
        if mode_available(available, desired[i]) {
            assert(is_first_available_mode(available@, desired@, i as int));
            return desired[i];
        }
        i = i + 1;
    }
    PRESENT_MODE_FIFO
}

/// What a surface supports on a physical device: its capabilities, formats and present
/// modes.
#[derive(Debug)]
pub struct SurfaceSupportDetails {
    pub capabilities: SurfaceCapabilities,
    pub formats: Vec<SurfaceFormat>,
    pub present_modes: Vec<i32>,
}

} // verus!
