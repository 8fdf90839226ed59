//! Calls into `ash` for the version-number encoding and the flag tests of Vulkan, with
//! what `ash`'s source shows of each.

use vstd::prelude::*;

verus! {

/// The encoding of a Vulkan API version: variant, major, minor and patch numbers packed
/// into one word, each shifted to its place.
pub open spec fn spec_make_api_version(variant: u32, major: u32, minor: u32, patch: u32) -> u32 {
    (variant << 29u32) | (major << 22u32) | (minor << 12u32) | patch
}

/// The minor number of an encoded API version.
pub open spec fn spec_api_version_minor(version: u32) -> u32 {
    (version >> 12u32) & 0x3ffu32
}

/// Whether every bit of `other` is set in `flags`.
pub open spec fn flags_contain(flags: u32, other: u32) -> bool {
    flags & other == other
}

/// Whether `flags` and `other` share a bit.
pub open spec fn flags_intersect(flags: u32, other: u32) -> bool {
    flags & other != 0
}

/// Calls `ash::vk::make_api_version`, whose body is the shift-and-or expression of
/// [`spec_make_api_version`] on `u32` (bits shifted past the top are dropped).
#[verifier::external_body]
pub(crate) fn make_api_version(variant: u32, major: u32, minor: u32, patch: u32) -> (r: u32)
    ensures
        r == spec_make_api_version(variant, major, minor, patch),
{
    ash::vk::make_api_version(variant, major, minor, patch)
}

/// Calls `ash::vk::api_version_minor`, whose body is `(version >> 12) & 0x3ff`.
#[verifier::external_body]
pub(crate) fn api_version_minor(version: u32) -> (r: u32)
    ensures
        r == spec_api_version_minor(version),
{
    ash::vk::api_version_minor(version)
}

/// Calls `ash::vk::QueueFlags::contains` on raw bits; its body is
/// `self.0 & other.0 == other.0`.
#[verifier::external_body]
pub(crate) fn queue_flags_contains(flags: u32, other: u32) -> (r: bool)
    ensures
        r == flags_contain(flags, other),
{
    ash::vk::QueueFlags::from_raw(flags).contains(ash::vk::QueueFlags::from_raw(other))
}

/// Calls `ash::vk::QueueFlags::intersects` on raw bits; its body is
/// `!Self(self.0 & other.0).is_empty()`, that is `self.0 & other.0 != 0`.
#[verifier::external_body]
pub(crate) fn queue_flags_intersects(flags: u32, other: u32) -> (r: bool)
    ensures
        r == flags_intersect(flags, other),
{
    ash::vk::QueueFlags::from_raw(flags).intersects(ash::vk::QueueFlags::from_raw(other))
}

/// Calls `ash::vk::MemoryHeapFlags::contains` on raw bits; its body is
/// `self.0 & other.0 == other.0`.
#[verifier::external_body]
pub(crate) fn memory_heap_flags_contains(flags: u32, other: u32) -> (r: bool)
    ensures
        r == flags_contain(flags, other),
{
    ash::vk::MemoryHeapFlags::from_raw(flags).contains(ash::vk::MemoryHeapFlags::from_raw(other))
}

/// The named API versions are the encodings of 1.0 to 1.3.
pub proof fn lemma_api_version_constants()
    ensures
        crate::model::API_VERSION_1_0 == spec_make_api_version(0, 1, 0, 0),
        crate::model::API_VERSION_1_1 == spec_make_api_version(0, 1, 1, 0),
        crate::model::API_VERSION_1_2 == spec_make_api_version(0, 1, 2, 0),
        crate::model::API_VERSION_1_3 == spec_make_api_version(0, 1, 3, 0),
{
    assert(0x0040_0000u32 == spec_make_api_version(0, 1, 0, 0)) by (bit_vector);
    assert(0x0040_1000u32 == spec_make_api_version(0, 1, 1, 0)) by (bit_vector);
    assert(0x0040_2000u32 == spec_make_api_version(0, 1, 2, 0)) by (bit_vector);
    assert(0x0040_3000u32 == spec_make_api_version(0, 1, 3, 0)) by (bit_vector);
}

/// Encoding a version with variant zero and reading back its minor number gives the
/// minor number back, for every minor number that fits its ten bits.
pub proof fn lemma_minor_of_encoded_version(major: u32, minor: u32, patch: u32)
    requires
        minor < 1024,
        patch < 4096,
    ensures
        spec_api_version_minor(spec_make_api_version(0, major, minor, patch)) == minor,
{
    assert(spec_api_version_minor(spec_make_api_version(0, major, minor, patch)) == minor)
        by (bit_vector)
        requires
            minor < 1024,
            patch < 4096,
    ;
}

/// Versions 1.0 to 1.3 are ordered by their encodings.
pub proof fn lemma_api_versions_ordered()
    ensures
        crate::model::API_VERSION_1_0 < crate::model::API_VERSION_1_1,
        crate::model::API_VERSION_1_1 < crate::model::API_VERSION_1_2,
        crate::model::API_VERSION_1_2 < crate::model::API_VERSION_1_3,
{
}

} // verus!
