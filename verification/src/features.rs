//! The core feature set of a physical device (`VkPhysicalDeviceFeatures`), held as
//! plain Vulkan booleans in declaration order.

use vstd::prelude::*;

verus! {

/// A Vulkan boolean: zero is false, every other value is true.
pub type Bool32 = u32;

/// The Vulkan `VK_FALSE` value.
pub const FALSE: Bool32 = 0;

/// The Vulkan `VK_TRUE` value.
pub const TRUE: Bool32 = 1;

/// Number of boolean members of `VkPhysicalDeviceFeatures`.
pub const FEATURE_COUNT: usize = 55;

/// Whether a Vulkan boolean reads as true.
pub open spec fn enabled(b: Bool32) -> bool {
    b != 0
}

/// The Vulkan boolean that stands for `b`.
pub open spec fn spec_bool32(b: bool) -> Bool32 {
    if b {
        TRUE
    } else {
        FALSE
    }
}

/// Converts a `bool` into a Vulkan boolean (`VK_TRUE` or `VK_FALSE`).
pub fn bool32(b: bool) -> (r: Bool32)
    ensures
        r == spec_bool32(b),
{
    if b {
        TRUE
    } else {
        FALSE
    }
}

/// Reading a Vulkan boolean as a `bool`.
pub trait AsBool {
    fn as_bool(&self) -> bool;
}

impl AsBool for Bool32 {
    fn as_bool(&self) -> (b: bool)
        ensures
            b == enabled(*self),
    {
        *self != FALSE
    }
}

/// Every feature enabled in `required` is enabled in `available` as well.
pub open spec fn features_subset(required: Seq<Bool32>, available: Seq<Bool32>) -> bool {
    forall|i: int|
        0 <= i < required.len() && #[trigger] enabled(required[i]) ==> enabled(available[i])
}

/// The member-wise "or" of two feature sets, each member `VK_TRUE` or `VK_FALSE`.
pub open spec fn features_union(a: Seq<Bool32>, b: Seq<Bool32>) -> Seq<Bool32> {
    Seq::new(a.len(), |i: int| spec_bool32(enabled(a[i]) || enabled(b[i])))
}

/// Position of `robust_buffer_access` in [`PhysicalDeviceFeatures::flags`].
pub const ROBUST_BUFFER_ACCESS: usize = 0;

/// Position of `full_draw_index_uint32` in [`PhysicalDeviceFeatures::flags`].
pub const FULL_DRAW_INDEX_UINT32: usize = 1;

/// Position of `image_cube_array` in [`PhysicalDeviceFeatures::flags`].
pub const IMAGE_CUBE_ARRAY: usize = 2;

/// Position of `independent_blend` in [`PhysicalDeviceFeatures::flags`].
pub const INDEPENDENT_BLEND: usize = 3;

/// Position of `geometry_shader` in [`PhysicalDeviceFeatures::flags`].
pub const GEOMETRY_SHADER: usize = 4;

/// Position of `tessellation_shader` in [`PhysicalDeviceFeatures::flags`].
pub const TESSELLATION_SHADER: usize = 5;

/// Position of `sample_rate_shading` in [`PhysicalDeviceFeatures::flags`].
pub const SAMPLE_RATE_SHADING: usize = 6;

/// Position of `dual_src_blend` in [`PhysicalDeviceFeatures::flags`].
pub const DUAL_SRC_BLEND: usize = 7;

/// Position of `logic_op` in [`PhysicalDeviceFeatures::flags`].
pub const LOGIC_OP: usize = 8;

/// Position of `multi_draw_indirect` in [`PhysicalDeviceFeatures::flags`].
pub const MULTI_DRAW_INDIRECT: usize = 9;

/// Position of `draw_indirect_first_instance` in [`PhysicalDeviceFeatures::flags`].
pub const DRAW_INDIRECT_FIRST_INSTANCE: usize = 10;

/// Position of `depth_clamp` in [`PhysicalDeviceFeatures::flags`].
pub const DEPTH_CLAMP: usize = 11;

/// Position of `depth_bias_clamp` in [`PhysicalDeviceFeatures::flags`].
pub const DEPTH_BIAS_CLAMP: usize = 12;

/// Position of `fill_mode_non_solid` in [`PhysicalDeviceFeatures::flags`].
pub const FILL_MODE_NON_SOLID: usize = 13;

/// Position of `depth_bounds` in [`PhysicalDeviceFeatures::flags`].
pub const DEPTH_BOUNDS: usize = 14;

/// Position of `wide_lines` in [`PhysicalDeviceFeatures::flags`].
pub const WIDE_LINES: usize = 15;

/// Position of `large_points` in [`PhysicalDeviceFeatures::flags`].
pub const LARGE_POINTS: usize = 16;

/// Position of `alpha_to_one` in [`PhysicalDeviceFeatures::flags`].
pub const ALPHA_TO_ONE: usize = 17;

/// Position of `multi_viewport` in [`PhysicalDeviceFeatures::flags`].
pub const MULTI_VIEWPORT: usize = 18;

/// Position of `sampler_anisotropy` in [`PhysicalDeviceFeatures::flags`].
pub const SAMPLER_ANISOTROPY: usize = 19;

/// Position of `texture_compression_etc2` in [`PhysicalDeviceFeatures::flags`].
pub const TEXTURE_COMPRESSION_ETC2: usize = 20;

/// Position of `texture_compression_astc_ldr` in [`PhysicalDeviceFeatures::flags`].
pub const TEXTURE_COMPRESSION_ASTC_LDR: usize = 21;

/// Position of `texture_compression_bc` in [`PhysicalDeviceFeatures::flags`].
pub const TEXTURE_COMPRESSION_BC: usize = 22;

/// Position of `occlusion_query_precise` in [`PhysicalDeviceFeatures::flags`].
pub const OCCLUSION_QUERY_PRECISE: usize = 23;

/// Position of `pipeline_statistics_query` in [`PhysicalDeviceFeatures::flags`].
pub const PIPELINE_STATISTICS_QUERY: usize = 24;

/// Position of `vertex_pipeline_stores_and_atomics` in [`PhysicalDeviceFeatures::flags`].
pub const VERTEX_PIPELINE_STORES_AND_ATOMICS: usize = 25;

/// Position of `fragment_stores_and_atomics` in [`PhysicalDeviceFeatures::flags`].
pub const FRAGMENT_STORES_AND_ATOMICS: usize = 26;

/// Position of `shader_tessellation_and_geometry_point_size` in [`PhysicalDeviceFeatures::flags`].
pub const SHADER_TESSELLATION_AND_GEOMETRY_POINT_SIZE: usize = 27;

/// Position of `shader_image_gather_extended` in [`PhysicalDeviceFeatures::flags`].
pub const SHADER_IMAGE_GATHER_EXTENDED: usize = 28;

/// Position of `shader_storage_image_extended_formats` in [`PhysicalDeviceFeatures::flags`].
pub const SHADER_STORAGE_IMAGE_EXTENDED_FORMATS: usize = 29;

/// Position of `shader_storage_image_multisample` in [`PhysicalDeviceFeatures::flags`].
pub const SHADER_STORAGE_IMAGE_MULTISAMPLE: usize = 30;

/// Position of `shader_storage_image_read_without_format` in [`PhysicalDeviceFeatures::flags`].
pub const SHADER_STORAGE_IMAGE_READ_WITHOUT_FORMAT: usize = 31;

/// Position of `shader_storage_image_write_without_format` in [`PhysicalDeviceFeatures::flags`].
pub const SHADER_STORAGE_IMAGE_WRITE_WITHOUT_FORMAT: usize = 32;

/// Position of `shader_uniform_buffer_array_dynamic_indexing` in [`PhysicalDeviceFeatures::flags`].
pub const SHADER_UNIFORM_BUFFER_ARRAY_DYNAMIC_INDEXING: usize = 33;

/// Position of `shader_sampled_image_array_dynamic_indexing` in [`PhysicalDeviceFeatures::flags`].
pub const SHADER_SAMPLED_IMAGE_ARRAY_DYNAMIC_INDEXING: usize = 34;

/// Position of `shader_storage_buffer_array_dynamic_indexing` in [`PhysicalDeviceFeatures::flags`].
pub const SHADER_STORAGE_BUFFER_ARRAY_DYNAMIC_INDEXING: usize = 35;

/// Position of `shader_storage_image_array_dynamic_indexing` in [`PhysicalDeviceFeatures::flags`].
pub const SHADER_STORAGE_IMAGE_ARRAY_DYNAMIC_INDEXING: usize = 36;

/// Position of `shader_clip_distance` in [`PhysicalDeviceFeatures::flags`].
pub const SHADER_CLIP_DISTANCE: usize = 37;

/// Position of `shader_cull_distance` in [`PhysicalDeviceFeatures::flags`].
pub const SHADER_CULL_DISTANCE: usize = 38;

/// Position of `shader_float64` in [`PhysicalDeviceFeatures::flags`].
pub const SHADER_FLOAT64: usize = 39;

/// Position of `shader_int64` in [`PhysicalDeviceFeatures::flags`].
pub const SHADER_INT64: usize = 40;

/// Position of `shader_int16` in [`PhysicalDeviceFeatures::flags`].
pub const SHADER_INT16: usize = 41;

/// Position of `shader_resource_residency` in [`PhysicalDeviceFeatures::flags`].
pub const SHADER_RESOURCE_RESIDENCY: usize = 42;

/// Position of `shader_resource_min_lod` in [`PhysicalDeviceFeatures::flags`].
pub const SHADER_RESOURCE_MIN_LOD: usize = 43;

/// Position of `sparse_binding` in [`PhysicalDeviceFeatures::flags`].
pub const SPARSE_BINDING: usize = 44;

/// Position of `sparse_residency_buffer` in [`PhysicalDeviceFeatures::flags`].
pub const SPARSE_RESIDENCY_BUFFER: usize = 45;

/// Position of `sparse_residency_image2_d` in [`PhysicalDeviceFeatures::flags`].
pub const SPARSE_RESIDENCY_IMAGE2_D: usize = 46;

/// Position of `sparse_residency_image3_d` in [`PhysicalDeviceFeatures::flags`].
pub const SPARSE_RESIDENCY_IMAGE3_D: usize = 47;

/// Position of `sparse_residency2_samples` in [`PhysicalDeviceFeatures::flags`].
pub const SPARSE_RESIDENCY2_SAMPLES: usize = 48;

/// Position of `sparse_residency4_samples` in [`PhysicalDeviceFeatures::flags`].
pub const SPARSE_RESIDENCY4_SAMPLES: usize = 49;

/// Position of `sparse_residency8_samples` in [`PhysicalDeviceFeatures::flags`].
pub const SPARSE_RESIDENCY8_SAMPLES: usize = 50;

/// Position of `sparse_residency16_samples` in [`PhysicalDeviceFeatures::flags`].
pub const SPARSE_RESIDENCY16_SAMPLES: usize = 51;

/// Position of `sparse_residency_aliased` in [`PhysicalDeviceFeatures::flags`].
pub const SPARSE_RESIDENCY_ALIASED: usize = 52;

/// Position of `variable_multisample_rate` in [`PhysicalDeviceFeatures::flags`].
pub const VARIABLE_MULTISAMPLE_RATE: usize = 53;

/// Position of `inherited_queries` in [`PhysicalDeviceFeatures::flags`].
pub const INHERITED_QUERIES: usize = 54;

/// The fixed-function features of a physical device. `flags[k]` is the k-th member
/// of `VkPhysicalDeviceFeatures` in declaration order; the position constants of this
/// module name them.
#[derive(Clone, Copy, Debug)]
pub struct PhysicalDeviceFeatures {
    pub flags: [Bool32; 55],
}

impl PhysicalDeviceFeatures {
    /// A feature set with every member `VK_FALSE`.
    pub fn new() -> (r: Self)
        ensures
            forall|i: int| 0 <= i < FEATURE_COUNT ==> #[trigger] r.flags@[i] == FALSE,
    {
        PhysicalDeviceFeatures { flags: [FALSE; 55] }
    }

    /// The same feature set with the member at `index` set to `enable`.
    pub fn with_feature(self, index: usize, enable: bool) -> (r: Self)
        requires
            index < FEATURE_COUNT,
        ensures
            r.flags@ == self.flags@.update(index as int, spec_bool32(enable)),
    {
        let mut r = self;
        r.flags[index] = bool32(enable);
        r
    }

    /// Whether the member at `index` is enabled.
    pub fn has_feature(&self, index: usize) -> (r: bool)
        requires
            index < FEATURE_COUNT,
        ensures
            r == enabled(self.flags@[index as int]),
    {
        self.flags[index] != FALSE
    }

    /// The same feature set with `robust_buffer_access` set to `enable`.
    pub fn robust_buffer_access(self, enable: bool) -> (r: Self)
        ensures
            r.flags@ == self.flags@.update(0, spec_bool32(enable)),
    {
        self.with_feature(ROBUST_BUFFER_ACCESS, enable)
    }

    /// The same feature set with `full_draw_index_uint32` set to `enable`.
    pub fn full_draw_index_uint32(self, enable: bool) -> (r: Self)
        ensures
            r.flags@ == self.flags@.update(1, spec_bool32(enable)),
    {
        self.with_feature(FULL_DRAW_INDEX_UINT32, enable)
    }

    /// The same feature set with `image_cube_array` set to `enable`.
    pub fn image_cube_array(self, enable: bool) -> (r: Self)
        ensures
            r.flags@ == self.flags@.update(2, spec_bool32(enable)),
    {
        self.with_feature(IMAGE_CUBE_ARRAY, enable)
    }

    /// The same feature set with `independent_blend` set to `enable`.
    pub fn independent_blend(self, enable: bool) -> (r: Self)
        ensures
            r.flags@ == self.flags@.update(3, spec_bool32(enable)),
    {
        self.with_feature(INDEPENDENT_BLEND, enable)
    }

    /// The same feature set with `geometry_shader` set to `enable`.
    pub fn geometry_shader(self, enable: bool) -> (r: Self)
        ensures
            r.flags@ == self.flags@.update(4, spec_bool32(enable)),
    {
        self.with_feature(GEOMETRY_SHADER, enable)
    }

    /// The same feature set with `tessellation_shader` set to `enable`.
    pub fn tessellation_shader(self, enable: bool) -> (r: Self)
        ensures
            r.flags@ == self.flags@.update(5, spec_bool32(enable)),
    {
        self.with_feature(TESSELLATION_SHADER, enable)
    }

    /// The same feature set with `sample_rate_shading` set to `enable`.
    pub fn sample_rate_shading(self, enable: bool) -> (r: Self)
        ensures
            r.flags@ == self.flags@.update(6, spec_bool32(enable)),
    {
        self.with_feature(SAMPLE_RATE_SHADING, enable)
    }

    /// The same feature set with `dual_src_blend` set to `enable`.
    pub fn dual_src_blend(self, enable: bool) -> (r: Self)
        ensures
            r.flags@ == self.flags@.update(7, spec_bool32(enable)),
    {
        self.with_feature(DUAL_SRC_BLEND, enable)
    }

    /// The same feature set with `logic_op` set to `enable`.
    pub fn logic_op(self, enable: bool) -> (r: Self)
        ensures
            r.flags@ == self.flags@.update(8, spec_bool32(enable)),
    {
        self.with_feature(LOGIC_OP, enable)
    }

    /// The same feature set with `multi_draw_indirect` set to `enable`.
    pub fn multi_draw_indirect(self, enable: bool) -> (r: Self)
        ensures
            r.flags@ == self.flags@.update(9, spec_bool32(enable)),
    {
        self.with_feature(MULTI_DRAW_INDIRECT, enable)
    }

    /// The same feature set with `draw_indirect_first_instance` set to `enable`.
    pub fn draw_indirect_first_instance(self, enable: bool) -> (r: Self)
        ensures
            r.flags@ == self.flags@.update(10, spec_bool32(enable)),
    {
        self.with_feature(DRAW_INDIRECT_FIRST_INSTANCE, enable)
    }

    /// The same feature set with `depth_clamp` set to `enable`.
    pub fn depth_clamp(self, enable: bool) -> (r: Self)
        ensures
            r.flags@ == self.flags@.update(11, spec_bool32(enable)),
    {
        self.with_feature(DEPTH_CLAMP, enable)
    }

    /// The same feature set with `depth_bias_clamp` set to `enable`.
    pub fn depth_bias_clamp(self, enable: bool) -> (r: Self)
        ensures
            r.flags@ == self.flags@.update(12, spec_bool32(enable)),
    {
        self.with_feature(DEPTH_BIAS_CLAMP, enable)
    }

    /// The same feature set with `fill_mode_non_solid` set to `enable`.
    pub fn fill_mode_non_solid(self, enable: bool) -> (r: Self)
        ensures
            r.flags@ == self.flags@.update(13, spec_bool32(enable)),
    {
        self.with_feature(FILL_MODE_NON_SOLID, enable)
    }

    /// The same feature set with `depth_bounds` set to `enable`.
    pub fn depth_bounds(self, enable: bool) -> (r: Self)
        ensures
            r.flags@ == self.flags@.update(14, spec_bool32(enable)),
    {
        self.with_feature(DEPTH_BOUNDS, enable)
    }

    /// The same feature set with `wide_lines` set to `enable`.
    pub fn wide_lines(self, enable: bool) -> (r: Self)
        ensures
            r.flags@ == self.flags@.update(15, spec_bool32(enable)),
    {
        self.with_feature(WIDE_LINES, enable)
    }

    /// The same feature set with `large_points` set to `enable`.
    pub fn large_points(self, enable: bool) -> (r: Self)
        ensures
            r.flags@ == self.flags@.update(16, spec_bool32(enable)),
    {
        self.with_feature(LARGE_POINTS, enable)
    }

    /// The same feature set with `alpha_to_one` set to `enable`.
    pub fn alpha_to_one(self, enable: bool) -> (r: Self)
        ensures
            r.flags@ == self.flags@.update(17, spec_bool32(enable)),
    {
        self.with_feature(ALPHA_TO_ONE, enable)
    }

    /// The same feature set with `multi_viewport` set to `enable`.
    pub fn multi_viewport(self, enable: bool) -> (r: Self)
        ensures
            r.flags@ == self.flags@.update(18, spec_bool32(enable)),
    {
        self.with_feature(MULTI_VIEWPORT, enable)
    }

    /// The same feature set with `sampler_anisotropy` set to `enable`.
    pub fn sampler_anisotropy(self, enable: bool) -> (r: Self)
        ensures
            r.flags@ == self.flags@.update(19, spec_bool32(enable)),
    {
        self.with_feature(SAMPLER_ANISOTROPY, enable)
    }

    /// The same feature set with `texture_compression_etc2` set to `enable`.
    pub fn texture_compression_etc2(self, enable: bool) -> (r: Self)
        ensures
            r.flags@ == self.flags@.update(20, spec_bool32(enable)),
    {
        self.with_feature(TEXTURE_COMPRESSION_ETC2, enable)
    }

    /// The same feature set with `texture_compression_astc_ldr` set to `enable`.
    pub fn texture_compression_astc_ldr(self, enable: bool) -> (r: Self)
        ensures
            r.flags@ == self.flags@.update(21, spec_bool32(enable)),
    {
        self.with_feature(TEXTURE_COMPRESSION_ASTC_LDR, enable)
    }

    /// The same feature set with `texture_compression_bc` set to `enable`.
    pub fn texture_compression_bc(self, enable: bool) -> (r: Self)
        ensures
            r.flags@ == self.flags@.update(22, spec_bool32(enable)),
    {
        self.with_feature(TEXTURE_COMPRESSION_BC, enable)
    }

    /// The same feature set with `occlusion_query_precise` set to `enable`.
    pub fn occlusion_query_precise(self, enable: bool) -> (r: Self)
        ensures
            r.flags@ == self.flags@.update(23, spec_bool32(enable)),
    {
        self.with_feature(OCCLUSION_QUERY_PRECISE, enable)
    }

    /// The same feature set with `pipeline_statistics_query` set to `enable`.
    pub fn pipeline_statistics_query(self, enable: bool) -> (r: Self)
        ensures
            r.flags@ == self.flags@.update(24, spec_bool32(enable)),
    {
        self.with_feature(PIPELINE_STATISTICS_QUERY, enable)
    }

    /// The same feature set with `vertex_pipeline_stores_and_atomics` set to `enable`.
    pub fn vertex_pipeline_stores_and_atomics(self, enable: bool) -> (r: Self)
        ensures
            r.flags@ == self.flags@.update(25, spec_bool32(enable)),
    {
        self.with_feature(VERTEX_PIPELINE_STORES_AND_ATOMICS, enable)
    }

    /// The same feature set with `fragment_stores_and_atomics` set to `enable`.
    pub fn fragment_stores_and_atomics(self, enable: bool) -> (r: Self)
        ensures
            r.flags@ == self.flags@.update(26, spec_bool32(enable)),
    {
        self.with_feature(FRAGMENT_STORES_AND_ATOMICS, enable)
    }

    /// The same feature set with `shader_tessellation_and_geometry_point_size` set to `enable`.
    pub fn shader_tessellation_and_geometry_point_size(self, enable: bool) -> (r: Self)
        ensures
            r.flags@ == self.flags@.update(27, spec_bool32(enable)),
    {
        self.with_feature(SHADER_TESSELLATION_AND_GEOMETRY_POINT_SIZE, enable)
    }

    /// The same feature set with `shader_image_gather_extended` set to `enable`.
    pub fn shader_image_gather_extended(self, enable: bool) -> (r: Self)
        ensures
            r.flags@ == self.flags@.update(28, spec_bool32(enable)),
    {
        self.with_feature(SHADER_IMAGE_GATHER_EXTENDED, enable)
    }

    /// The same feature set with `shader_storage_image_extended_formats` set to `enable`.
    pub fn shader_storage_image_extended_formats(self, enable: bool) -> (r: Self)
        ensures
            r.flags@ == self.flags@.update(29, spec_bool32(enable)),
    {
        self.with_feature(SHADER_STORAGE_IMAGE_EXTENDED_FORMATS, enable)
    }

    /// The same feature set with `shader_storage_image_multisample` set to `enable`.
    pub fn shader_storage_image_multisample(self, enable: bool) -> (r: Self)
        ensures
            r.flags@ == self.flags@.update(30, spec_bool32(enable)),
    {
        self.with_feature(SHADER_STORAGE_IMAGE_MULTISAMPLE, enable)
    }

    /// The same feature set with `shader_storage_image_read_without_format` set to `enable`.
    pub fn shader_storage_image_read_without_format(self, enable: bool) -> (r: Self)
        ensures
            r.flags@ == self.flags@.update(31, spec_bool32(enable)),
    {
        self.with_feature(SHADER_STORAGE_IMAGE_READ_WITHOUT_FORMAT, enable)
    }

    /// The same feature set with `shader_storage_image_write_without_format` set to `enable`.
    pub fn shader_storage_image_write_without_format(self, enable: bool) -> (r: Self)
        ensures
            r.flags@ == self.flags@.update(32, spec_bool32(enable)),
    {
        self.with_feature(SHADER_STORAGE_IMAGE_WRITE_WITHOUT_FORMAT, enable)
    }

    /// The same feature set with `shader_uniform_buffer_array_dynamic_indexing` set to `enable`.
    pub fn shader_uniform_buffer_array_dynamic_indexing(self, enable: bool) -> (r: Self)
        ensures
            r.flags@ == self.flags@.update(33, spec_bool32(enable)),
    {
        self.with_feature(SHADER_UNIFORM_BUFFER_ARRAY_DYNAMIC_INDEXING, enable)
    }

    /// The same feature set with `shader_sampled_image_array_dynamic_indexing` set to `enable`.
    pub fn shader_sampled_image_array_dynamic_indexing(self, enable: bool) -> (r: Self)
        ensures
            r.flags@ == self.flags@.update(34, spec_bool32(enable)),
    {
        self.with_feature(SHADER_SAMPLED_IMAGE_ARRAY_DYNAMIC_INDEXING, enable)
    }

    /// The same feature set with `shader_storage_buffer_array_dynamic_indexing` set to `enable`.
    pub fn shader_storage_buffer_array_dynamic_indexing(self, enable: bool) -> (r: Self)
        ensures
            r.flags@ == self.flags@.update(35, spec_bool32(enable)),
    {
        self.with_feature(SHADER_STORAGE_BUFFER_ARRAY_DYNAMIC_INDEXING, enable)
    }

    /// The same feature set with `shader_storage_image_array_dynamic_indexing` set to `enable`.
    pub fn shader_storage_image_array_dynamic_indexing(self, enable: bool) -> (r: Self)
        ensures
            r.flags@ == self.flags@.update(36, spec_bool32(enable)),
    {
        self.with_feature(SHADER_STORAGE_IMAGE_ARRAY_DYNAMIC_INDEXING, enable)
    }

    /// The same feature set with `shader_clip_distance` set to `enable`.
    pub fn shader_clip_distance(self, enable: bool) -> (r: Self)
        ensures
            r.flags@ == self.flags@.update(37, spec_bool32(enable)),
    {
        self.with_feature(SHADER_CLIP_DISTANCE, enable)
    }

    /// The same feature set with `shader_cull_distance` set to `enable`.
    pub fn shader_cull_distance(self, enable: bool) -> (r: Self)
        ensures
            r.flags@ == self.flags@.update(38, spec_bool32(enable)),
    {
        self.with_feature(SHADER_CULL_DISTANCE, enable)
    }

    /// The same feature set with `shader_float64` set to `enable`.
    pub fn shader_float64(self, enable: bool) -> (r: Self)
        ensures
            r.flags@ == self.flags@.update(39, spec_bool32(enable)),
    {
        self.with_feature(SHADER_FLOAT64, enable)
    }

    /// The same feature set with `shader_int64` set to `enable`.
    pub fn shader_int64(self, enable: bool) -> (r: Self)
        ensures
            r.flags@ == self.flags@.update(40, spec_bool32(enable)),
    {
        self.with_feature(SHADER_INT64, enable)
    }

    /// The same feature set with `shader_int16` set to `enable`.
    pub fn shader_int16(self, enable: bool) -> (r: Self)
        ensures
            r.flags@ == self.flags@.update(41, spec_bool32(enable)),
    {
        self.with_feature(SHADER_INT16, enable)
    }

    /// The same feature set with `shader_resource_residency` set to `enable`.
    pub fn shader_resource_residency(self, enable: bool) -> (r: Self)
        ensures
            r.flags@ == self.flags@.update(42, spec_bool32(enable)),
    {
        self.with_feature(SHADER_RESOURCE_RESIDENCY, enable)
    }

    /// The same feature set with `shader_resource_min_lod` set to `enable`.
    pub fn shader_resource_min_lod(self, enable: bool) -> (r: Self)
        ensures
            r.flags@ == self.flags@.update(43, spec_bool32(enable)),
    {
        self.with_feature(SHADER_RESOURCE_MIN_LOD, enable)
    }

    /// The same feature set with `sparse_binding` set to `enable`.
    pub fn sparse_binding(self, enable: bool) -> (r: Self)
        ensures
            r.flags@ == self.flags@.update(44, spec_bool32(enable)),
    {
        self.with_feature(SPARSE_BINDING, enable)
    }

    /// The same feature set with `sparse_residency_buffer` set to `enable`.
    pub fn sparse_residency_buffer(self, enable: bool) -> (r: Self)
        ensures
            r.flags@ == self.flags@.update(45, spec_bool32(enable)),
    {
        self.with_feature(SPARSE_RESIDENCY_BUFFER, enable)
    }

    /// The same feature set with `sparse_residency_image2_d` set to `enable`.
    pub fn sparse_residency_image2_d(self, enable: bool) -> (r: Self)
        ensures
            r.flags@ == self.flags@.update(46, spec_bool32(enable)),
    {
        self.with_feature(SPARSE_RESIDENCY_IMAGE2_D, enable)
    }

    /// The same feature set with `sparse_residency_image3_d` set to `enable`.
    pub fn sparse_residency_image3_d(self, enable: bool) -> (r: Self)
        ensures
            r.flags@ == self.flags@.update(47, spec_bool32(enable)),
    {
        self.with_feature(SPARSE_RESIDENCY_IMAGE3_D, enable)
    }

    /// The same feature set with `sparse_residency2_samples` set to `enable`.
    pub fn sparse_residency2_samples(self, enable: bool) -> (r: Self)
        ensures
            r.flags@ == self.flags@.update(48, spec_bool32(enable)),
    {
        self.with_feature(SPARSE_RESIDENCY2_SAMPLES, enable)
    }

    /// The same feature set with `sparse_residency4_samples` set to `enable`.
    pub fn sparse_residency4_samples(self, enable: bool) -> (r: Self)
        ensures
            r.flags@ == self.flags@.update(49, spec_bool32(enable)),
    {
        self.with_feature(SPARSE_RESIDENCY4_SAMPLES, enable)
    }

    /// The same feature set with `sparse_residency8_samples` set to `enable`.
    pub fn sparse_residency8_samples(self, enable: bool) -> (r: Self)
        ensures
            r.flags@ == self.flags@.update(50, spec_bool32(enable)),
    {
        self.with_feature(SPARSE_RESIDENCY8_SAMPLES, enable)
    }

    /// The same feature set with `sparse_residency16_samples` set to `enable`.
    pub fn sparse_residency16_samples(self, enable: bool) -> (r: Self)
        ensures
            r.flags@ == self.flags@.update(51, spec_bool32(enable)),
    {
        self.with_feature(SPARSE_RESIDENCY16_SAMPLES, enable)
    }

    /// The same feature set with `sparse_residency_aliased` set to `enable`.
    pub fn sparse_residency_aliased(self, enable: bool) -> (r: Self)
        ensures
            r.flags@ == self.flags@.update(52, spec_bool32(enable)),
    {
        self.with_feature(SPARSE_RESIDENCY_ALIASED, enable)
    }

    /// The same feature set with `variable_multisample_rate` set to `enable`.
    pub fn variable_multisample_rate(self, enable: bool) -> (r: Self)
        ensures
            r.flags@ == self.flags@.update(53, spec_bool32(enable)),
    {
        self.with_feature(VARIABLE_MULTISAMPLE_RATE, enable)
    }

    /// The same feature set with `inherited_queries` set to `enable`.
    pub fn inherited_queries(self, enable: bool) -> (r: Self)
        ensures
            r.flags@ == self.flags@.update(54, spec_bool32(enable)),
    {
        self.with_feature(INHERITED_QUERIES, enable)
    }
}

impl Default for PhysicalDeviceFeatures {
    fn default() -> (r: Self)
        ensures
            forall|i: int| 0 <= i < FEATURE_COUNT ==> #[trigger] r.flags@[i] == FALSE,
    {
        Self::new()
    }
}

/// Whether one feature set asks for nothing beyond another.
pub trait SupportsFeatures {
    fn supports(&self, other: &Self) -> bool;
}

impl SupportsFeatures for PhysicalDeviceFeatures {
    /// `required.supports(candidate)` holds exactly when the candidate has every
    /// feature that `required` enables.
    fn supports(&self, other: &Self) -> (r: bool)
        ensures
            r == features_subset(self.flags@, other.flags@),
    {
        let mut i: usize = 0;
        while i < FEATURE_COUNT
            invariant
                i <= FEATURE_COUNT,
                forall|j: int|
                    0 <= j < i && #[trigger] enabled(self.flags@[j]) ==> enabled(other.flags@[j]),
            decreases FEATURE_COUNT - i,
        {
            if self.flags[i].as_bool() && !other.flags[i].as_bool() {
                return false;
            }
            i = i + 1;
        }
        true
    }
}

/// Turns on in `dest` every feature that `src` enables; every member of the result is
/// `VK_TRUE` or `VK_FALSE`.
pub fn combine_features(dest: &mut PhysicalDeviceFeatures, src: &PhysicalDeviceFeatures)
    ensures
        final(dest).flags@ == features_union(old(dest).flags@, src.flags@),
{
    let mut i: usize = 0;
    while i < FEATURE_COUNT
        invariant
            i <= FEATURE_COUNT,
            forall|j: int|
                0 <= j < i ==> #[trigger] dest.flags@[j] == spec_bool32(
                    enabled(old(dest).flags@[j]) || enabled(src.flags@[j]),
                ),
            forall|j: int| i <= j < FEATURE_COUNT ==> #[trigger] dest.flags@[j] == old(dest).flags@[j],
        decreases FEATURE_COUNT - i,
    {
        let v = bool32(dest.flags[i].as_bool() || src.flags[i].as_bool());
        dest.flags[i] = v;
        i = i + 1;
    }
    assert(dest.flags@ =~= features_union(old(dest).flags@, src.flags@));
}

} // verus!
