//! Extension feature structures and their chains.

use ash::vk;
use ash_bootstrap::feature_chain::{GenericFeatureChain, GenericFeatureNode};

fn vulkan11_node(f: vk::PhysicalDeviceVulkan11Features) -> GenericFeatureNode {
    GenericFeatureNode::from_raw(
        f.s_type.as_raw(),
        &[
            f.storage_buffer16_bit_access,
            f.uniform_and_storage_buffer16_bit_access,
            f.storage_push_constant16,
            f.storage_input_output16,
            f.multiview,
            f.multiview_geometry_shader,
            f.multiview_tessellation_shader,
            f.variable_pointers_storage_buffer,
            f.variable_pointers,
            f.protected_memory,
            f.sampler_ycbcr_conversion,
            f.shader_draw_parameters,
        ],
    )
}

#[test]
fn node_contains_subset() {
    let f1 = vk::PhysicalDeviceVulkan11Features::default().multiview(true);
    let n1 = vulkan11_node(f1);

    let f2 = vk::PhysicalDeviceVulkan11Features::default()
        .multiview(true)
        .shader_draw_parameters(true);
    let n2 = vulkan11_node(f2);

    assert!(n1.contains(&n2));

    assert!(!n2.contains(&n1));
}

#[test]
fn add_node_merges_same_structure_type() {
    let mut chain = GenericFeatureChain::new();
    chain.add_node(vulkan11_node(vk::PhysicalDeviceVulkan11Features::default().multiview(true)));
    chain.add_node(vulkan11_node(
        vk::PhysicalDeviceVulkan11Features::default().shader_draw_parameters(true),
    ));

    assert_eq!(chain.len(), 1);

    let mut requested = GenericFeatureChain::new();
    requested.add_node(vulkan11_node(
        vk::PhysicalDeviceVulkan11Features::default()
            .multiview(true)
            .shader_draw_parameters(true),
    ));

    assert!(chain.contains_all(&requested));
}
