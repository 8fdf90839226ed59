# ash_bootstrap

Vulkan bootstrapping for the `ash` wrapper: instance creation, physical-device
selection, logical-device creation and swapchain building, in the manner of
vk-bootstrap.

## Layout

- `src/` is the verified library. It holds every decision the bootstrap makes, over
  plain values: which instance extensions and layers to enable and which version to
  ask for (`instance.rs`, `system_info.rs`), how physical devices are judged and
  ranked (`physical_device.rs`), which queues, extensions and features a logical
  device gets (`device.rs`), the swapchain's image count, format, extent and present
  mode (`swapchain.rs`), and the helpers they share (`utils.rs`, `features.rs`,
  `feature_chain.rs`). Each public function states its result exactly in its
  contract; `laws.rs` proves the properties that relate several of them. The few
  calls into `ash` (version encoding, flag tests) stand behind the wrappers of
  `vulkan.rs`.
- `app/` asks the Vulkan driver what it supports, hands the answers to the library,
  and carries the resulting plans out through `ash`; it also holds the error types
  with their messages.
- `tests/` runs the library on concrete values.
