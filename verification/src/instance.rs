//! Instance configuration, and the decisions of instance creation: which API version
//! to ask for, and which extensions and layers to enable.

use vstd::prelude::*;

use crate::errors::InstanceError;
use crate::model::{
    API_VERSION_1_0, API_VERSION_1_1, EXT_LAYER_SETTINGS_NAME, EXT_METAL_SURFACE_NAME,
    KHR_ANDROID_SURFACE_NAME, KHR_GET_PHYSICAL_DEVICE_PROPERTIES2_NAME,
    KHR_PORTABILITY_ENUMERATION_NAME, KHR_SURFACE_NAME, KHR_WAYLAND_SURFACE_NAME,
    KHR_WIN32_SURFACE_NAME, KHR_XCB_SURFACE_NAME, KHR_XLIB_SURFACE_NAME,
};
use crate::system_info::{
    EXT_DEBUG_UTILS_NAME, SystemInfo, VALIDATION_LAYER_NAME, find_first_nul, find_nul,
    first_nul_position, lemma_list_without_nul, no_nul, nul_position,
};
use crate::utils::names;
use crate::vulkan::{
    api_version_minor, make_api_version, spec_api_version_minor, spec_make_api_version,
};

verus! {

/// `VK_DEBUG_UTILS_MESSAGE_SEVERITY_VERBOSE_BIT_EXT`.
pub const DEBUG_SEVERITY_VERBOSE: u32 = 0x1;

/// `VK_DEBUG_UTILS_MESSAGE_SEVERITY_INFO_BIT_EXT`.
pub const DEBUG_SEVERITY_INFO: u32 = 0x10;

/// `VK_DEBUG_UTILS_MESSAGE_SEVERITY_WARNING_BIT_EXT`.
pub const DEBUG_SEVERITY_WARNING: u32 = 0x100;

/// `VK_DEBUG_UTILS_MESSAGE_SEVERITY_ERROR_BIT_EXT`.
pub const DEBUG_SEVERITY_ERROR: u32 = 0x1000;

/// `VK_DEBUG_UTILS_MESSAGE_TYPE_GENERAL_BIT_EXT`.
pub const DEBUG_TYPE_GENERAL: u32 = 0x1;

/// `VK_DEBUG_UTILS_MESSAGE_TYPE_VALIDATION_BIT_EXT`.
pub const DEBUG_TYPE_VALIDATION: u32 = 0x2;

/// `VK_DEBUG_UTILS_MESSAGE_TYPE_PERFORMANCE_BIT_EXT`.
pub const DEBUG_TYPE_PERFORMANCE: u32 = 0x4;

/// The windowing system family of the target, which decides the platform surface
/// extensions.
#[derive(Clone, Copy, Debug, PartialEq, Eq, Structural)]
pub enum WindowingPlatform {
    Windows,
    Android,
    LinuxOrBsd,
    MacOs,
    Other,
}

/// The platform surface extensions of a windowing platform.
pub open spec fn platform_surface_names(platform: WindowingPlatform) -> Seq<Seq<char>> {
    match platform {
        WindowingPlatform::Windows => seq![KHR_WIN32_SURFACE_NAME@],
        WindowingPlatform::Android => seq![KHR_ANDROID_SURFACE_NAME@],
        WindowingPlatform::LinuxOrBsd => seq![
            KHR_XCB_SURFACE_NAME@,
            KHR_XLIB_SURFACE_NAME@,
            KHR_WAYLAND_SURFACE_NAME@,
        ],
        WindowingPlatform::MacOs => seq![EXT_METAL_SURFACE_NAME@],
        WindowingPlatform::Other => seq![],
    }
}

/// The instance configuration that creation reads.
#[derive(Clone, Debug)]
pub struct InstanceInfo {
    pub app_name: String,
    pub engine_name: String,
    pub app_version: u32,
    pub engine_version: u32,
    pub minimum_instance_version: u32,
    pub required_api_version: u32,
    pub enabled_layers: Vec<String>,
    pub enabled_extensions: Vec<String>,
    pub flags: u32,
    /// How many layer settings were added.
    pub layer_setting_count: usize,
    /// Whether a debug callback is set.
    pub has_debug_callback: bool,
    pub debug_message_severity: u32,
    pub debug_message_type: u32,
    pub disabled_validation_checks: Vec<i32>,
    pub enabled_validation_features: Vec<i32>,
    pub disabled_validation_features: Vec<i32>,
    pub request_validation_layers: bool,
    pub enable_validation_layers: bool,
    pub use_debug_messenger: bool,
    pub headless_context: bool,
}

impl InstanceInfo {
    /// The default configuration.
    pub open spec fn spec_default(self) -> bool {
        &&& self.app_name@ == Seq::<char>::empty()
        &&& self.engine_name@ == Seq::<char>::empty()
        &&& self.app_version == 0
        &&& self.engine_version == 0
        &&& self.minimum_instance_version == 0
        &&& self.required_api_version == API_VERSION_1_0
        &&& self.enabled_layers@.len() == 0
        &&& self.enabled_extensions@.len() == 0
        &&& self.flags == 0
        &&& self.layer_setting_count == 0
        &&& !self.has_debug_callback
        &&& self.debug_message_severity == DEBUG_SEVERITY_WARNING | DEBUG_SEVERITY_ERROR
        &&& self.debug_message_type == DEBUG_TYPE_GENERAL | DEBUG_TYPE_VALIDATION
            | DEBUG_TYPE_PERFORMANCE
        &&& self.disabled_validation_checks@.len() == 0
        &&& self.enabled_validation_features@.len() == 0
        &&& self.disabled_validation_features@.len() == 0
        &&& !self.request_validation_layers
        &&& !self.enable_validation_layers
        &&& !self.use_debug_messenger
        &&& !self.headless_context
    }
}

impl Default for InstanceInfo {
    fn default() -> (r: Self)
        ensures
            r.spec_default(),
    {
        InstanceInfo {
            app_name: String::new(),
            engine_name: String::new(),
            app_version: 0,
            engine_version: 0,
            minimum_instance_version: 0,
            required_api_version: API_VERSION_1_0,
            enabled_layers: Vec::new(),
            enabled_extensions: Vec::new(),
            flags: 0,
            layer_setting_count: 0,
            has_debug_callback: false,
            debug_message_severity: DEBUG_SEVERITY_WARNING | DEBUG_SEVERITY_ERROR,
            debug_message_type: DEBUG_TYPE_GENERAL | DEBUG_TYPE_VALIDATION | DEBUG_TYPE_PERFORMANCE,
            disabled_validation_checks: Vec::new(),
            enabled_validation_features: Vec::new(),
            disabled_validation_features: Vec::new(),
            request_validation_layers: false,
            enable_validation_layers: false,
            use_debug_messenger: false,
            headless_context: false,
        }
    }
}

/// Whether creation must ask the loader for its instance version.
pub open spec fn version_query_needed(info: InstanceInfo) -> bool {
    info.minimum_instance_version > API_VERSION_1_0 || info.required_api_version > API_VERSION_1_0
}

/// The error for a loader older than the required version, by the required minor
/// number.
pub open spec fn version_error(required_api_version: u32) -> InstanceError {
    let minor = spec_api_version_minor(required_api_version);
    if minor == 4 {
        InstanceError::VulkanVersion1_4Unavailable
    } else if minor == 3 {
        InstanceError::VulkanVersion1_3Unavailable
    } else if minor == 2 {
        InstanceError::VulkanVersion1_2Unavailable
    } else if minor == 1 {
        InstanceError::VulkanVersion1_1Unavailable
    } else {
        InstanceError::VulkanVersionUnavailable
    }
}

/// The instance version that creation settles on, given the version the loader reports
/// (`None`: it reports none), or why the loader is too old.
pub open spec fn spec_instance_version(info: InstanceInfo, reported: Option<u32>) -> Result<
    u32,
    InstanceError,
> {
    if version_query_needed(info) {
        match reported {
            None => Err(InstanceError::VulkanVersionUnavailable),
            Some(v) => if v < info.minimum_instance_version || (info.minimum_instance_version == 0
                && v < info.required_api_version) {
                Err(version_error(info.required_api_version))
            } else {
                Ok(v)
            },
        }
    } else {
        Ok(API_VERSION_1_0)
    }
}

/// The API version asked of the instance: the instance version on a 1.0 loader, else the
/// required API version.
pub open spec fn spec_api_version(info: InstanceInfo, instance_version: u32) -> u32 {
    if instance_version < API_VERSION_1_1 {
        instance_version
    } else {
        info.required_api_version
    }
}

/// `seq![n]` when `b`, else the empty sequence.
pub open spec fn opt_name(b: bool, n: Seq<char>) -> Seq<Seq<char>> {
    if b {
        seq![n]
    } else {
        Seq::empty()
    }
}

/// Whether the physical-device-properties-2 extension is enabled: the API version is 1.0
/// and the loader has the extension.
pub open spec fn properties2_enabled(sys: SystemInfo, api_version: u32) -> bool {
    api_version < API_VERSION_1_1 && sys.extension_names().contains(
        KHR_GET_PHYSICAL_DEVICE_PROPERTIES2_NAME@,
    )
}

/// Whether portability enumeration is enabled: the loader has the extension.
pub open spec fn portability_enabled(sys: SystemInfo) -> bool {
    sys.extension_names().contains(KHR_PORTABILITY_ENUMERATION_NAME@)
}

/// The extensions enabled before the windowing extensions.
pub open spec fn spec_requested_extensions(
    info: InstanceInfo,
    sys: SystemInfo,
    api_version: u32,
) -> Seq<Seq<char>> {
    names(info.enabled_extensions@) + opt_name(
        info.has_debug_callback && info.use_debug_messenger && sys.extension_names().contains(
            EXT_DEBUG_UTILS_NAME@,
        ),
        EXT_DEBUG_UTILS_NAME@,
    ) + opt_name(
        properties2_enabled(sys, api_version),
        KHR_GET_PHYSICAL_DEVICE_PROPERTIES2_NAME@,
    ) + opt_name(info.layer_setting_count > 0, EXT_LAYER_SETTINGS_NAME@) + opt_name(
        portability_enabled(sys),
        KHR_PORTABILITY_ENUMERATION_NAME@,
    )
}

/// The windowing extensions that the loader has: the surface extension, then the
/// platform's surface extensions.
pub open spec fn spec_window_extensions(sys: SystemInfo, platform: WindowingPlatform) -> Seq<
    Seq<char>,
> {
    (seq![KHR_SURFACE_NAME@] + platform_surface_names(platform)).filter(
        |n: Seq<char>| sys.extension_names().contains(n),
    )
}

/// Whether the loader has the surface extension and a surface extension of the platform.
pub open spec fn windowing_available(sys: SystemInfo, platform: WindowingPlatform) -> bool {
    &&& sys.extension_names().contains(KHR_SURFACE_NAME@)
    &&& exists|i: int|
        0 <= i < platform_surface_names(platform).len() && sys.extension_names().contains(
            #[trigger] platform_surface_names(platform)[i],
        )
}

/// All the instance extensions to enable.
pub open spec fn spec_extensions(
    info: InstanceInfo,
    sys: SystemInfo,
    api_version: u32,
    platform: WindowingPlatform,
) -> Seq<Seq<char>> {
    spec_requested_extensions(info, sys, api_version) + if info.headless_context {
        Seq::empty()
    } else {
        spec_window_extensions(sys, platform)
    }
}

/// Whether the validation layer is added.
pub open spec fn validation_layer_added(info: InstanceInfo, sys: SystemInfo) -> bool {
    info.enable_validation_layers || (info.request_validation_layers
        && sys.layer_names().contains(VALIDATION_LAYER_NAME@))
}

/// All the layers to enable.
pub open spec fn spec_layers(info: InstanceInfo, sys: SystemInfo) -> Seq<Seq<char>> {
    names(info.enabled_layers@) + opt_name(validation_layer_added(info, sys), VALIDATION_LAYER_NAME@)
}

/// Every name of `list` is among `available`.
pub open spec fn all_in(list: Seq<Seq<char>>, available: Seq<Seq<char>>) -> bool {
    forall|i: int| 0 <= i < list.len() ==> available.contains(#[trigger] list[i])
}

/// Whether the windowing and extension checks of creation pass.
pub open spec fn extension_checks_pass(
    info: InstanceInfo,
    sys: SystemInfo,
    api_version: u32,
    platform: WindowingPlatform,
) -> bool {
    &&& (info.headless_context || windowing_available(sys, platform))
    &&& all_in(spec_extensions(info, sys, api_version, platform), sys.extension_names())
}

/// The error for a name that cannot become a C string, its first nul byte at `position`.
pub open spec fn invalid_string(position: int) -> InstanceError {
    InstanceError::InvalidString(position as usize)
}

/// The error that instance creation stops with before it calls the driver, if any.
pub open spec fn spec_build_error(
    info: InstanceInfo,
    sys: SystemInfo,
    reported: Option<u32>,
    platform: WindowingPlatform,
) -> Option<InstanceError> {
    match spec_instance_version(info, reported) {
        Err(e) => Some(e),
        Ok(instance_version) => {
            let api = spec_api_version(info, instance_version);
            let extension_nul = first_nul_position(names(info.enabled_extensions@));
            let layer_nul = first_nul_position(names(info.enabled_layers@));
            if nul_position(info.app_name@) is Some {
                Some(invalid_string(nul_position(info.app_name@)->0))
            } else if nul_position(info.engine_name@) is Some {
                Some(invalid_string(nul_position(info.engine_name@)->0))
            } else if extension_nul is Some {
                Some(invalid_string(extension_nul->0))
            } else if !info.headless_context && !windowing_available(sys, platform) {
                Some(InstanceError::WindowingExtensionsUnavailable)
            } else if !all_in(spec_extensions(info, sys, api, platform), sys.extension_names()) {
                Some(InstanceError::RequestedExtensionsUnavailable)
            } else if layer_nul is Some {
                Some(invalid_string(layer_nul->0))
            } else if !all_in(spec_layers(info, sys), sys.layer_names()) {
                Some(InstanceError::RequestedLayersUnavailable)
            } else {
                None
            }
        },
    }
}

/// What instance creation hands to the driver once every check has passed.
#[derive(Debug)]
pub struct InstancePlan {
    pub instance_version: u32,
    pub api_version: u32,
    pub extensions: Vec<String>,
    pub layers: Vec<String>,
    pub properties2_ext_enabled: bool,
    /// Whether `VK_INSTANCE_CREATE_ENUMERATE_PORTABILITY_BIT_KHR` is set.
    pub portability_enumeration: bool,
    /// Whether the debug messenger create info is chained, and the messenger created.
    pub chain_debug_messenger: bool,
    /// Whether the validation features structure is chained.
    pub chain_validation_features: bool,
    /// Whether the validation flags structure is chained.
    pub chain_validation_flags: bool,
    /// Whether the layer settings structure is chained.
    pub chain_layer_settings: bool,
}

/// Appends a name to a list of names.
pub(crate) fn push_name(v: &mut Vec<String>, s: &str)
    ensures
        names(final(v)@) == names(old(v)@).push(s@),
{
    let ghost prev = v@;
    v.push(s.to_owned());
    assert(names(v@) =~= names(prev).push(s@));
}

/// A copy of a list of names.
pub(crate) fn copy_names(v: &Vec<String>) -> (r: Vec<String>)
    ensures
        names(r@) == names(v@),
{
    let mut r: Vec<String> = Vec::new();
    let mut i: usize = 0;
    while i < v.len()
        invariant
            i <= v@.len(),
            names(r@) == names(v@).take(i as int),
        decreases v@.len() - i,
    {
        let ghost prev = r@;
        let s = v[i].clone();
        assert(s@ == v@[i as int]@);
        r.push(s);
        assert(names(r@) =~= names(prev).push(s@));
        assert(names(r@) =~= names(v@).take(i + 1));
        i = i + 1;
    }
    assert(names(v@).take(v@.len() as int) =~= names(v@));
    r
}

/// The name is among the available ones (its view), given that `no_nul` holds of
/// literal names.
proof fn lemma_literal_names_have_no_nul()
    ensures
        no_nul(EXT_DEBUG_UTILS_NAME@),
        no_nul(KHR_GET_PHYSICAL_DEVICE_PROPERTIES2_NAME@),
        no_nul(EXT_LAYER_SETTINGS_NAME@),
        no_nul(KHR_PORTABILITY_ENUMERATION_NAME@),
        no_nul(KHR_SURFACE_NAME@),
        no_nul(KHR_WIN32_SURFACE_NAME@),
        no_nul(KHR_ANDROID_SURFACE_NAME@),
        no_nul(KHR_XCB_SURFACE_NAME@),
        no_nul(KHR_XLIB_SURFACE_NAME@),
        no_nul(KHR_WAYLAND_SURFACE_NAME@),
        no_nul(EXT_METAL_SURFACE_NAME@),
        no_nul(VALIDATION_LAYER_NAME@),
{
    reveal_strlit("VK_EXT_debug_utils");
    reveal_strlit("VK_KHR_get_physical_device_properties2");
    reveal_strlit("VK_EXT_layer_settings");
    reveal_strlit("VK_KHR_portability_enumeration");
    reveal_strlit("VK_KHR_surface");
    reveal_strlit("VK_KHR_win32_surface");
    reveal_strlit("VK_KHR_android_surface");
    reveal_strlit("VK_KHR_xcb_surface");
    reveal_strlit("VK_KHR_xlib_surface");
    reveal_strlit("VK_KHR_wayland_surface");
    reveal_strlit("VK_EXT_metal_surface");
    reveal_strlit("VK_LAYER_KHRONOS_validation");
}

/// The character sequences of a list of string slices.
pub open spec fn str_names(v: Seq<&str>) -> Seq<Seq<char>> {
    v.map_values(|s: &str| s@)
}

/// Appends, in order, each candidate name that the loader has; tells whether it had any.
fn add_available(sys: &SystemInfo, v: &mut Vec<String>, candidates: &[&str]) -> (r: bool)
    requires
        forall|i: int| 0 <= i < candidates@.len() ==> no_nul(#[trigger] candidates@[i]@),
    ensures
        names(final(v)@) == names(old(v)@) + str_names(candidates@).filter(
            |n: Seq<char>| sys.extension_names().contains(n),
        ),
        r == exists|i: int|
            0 <= i < candidates@.len() && sys.extension_names().contains(
                #[trigger] candidates@[i]@,
            ),
{
    let ghost pred = |n: Seq<char>| sys.extension_names().contains(n);
    let ghost start = names(v@);
    let mut any = false;
    let mut i: usize = 0;
    while i < candidates.len()
        invariant
            i <= candidates@.len(),
            forall|k: int| 0 <= k < candidates@.len() ==> no_nul(#[trigger] candidates@[k]@),
            pred == (|n: Seq<char>| sys.extension_names().contains(n)),
            names(v@) == start + str_names(candidates@).take(i as int).filter(pred),
            any == exists|k: int|
                0 <= k < i && sys.extension_names().contains(#[trigger] candidates@[k]@),
        decreases candidates@.len() - i,
    {
        proof {
            reveal_with_fuel(Seq::<Seq<char>>::filter, 1);
            assert(str_names(candidates@).take(i + 1).drop_last() =~= str_names(candidates@).take(
                i as int,
            ));
            assert(str_names(candidates@)[i as int] == candidates@[i as int]@);
        }
        if sys.is_extension_available(candidates[i]) {
            push_name(v, candidates[i]);
            any = true;
        }
        assert(names(v@) =~= start + str_names(candidates@).take(i + 1).filter(pred));
        i = i + 1;
    }
    assert(str_names(candidates@).take(candidates@.len() as int) =~= str_names(candidates@));
    any
}

/// The platform surface extensions of a windowing platform.
fn platform_surface_extension_names(platform: WindowingPlatform) -> (r: Vec<&'static str>)
    ensures
        str_names(r@) == platform_surface_names(platform),
{
    let r = match platform {
        WindowingPlatform::Windows => vec![KHR_WIN32_SURFACE_NAME],
        WindowingPlatform::Android => vec![KHR_ANDROID_SURFACE_NAME],
        WindowingPlatform::LinuxOrBsd => vec![
            KHR_XCB_SURFACE_NAME,
            KHR_XLIB_SURFACE_NAME,
            KHR_WAYLAND_SURFACE_NAME,
        ],
        WindowingPlatform::MacOs => vec![EXT_METAL_SURFACE_NAME],
        WindowingPlatform::Other => Vec::new(),
    };
    assert(str_names(r@) =~= platform_surface_names(platform));
    r
}

/// The platform surface extensions hold no nul character.
proof fn lemma_platform_names_have_no_nul(platform: WindowingPlatform)
    ensures
        forall|i: int|
            0 <= i < platform_surface_names(platform).len() ==> no_nul(
                #[trigger] platform_surface_names(platform)[i],
            ),
{
    lemma_literal_names_have_no_nul();
}

/// The windowing extensions split into the surface extension and the platform's.
proof fn lemma_window_extensions(sys: SystemInfo, platform: WindowingPlatform)
    ensures
        spec_window_extensions(sys, platform) == seq![KHR_SURFACE_NAME@].filter(
            |n: Seq<char>| sys.extension_names().contains(n),
        ) + platform_surface_names(platform).filter(
            |n: Seq<char>| sys.extension_names().contains(n),
        ),
{
    let p = |n: Seq<char>| sys.extension_names().contains(n);
    Seq::filter_distributes_over_add(
        seq![KHR_SURFACE_NAME@],
        platform_surface_names(platform),
        p,
    );
}

/// Builder of the instance configuration.
#[derive(Clone, Debug)]
pub struct InstanceBuilder {
    pub info: InstanceInfo,
}

impl InstanceBuilder {
    /// A builder with the default configuration.
    pub fn new() -> (r: Self)
        ensures
            r.info.spec_default(),
    {
        InstanceBuilder { info: InstanceInfo::default() }
    }

    /// Whether creation must ask the loader for its instance version.
    pub fn needs_version_query(&self) -> (r: bool)
        ensures
            r == version_query_needed(self.info),
    {
        self.info.minimum_instance_version > API_VERSION_1_0 || self.info.required_api_version
            > API_VERSION_1_0
    }

    /// The instance version and API version that creation settles on, or why the loader
    /// is too old.
    fn settle_versions(&self, reported_version: Option<u32>) -> (r: Result<(u32, u32), InstanceError>)
        ensures
            match r {
                Ok((iv, api)) => spec_instance_version(self.info, reported_version) == Ok::<
                    u32,
                    InstanceError,
                >(iv) && api == spec_api_version(self.info, iv),
                Err(e) => spec_instance_version(self.info, reported_version) == Err::<
                    u32,
                    InstanceError,
                >(e),
            },
    {
        let info = &self.info;
        let mut instance_version = API_VERSION_1_0;
        if info.minimum_instance_version > API_VERSION_1_0 || info.required_api_version
            > API_VERSION_1_0 {
            match reported_version {
                Some(v) => {
                    instance_version = v;
                },
                None => {
                    return Err(InstanceError::VulkanVersionUnavailable);
                },
            }
            if instance_version < info.minimum_instance_version || (info.minimum_instance_version
                == 0 && instance_version < info.required_api_version) {
                let minor = api_version_minor(info.required_api_version);
                return if minor == 4 {
                    Err(InstanceError::VulkanVersion1_4Unavailable)
                } else if minor == 3 {
                    Err(InstanceError::VulkanVersion1_3Unavailable)
                } else if minor == 2 {
                    Err(InstanceError::VulkanVersion1_2Unavailable)
                } else if minor == 1 {
                    Err(InstanceError::VulkanVersion1_1Unavailable)
                } else {
                    Err(InstanceError::VulkanVersionUnavailable)
                };
            }
        }
        let api_version = if instance_version < API_VERSION_1_1 {
            instance_version
        } else {
            info.required_api_version
        };
        Ok((instance_version, api_version))
    }

    /// The extensions enabled before the windowing extensions.
    fn requested_extensions(&self, sys: &SystemInfo, api_version: u32) -> (r: Vec<String>)
        ensures
            names(r@) == spec_requested_extensions(self.info, *sys, api_version),
    {
        proof {
            lemma_literal_names_have_no_nul();
        }
        let info = &self.info;
        let mut extensions = copy_names(&info.enabled_extensions);
        if info.has_debug_callback && info.use_debug_messenger && sys.is_extension_available(
            EXT_DEBUG_UTILS_NAME,
        ) {
            push_name(&mut extensions, EXT_DEBUG_UTILS_NAME);
        }
        let properties2_ext_enabled = api_version < API_VERSION_1_1 && sys.is_extension_available(
            KHR_GET_PHYSICAL_DEVICE_PROPERTIES2_NAME,
        );
        if properties2_ext_enabled {
            push_name(&mut extensions, KHR_GET_PHYSICAL_DEVICE_PROPERTIES2_NAME);
        }
        if info.layer_setting_count > 0 {
            push_name(&mut extensions, EXT_LAYER_SETTINGS_NAME);
        }
        if sys.is_extension_available(KHR_PORTABILITY_ENUMERATION_NAME) {
            push_name(&mut extensions, KHR_PORTABILITY_ENUMERATION_NAME);
        }
        assert(names(extensions@) =~= spec_requested_extensions(self.info, *sys, api_version));
        extensions
    }

    /// The layers to enable.
    fn layers(&self, sys: &SystemInfo) -> (r: Vec<String>)
        ensures
            names(r@) == spec_layers(self.info, *sys),
    {
        let info = &self.info;
        let mut layers = copy_names(&info.enabled_layers);
        proof {
            lemma_literal_names_have_no_nul();
        }
        if info.enable_validation_layers || (info.request_validation_layers
            && sys.is_layer_available(VALIDATION_LAYER_NAME)) {
            push_name(&mut layers, VALIDATION_LAYER_NAME);
        }
        assert(names(layers@) =~= spec_layers(self.info, *sys));
        layers
    }

    /// The decisions of instance creation, from what the loader reports (`sys`), the
    /// instance version it reports when asked (`None`: it reports none) and the
    /// windowing platform of the target: the instance and API versions, the extensions
    /// and layers, and which structures to chain; or the error that stops creation before
    /// the driver is called, among them `InvalidString` for a name with a nul byte.
    pub fn plan(&self, sys: &SystemInfo, reported_version: Option<u32>, platform: WindowingPlatform) -> (r:
        Result<InstancePlan, InstanceError>)
        ensures
            match r {
                Ok(p) => {
                    &&& spec_build_error(self.info, *sys, reported_version, platform) is None
                    &&& spec_instance_version(self.info, reported_version) == Ok::<u32, InstanceError>(p.instance_version)
                    &&& p.api_version == spec_api_version(self.info, p.instance_version)
                    &&& names(p.extensions@) == spec_extensions(
                        self.info,
                        *sys,
                        p.api_version,
                        platform,
                    )
                    &&& names(p.layers@) == spec_layers(self.info, *sys)
                    &&& p.properties2_ext_enabled == properties2_enabled(*sys, p.api_version)
                    &&& p.portability_enumeration == portability_enabled(*sys)
                    &&& p.chain_debug_messenger == self.info.use_debug_messenger
                    &&& p.chain_validation_features == (
                    self.info.enabled_validation_features@.len() > 0
                        || self.info.disabled_validation_features@.len() == 0)
                    &&& p.chain_validation_flags == (self.info.disabled_validation_checks@.len()
                        > 0)
                    &&& p.chain_layer_settings == (self.info.layer_setting_count > 0)
                },
                Err(e) => spec_build_error(self.info, *sys, reported_version, platform) == Some(e),
            },
    {
        proof {
            lemma_literal_names_have_no_nul();
        }
        let (instance_version, api_version) = match self.settle_versions(reported_version) {
            Ok(v) => v,
            Err(e) => {
                return Err(e);
            },
        };
        match find_nul(self.info.app_name.as_str()) {
            Some(p) => {
                return Err(InstanceError::InvalidString(p));
            },
            None => {},
        }
        match find_nul(self.info.engine_name.as_str()) {
            Some(p) => {
                return Err(InstanceError::InvalidString(p));
            },
            None => {},
        }
        match find_first_nul(&self.info.enabled_extensions) {
            Some(p) => {
                return Err(InstanceError::InvalidString(p));
            },
            None => {},
        }
        proof {
            lemma_list_without_nul(names(self.info.enabled_extensions@));
            assert forall|k: int| 0 <= k < self.info.enabled_extensions@.len() implies no_nul(
                #[trigger] self.info.enabled_extensions@[k]@,
            ) by {
                assert(names(self.info.enabled_extensions@)[k] == self.info.enabled_extensions@[k]@);
            }
        }
        let mut extensions = self.requested_extensions(sys, api_version);
        if !self.info.headless_context {
            let windowing = add_window_extensions(sys, &mut extensions, platform);
            if !windowing {
                return Err(InstanceError::WindowingExtensionsUnavailable);
            }
        }
        assert(names(extensions@) =~= spec_extensions(self.info, *sys, api_version, platform));
        assert forall|i: int|
            0 <= i < spec_extensions(self.info, *sys, api_version, platform).len()
                && sys.extension_names().len() > 0 implies no_nul(
            #[trigger] spec_extensions(self.info, *sys, api_version, platform)[i],
        ) by {
            lemma_extension_names_have_no_nul(self.info, *sys, api_version, platform, i);
        }
        let all_extensions_supported = extensions_all_available(
            sys,
            &extensions,
            Ghost(spec_extensions(self.info, *sys, api_version, platform)),
        );
        if !all_extensions_supported {
            return Err(InstanceError::RequestedExtensionsUnavailable);
        }
        match find_first_nul(&self.info.enabled_layers) {
            Some(p) => {
                return Err(InstanceError::InvalidString(p));
            },
            None => {},
        }
        proof {
            lemma_list_without_nul(names(self.info.enabled_layers@));
        }
        let layers = self.layers(sys);
        assert forall|i: int|
            0 <= i < layers@.len() && sys.layer_names().len() > 0 implies no_nul(
            #[trigger] layers@[i]@,
        ) by {
            assert(names(layers@)[i] == layers@[i]@);
            if i < self.info.enabled_layers@.len() {
                assert(names(self.info.enabled_layers@)[i] == self.info.enabled_layers@[i]@);
            }
        }
        let all_layers_supported = sys.layers_supported(layers.as_slice());
        proof {
            lemma_all_in_names(layers@, sys.layer_names());
        }
        if !all_layers_supported {
            return Err(InstanceError::RequestedLayersUnavailable);
        }
        let properties2_ext_enabled = api_version < API_VERSION_1_1 && sys.is_extension_available(
            KHR_GET_PHYSICAL_DEVICE_PROPERTIES2_NAME,
        );
        let portability_enumeration = sys.is_extension_available(KHR_PORTABILITY_ENUMERATION_NAME);
        Ok(
            InstancePlan {
                instance_version,
                api_version,
                extensions,
                layers,
                properties2_ext_enabled,
                portability_enumeration,
                chain_debug_messenger: self.info.use_debug_messenger,
                chain_validation_features: self.info.enabled_validation_features.len() > 0
                    || self.info.disabled_validation_features.len() == 0,
                chain_validation_flags: self.info.disabled_validation_checks.len() > 0,
                chain_layer_settings: self.info.layer_setting_count > 0,
            },
        )
    }
}

/// `all_in` over the names of a list is the statement over its members.
proof fn lemma_all_in_names(list: Seq<String>, available: Seq<Seq<char>>)
    ensures
        all_in(names(list), available) == forall|i: int|
            0 <= i < list.len() ==> available.contains(#[trigger] list[i]@),
{
    if all_in(names(list), available) {
        assert forall|i: int| 0 <= i < list.len() implies available.contains(#[trigger] list[i]@) by {
            assert(names(list)[i] == list[i]@);
        }
    }
    if forall|i: int| 0 <= i < list.len() ==> available.contains(#[trigger] list[i]@) {
        assert forall|i: int| 0 <= i < names(list).len() implies available.contains(
            #[trigger] names(list)[i],
        ) by {
            assert(names(list)[i] == list[i]@);
        }
    }
}

/// Whether the loader has every one of the extensions, whose names are `expected`.
fn extensions_all_available(sys: &SystemInfo, extensions: &Vec<String>, Ghost(expected): Ghost<
    Seq<Seq<char>>,
>) -> (r: bool)
    requires
        names(extensions@) == expected,
        forall|i: int|
            0 <= i < expected.len() && sys.extension_names().len() > 0 ==> no_nul(
                #[trigger] expected[i],
            ),
    ensures
        r == all_in(expected, sys.extension_names()),
{
    assert forall|i: int|
        0 <= i < extensions@.len() && sys.extension_names().len() > 0 implies no_nul(
        #[trigger] extensions@[i]@,
    ) by {
        assert(names(extensions@)[i] == extensions@[i]@);
    }
    let r = sys.extensions_supported(extensions.as_slice());
    proof {
        lemma_all_in_names(extensions@, sys.extension_names());
    }
    r
}

/// Appends the windowing extensions that the loader has; tells whether it has the
/// surface extension and a surface extension of the platform.
fn add_window_extensions(sys: &SystemInfo, extensions: &mut Vec<String>, platform: WindowingPlatform) -> (r: bool)
    ensures
        names(final(extensions)@) == names(old(extensions)@) + spec_window_extensions(*sys, platform),
        r == windowing_available(*sys, platform),
{
    proof {
        lemma_literal_names_have_no_nul();
        lemma_window_extensions(*sys, platform);
    }
    let surface_list = vec![KHR_SURFACE_NAME];
    assert(str_names(surface_list@) =~= seq![KHR_SURFACE_NAME@]);
    let khr_surface_added = add_available(sys, extensions, surface_list.as_slice());
    let platform_list = platform_surface_extension_names(platform);
    proof {
        lemma_platform_names_have_no_nul(platform);
        assert forall|i: int| 0 <= i < platform_list@.len() implies no_nul(
            #[trigger] platform_list@[i]@,
        ) by {
            assert(str_names(platform_list@)[i] == platform_list@[i]@);
        }
    }
    let added_window_exts = add_available(sys, extensions, platform_list.as_slice());
    proof {
        assert(khr_surface_added == sys.extension_names().contains(KHR_SURFACE_NAME@)) by {
            if khr_surface_added {
                let k = choose|k: int|
                    0 <= k < surface_list@.len() && sys.extension_names().contains(
                        #[trigger] surface_list@[k]@,
                    );
                assert(str_names(surface_list@)[k] == surface_list@[k]@);
            } else {
                assert(str_names(surface_list@)[0] == surface_list@[0]@);
            }
        }
        if added_window_exts {
            let k = choose|k: int|
                0 <= k < platform_list@.len() && sys.extension_names().contains(
                    #[trigger] platform_list@[k]@,
                );
            assert(str_names(platform_list@)[k] == platform_list@[k]@);
            assert(platform_surface_names(platform)[k] == platform_list@[k]@);
        } else {
            assert forall|k: int| 0 <= k < platform_surface_names(platform).len() implies !sys.extension_names().contains(
                #[trigger] platform_surface_names(platform)[k],
            ) by {
                assert(str_names(platform_list@)[k] == platform_list@[k]@);
            }
        }
    }
    assert(names(extensions@) =~= names(old(extensions)@) + spec_window_extensions(*sys, platform));
    khr_surface_added && added_window_exts
}

/// Every extension that creation asks for holds no nul character, once the application
/// strings convert.
proof fn lemma_extension_names_have_no_nul(
    info: InstanceInfo,
    sys: SystemInfo,
    api_version: u32,
    platform: WindowingPlatform,
    i: int,
)
    requires
        forall|k: int|
            0 <= k < info.enabled_extensions@.len() ==> no_nul(#[trigger] info.enabled_extensions@[k]@),
        0 <= i < spec_extensions(info, sys, api_version, platform).len(),
    ensures
        no_nul(spec_extensions(info, sys, api_version, platform)[i]),
{
    lemma_literal_names_have_no_nul();
    let req = spec_requested_extensions(info, sys, api_version);
    let n = names(info.enabled_extensions@).len();
    if i < n {
        assert(spec_extensions(info, sys, api_version, platform)[i] == names(info.enabled_extensions@)[i]);
        assert(names(info.enabled_extensions@)[i] == info.enabled_extensions@[i]@);
    } else if i >= req.len() {
        let w = spec_window_extensions(sys, platform);
        let p = |nm: Seq<char>| sys.extension_names().contains(nm);
        let cands = seq![KHR_SURFACE_NAME@] + platform_surface_names(platform);
        assert(spec_extensions(info, sys, api_version, platform)[i] == w[i - req.len()]);
        assert(w == cands.filter(p));
        assert(cands.filter(p).contains(w[i - req.len()]));
        cands.lemma_filter_contains_rev(p, w[i - req.len()]);
        assert(forall|k: int| 0 <= k < cands.len() ==> no_nul(#[trigger] cands[k]));
    } else {
        assert(spec_extensions(info, sys, api_version, platform)[i] == req[i]);
    }
}



impl InstanceBuilder {
    /// Sets the application name.
    pub fn set_app_name(self, app_name: &str) -> (r: Self)
        ensures
            r.info.app_name@ == app_name@,
            r.info == (InstanceInfo { app_name: r.info.app_name, ..self.info }),
    {
        let mut b = self;
        b.info.app_name = app_name.to_owned();
        b
    }

    /// Sets the engine name.
    pub fn set_engine_name(self, engine_name: &str) -> (r: Self)
        ensures
            r.info.engine_name@ == engine_name@,
            r.info == (InstanceInfo { engine_name: r.info.engine_name, ..self.info }),
    {
        let mut b = self;
        b.info.engine_name = engine_name.to_owned();
        b
    }

    /// Sets the encoded application version.
    pub fn set_app_version_raw(self, app_version: u32) -> (r: Self)
        ensures
            r.info == (InstanceInfo { app_version, ..self.info }),
    {
        let mut b = self;
        b.info.app_version = app_version;
        b
    }

    /// Sets the encoded API version that the instance must support.
    pub fn require_api_version_raw(self, required_api_version: u32) -> (r: Self)
        ensures
            r.info == (InstanceInfo { required_api_version, ..self.info }),
    {
        let mut b = self;
        b.info.required_api_version = required_api_version;
        b
    }

    /// Sets the encoded minimum version that the loader must report.
    pub fn set_minimum_instance_version_raw(self, minimum_instance_version: u32) -> (r: Self)
        ensures
            r.info == (InstanceInfo { minimum_instance_version, ..self.info }),
    {
        let mut b = self;
        b.info.minimum_instance_version = minimum_instance_version;
        b
    }

    /// Adds a layer to enable.
    pub fn enable_layer(self, layer_name: &str) -> (r: Self)
        ensures
            names(r.info.enabled_layers@) == names(self.info.enabled_layers@).push(layer_name@),
            r.info == (InstanceInfo { enabled_layers: r.info.enabled_layers, ..self.info }),
    {
        let mut b = self;
        push_name(&mut b.info.enabled_layers, layer_name);
        b
    }

    /// Adds an instance extension to enable.
    pub fn enable_extension(self, extension_name: &str) -> (r: Self)
        ensures
            names(r.info.enabled_extensions@) == names(self.info.enabled_extensions@).push(extension_name@),
            r.info == (InstanceInfo { enabled_extensions: r.info.enabled_extensions, ..self.info }),
    {
        let mut b = self;
        push_name(&mut b.info.enabled_extensions, extension_name);
        b
    }

    /// Sets whether the instance is created without windowing extensions.
    pub fn set_headless(self, headless: bool) -> (r: Self)
        ensures
            r.info == (InstanceInfo { headless_context: headless, ..self.info }),
    {
        let mut b = self;
        b.info.headless_context = headless;
        b
    }

    /// Sets whether the validation layer is always enabled.
    pub fn enable_validation_layers(self, require_validation: bool) -> (r: Self)
        ensures
            r.info == (InstanceInfo { enable_validation_layers: require_validation, ..self.info }),
    {
        let mut b = self;
        b.info.enable_validation_layers = require_validation;
        b
    }

    /// Sets whether the validation layer is enabled when the loader has it.
    pub fn request_validation_layers(self, enable_validation: bool) -> (r: Self)
        ensures
            r.info == (InstanceInfo { request_validation_layers: enable_validation, ..self.info }),
    {
        let mut b = self;
        b.info.request_validation_layers = enable_validation;
        b
    }

    /// Creates a debug messenger with the default callback.
    pub fn use_default_debug_messenger(self) -> (r: Self)
        ensures
            r.info == (InstanceInfo { use_debug_messenger: true, has_debug_callback: true, ..self.info }),
    {
        let mut b = self;
        b.info.use_debug_messenger = true;
        b.info.has_debug_callback = true;
        b
    }

    /// Records whether a debug callback is set.
    pub fn set_debug_callback(self, has_callback: bool) -> (r: Self)
        ensures
            r.info == (InstanceInfo { has_debug_callback: has_callback, ..self.info }),
    {
        let mut b = self;
        b.info.has_debug_callback = has_callback;
        b
    }

    /// Sets the message severities that the debug messenger reports.
    pub fn set_debug_messenger_severity(self, severity: u32) -> (r: Self)
        ensures
            r.info == (InstanceInfo { debug_message_severity: severity, ..self.info }),
    {
        let mut b = self;
        b.info.debug_message_severity = severity;
        b
    }

    /// Adds message severities that the debug messenger reports.
    pub fn add_debug_messenger_severity(self, severity: u32) -> (r: Self)
        ensures
            r.info == (InstanceInfo { debug_message_severity: self.info.debug_message_severity | severity, ..self.info }),
    {
        let mut b = self;
        b.info.debug_message_severity = b.info.debug_message_severity | severity;
        b
    }

    /// Sets the message types that the debug messenger reports.
    pub fn set_debug_messenger_type(self, message_type: u32) -> (r: Self)
        ensures
            r.info == (InstanceInfo { debug_message_type: message_type, ..self.info }),
    {
        let mut b = self;
        b.info.debug_message_type = message_type;
        b
    }

    /// Adds message types that the debug messenger reports.
    pub fn add_debug_messenger_type(self, message_type: u32) -> (r: Self)
        ensures
            r.info == (InstanceInfo { debug_message_type: self.info.debug_message_type | message_type, ..self.info }),
    {
        let mut b = self;
        b.info.debug_message_type = b.info.debug_message_type | message_type;
        b
    }

    /// Adds a validation check (`VkValidationCheckEXT`) to disable.
    pub fn add_validation_disable(self, check: i32) -> (r: Self)
        ensures
            r.info.disabled_validation_checks@ == self.info.disabled_validation_checks@.push(check),
            r.info == (InstanceInfo { disabled_validation_checks: r.info.disabled_validation_checks, ..self.info }),
    {
        let mut b = self;
        b.info.disabled_validation_checks.push(check);
        b
    }

    /// Adds a validation feature (`VkValidationFeatureEnableEXT`) to enable.
    pub fn add_validation_feature_enable(self, enable: i32) -> (r: Self)
        ensures
            r.info.enabled_validation_features@ == self.info.enabled_validation_features@.push(enable),
            r.info == (InstanceInfo { enabled_validation_features: r.info.enabled_validation_features, ..self.info }),
    {
        let mut b = self;
        b.info.enabled_validation_features.push(enable);
        b
    }

    /// Adds a validation feature (`VkValidationFeatureDisableEXT`) to disable.
    pub fn add_validation_feature_disable(self, disable: i32) -> (r: Self)
        ensures
            r.info.disabled_validation_features@ == self.info.disabled_validation_features@.push(disable),
            r.info == (InstanceInfo { disabled_validation_features: r.info.disabled_validation_features, ..self.info }),
    {
        let mut b = self;
        b.info.disabled_validation_features.push(disable);
        b
    }

    /// Sets the application version from its major, minor and patch numbers.
    pub fn set_app_version(self, major: u32, minor: u32, patch: u32) -> (r: Self)
        ensures
            r.info == (InstanceInfo {
                app_version: spec_make_api_version(0, major, minor, patch),
                ..self.info
            }),
    {
        self.set_app_version_raw(make_api_version(0, major, minor, patch))
    }

    /// Sets the API version that the instance must support from its major, minor and
    /// patch numbers.
    pub fn require_api_version(self, major: u32, minor: u32, patch: u32) -> (r: Self)
        ensures
            r.info == (InstanceInfo {
                required_api_version: spec_make_api_version(0, major, minor, patch),
                ..self.info
            }),
    {
        self.require_api_version_raw(make_api_version(0, major, minor, patch))
    }

    /// Sets the minimum version that the loader must report from its major, minor and
    /// patch numbers.
    pub fn set_minimum_instance_version(self, major: u32, minor: u32, patch: u32) -> (r: Self)
        ensures
            r.info == (InstanceInfo {
                minimum_instance_version: spec_make_api_version(0, major, minor, patch),
                ..self.info
            }),
    {
        self.set_minimum_instance_version_raw(make_api_version(0, major, minor, patch))
    }

    /// Adds instance extensions to enable, in order.
    pub fn enable_extensions(self, extension_names: &[&str]) -> (r: Self)
        ensures
            names(r.info.enabled_extensions@) == names(self.info.enabled_extensions@) + str_names(
                extension_names@,
            ),
            r.info == (InstanceInfo { enabled_extensions: r.info.enabled_extensions, ..self.info }),
    {
        let ghost start = self.info;
        let mut b = self;
        let mut i: usize = 0;
        while i < extension_names.len()
            invariant
                i <= extension_names@.len(),
                names(b.info.enabled_extensions@) == names(start.enabled_extensions@)
                    + str_names(extension_names@).take(i as int),
                b.info == (InstanceInfo { enabled_extensions: b.info.enabled_extensions, ..start }),
            decreases extension_names@.len() - i,
        {
            push_name(&mut b.info.enabled_extensions, extension_names[i]);
            assert(str_names(extension_names@).take(i + 1) =~= str_names(extension_names@).take(
                i as int,
            ).push(extension_names@[i as int]@));
            i = i + 1;
        }
        assert(str_names(extension_names@).take(extension_names@.len() as int) =~= str_names(
            extension_names@,
        ));
        b
    }

    /// Records one more layer setting, which makes creation enable the layer settings
    /// extension.
    pub fn add_layer_setting(self) -> (r: Self)
        requires
            self.info.layer_setting_count < usize::MAX,
        ensures
            r.info == (InstanceInfo {
                layer_setting_count: (self.info.layer_setting_count + 1) as usize,
                ..self.info
            }),
    {
        let mut b = self;
        b.info.layer_setting_count = b.info.layer_setting_count + 1;
        b
    }
}

impl Default for InstanceBuilder {
    fn default() -> (r: Self)
        ensures
            r.info.spec_default(),
    {
        Self::new()
    }
}

} // verus!

verus! {

/// What the rest of the bootstrap reads of a created instance.
#[derive(Clone, Copy, Debug, PartialEq, Eq, Structural)]
pub struct Instance {
    /// Raw handle of the debug messenger, when one was created.
    pub debug_messenger: Option<u64>,
    pub instance_version: u32,
    pub api_version: u32,
    pub headless: bool,
    pub properties2_ext_enabled: bool,
}

impl Instance {
    /// The instance that a creation plan describes once the driver created it, for the
    /// given builder and the debug messenger that was created (its raw handle; `None`
    /// when none was created); or the error when the plan asks for a debug messenger
    /// and none was created. The instance has a debug messenger exactly when the plan
    /// asks for one.
    pub fn from_plan(builder: &InstanceBuilder, plan: &InstancePlan, debug_messenger: Option<u64>) -> (r:
        Result<Self, InstanceError>)
        ensures
            r == (if plan.chain_debug_messenger && debug_messenger is None {
                Err::<Instance, InstanceError>(InstanceError::FailedToCreateDebugMessenger)
            } else {
                Ok::<Instance, InstanceError>(
                    Instance {
                        debug_messenger: if plan.chain_debug_messenger {
                            debug_messenger
                        } else {
                            None
                        },
                        instance_version: plan.instance_version,
                        api_version: plan.api_version,
                        headless: builder.info.headless_context,
                        properties2_ext_enabled: plan.properties2_ext_enabled,
                    },
                )
            }),
            r matches Ok(i) ==> (i.debug_messenger is Some <==> plan.chain_debug_messenger),
    {
        let messenger = if plan.chain_debug_messenger {
            match debug_messenger {
                Some(h) => Some(h),
                None => {
                    return Err(InstanceError::FailedToCreateDebugMessenger);
                },
            }
        } else {
            None
        };
        Ok(
            Instance {
                debug_messenger: messenger,
                instance_version: plan.instance_version,
                api_version: plan.api_version,
                headless: builder.info.headless_context,
                properties2_ext_enabled: plan.properties2_ext_enabled,
            },
        )
    }
}

} // verus!
