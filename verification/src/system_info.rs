//! What the Vulkan loader reports about the system: instance layers, instance
//! extensions and the instance API version.

use vstd::prelude::*;

use crate::utils::{contains_name, names};
use crate::vulkan::{make_api_version, spec_make_api_version};
use vstd::utf8::encode_utf8;

verus! {

/// Name of the Khronos validation layer.
pub const VALIDATION_LAYER_NAME: &'static str = "VK_LAYER_KHRONOS_validation";

/// Name of the debug utils instance extension.
pub const EXT_DEBUG_UTILS_NAME: &'static str = "VK_EXT_debug_utils";

/// The string holds no nul character, so that it can be handed to Vulkan as a C string.
pub open spec fn no_nul(s: Seq<char>) -> bool {
    !s.contains('\0')
}

/// `i` is the first position at which `bytes` holds a zero byte.
pub open spec fn is_first_zero(bytes: Seq<u8>, i: int) -> bool {
    &&& 0 <= i < bytes.len()
    &&& bytes[i] == 0
    &&& forall|j: int| 0 <= j < i ==> bytes[j] != 0
}

/// The position of the first nul byte in the UTF-8 encoding of a name, if it holds one:
/// where turning the name into a C string fails.
pub open spec fn nul_position(name: Seq<char>) -> Option<int> {
    if exists|i: int| is_first_zero(encode_utf8(name), i) {
        Some(choose|i: int| is_first_zero(encode_utf8(name), i))
    } else {
        None
    }
}

/// The nul position of the first name of the list that holds a nul byte, if any.
pub open spec fn first_nul_position(list: Seq<Seq<char>>) -> Option<int>
    decreases list.len(),
{
    if list.len() == 0 {
        None
    } else if nul_position(list[0]) is Some {
        nul_position(list[0])
    } else {
        first_nul_position(list.drop_first())
    }
}

/// The byte position of the first nul in the UTF-8 encoding of a name, if any.
pub fn find_nul(name: &str) -> (r: Option<usize>)
    ensures
        match r {
            Some(p) => nul_position(name@) == Some(p as int),
            None => nul_position(name@) is None,
        },
{
    let bytes = name.as_bytes();
    let ghost b = encode_utf8(name@);
    assert(bytes@ == b);
    let mut i: usize = 0;
    while i < bytes.len()
        invariant
            i <= bytes@.len(),
            bytes@ == b,
            b == encode_utf8(name@),
            forall|j: int| 0 <= j < i ==> b[j] != 0,
        decreases bytes@.len() - i,
    {
        if bytes[i] == 0 {
            proof {
                let e = encode_utf8(name@);
                assert(is_first_zero(e, i as int));
                let k = choose|k: int| is_first_zero(e, k);
                if k < i {
                    assert(e[k] != 0);
                } else if k > i {
                    assert(e[i as int] != 0);
                }
                assert(k == i);
            }
            return Some(i);
        }
        i = i + 1;
    }
    None
}

/// The nul position of the first name of the list that holds a nul byte, if any.
pub fn find_first_nul(list: &Vec<String>) -> (r: Option<usize>)
    ensures
        match r {
            Some(p) => first_nul_position(names(list@)) == Some(p as int),
            None => first_nul_position(names(list@)) is None,
        },
{
    let mut i: usize = 0;
    assert(names(list@).skip(0) =~= names(list@));
    while i < list.len()
        invariant
            i <= list@.len(),
            first_nul_position(names(list@)) == first_nul_position(names(list@).skip(i as int)),
        decreases list@.len() - i,
    {
        proof {
            let l = names(list@).skip(i as int);
            assert(l.drop_first() =~= names(list@).skip(i + 1));
            assert(l[0] == list@[i as int]@);
        }
        match find_nul(list[i].as_str()) {
            Some(p) => {
                return Some(p);
            },
            None => {},
        }
        i = i + 1;
    }
    assert(names(list@).skip(i as int) =~= Seq::<Seq<char>>::empty());
    None
}

/// A sequence that holds a zero byte has a first one.
proof fn lemma_first_zero_exists(b: Seq<u8>, k: int)
    requires
        0 <= k < b.len(),
        b[k] == 0,
    ensures
        exists|i: int| is_first_zero(b, i),
    decreases k,
{
    if b[0] == 0 {
        assert(is_first_zero(b, 0));
    } else {
        let t = b.drop_first();
        assert(t[k - 1] == 0);
        lemma_first_zero_exists(t, k - 1);
        let j = choose|j: int| is_first_zero(t, j);
        assert forall|m: int| 0 <= m < j + 1 implies b[m] != 0 by {
            if m > 0 {
                assert(b[m] == t[m - 1]);
            }
        }
        assert(is_first_zero(b, j + 1));
    }
}

/// The UTF-8 encoding of a name that holds a nul character holds a zero byte.
proof fn lemma_nul_char_encodes_zero(name: Seq<char>, k: int)
    requires
        0 <= k < name.len(),
        name[k] == '\0',
    ensures
        exists|m: int| 0 <= m < encode_utf8(name).len() && encode_utf8(name)[m] == 0,
    decreases k,
{
    let head = vstd::utf8::encode_scalar(name[0] as u32);
    let tail = encode_utf8(name.drop_first());
    assert(encode_utf8(name) == head + tail);
    if k == 0 {
        assert(name[0] as u32 == 0);
        assert(0u32 & 0x7Fu32 == 0u32) by (bit_vector);
        assert(head == seq![0u8]);
        assert(encode_utf8(name)[0] == 0);
    } else {
        assert(name.drop_first()[k - 1] == '\0');
        lemma_nul_char_encodes_zero(name.drop_first(), k - 1);
        let m = choose|m: int| 0 <= m < tail.len() && tail[m] == 0;
        assert(encode_utf8(name)[head.len() + m] == 0);
    }
}

/// A name whose encoding holds no nul byte holds no nul character.
pub proof fn lemma_no_nul_byte_no_nul_char(name: Seq<char>)
    requires
        nul_position(name) is None,
    ensures
        no_nul(name),
{
    if name.contains('\0') {
        let k = choose|k: int| 0 <= k < name.len() && name[k] == '\0';
        lemma_nul_char_encodes_zero(name, k);
        let m = choose|m: int| 0 <= m < encode_utf8(name).len() && encode_utf8(name)[m] == 0;
        lemma_first_zero_exists(encode_utf8(name), m);
    }
}

/// When no name of a list holds a nul byte, none holds a nul character.
pub proof fn lemma_list_without_nul(list: Seq<Seq<char>>)
    requires
        first_nul_position(list) is None,
    ensures
        forall|k: int| 0 <= k < list.len() ==> no_nul(#[trigger] list[k]),
    decreases list.len(),
{
    if list.len() > 0 {
        lemma_no_nul_byte_no_nul_char(list[0]);
        lemma_list_without_nul(list.drop_first());
        assert forall|k: int| 0 <= k < list.len() implies no_nul(#[trigger] list[k]) by {
            if k > 0 {
                assert(list[k] == list.drop_first()[k - 1]);
            }
        }
    }
}

/// The instance layers and extensions that the loader reports, and the instance version.
pub struct SystemInfo {
    pub available_layers: Vec<String>,
    pub available_extensions: Vec<String>,
    pub validation_layers_available: bool,
    pub debug_utils_available: bool,
    pub instance_api_version: u32,
}

impl SystemInfo {
    /// Names of the available instance layers.
    pub open spec fn layer_names(&self) -> Seq<Seq<char>> {
        names(self.available_layers@)
    }

    /// Names of the available instance extensions.
    pub open spec fn extension_names(&self) -> Seq<Seq<char>> {
        names(self.available_extensions@)
    }

    /// The system information from the layer and extension names that the loader
    /// reports and the instance version it reports (`None` when it reports none or the
    /// query fails, which stands for Vulkan 1.0).
    pub fn from_properties(
        available_layers: Vec<String>,
        available_extensions: Vec<String>,
        instance_version: Option<u32>,
    ) -> (r: Self)
        ensures
            r.layer_names() == names(available_layers@),
            r.extension_names() == names(available_extensions@),
            r.validation_layers_available == names(available_layers@).contains(
                VALIDATION_LAYER_NAME@,
            ),
            r.debug_utils_available == names(available_extensions@).contains(
                EXT_DEBUG_UTILS_NAME@,
            ),
            r.instance_api_version == match instance_version {
                Some(v) => v,
                None => spec_make_api_version(0, 1, 0, 0),
            },
    {
        let validation = VALIDATION_LAYER_NAME.to_owned();
        let debug_utils = EXT_DEBUG_UTILS_NAME.to_owned();
        let validation_layers_available = contains_name(available_layers.as_slice(), &validation);
        let debug_utils_available = contains_name(available_extensions.as_slice(), &debug_utils);
        let instance_api_version = match instance_version {
            Some(v) => v,
            None => make_api_version(0, 1, 0, 0),
        };
        SystemInfo {
            available_layers,
            available_extensions,
            validation_layers_available,
            debug_utils_available,
            instance_api_version,
        }
    }

    /// Whether the loader reports the layer.
    pub fn is_layer_available(&self, layer_name: &str) -> (r: bool)
        requires
            self.layer_names().len() > 0 ==> no_nul(layer_name@),
        ensures
            r == self.layer_names().contains(layer_name@),
    {
        let name = layer_name.to_owned();
        contains_name(self.available_layers.as_slice(), &name)
    }

    /// Whether the loader reports the extension.
    pub fn is_extension_available(&self, extension_name: &str) -> (r: bool)
        requires
            self.extension_names().len() > 0 ==> no_nul(extension_name@),
        ensures
            r == self.extension_names().contains(extension_name@),
    {
        let name = extension_name.to_owned();
        contains_name(self.available_extensions.as_slice(), &name)
    }

    /// Whether the loader reports every one of the extensions.
    pub fn extensions_supported(&self, extensions: &[String]) -> (r: bool)
        requires
            forall|i: int|
                0 <= i < extensions@.len() && self.extension_names().len() > 0 ==> no_nul(
                    #[trigger] extensions@[i]@,
                ),
        ensures
            r == forall|i: int|
                0 <= i < extensions@.len() ==> self.extension_names().contains(
                    #[trigger] extensions@[i]@,
                ),
    {
        let mut i: usize = 0;
        while i < extensions.len()
            invariant
                i <= extensions@.len(),
                forall|j: int|
                    0 <= j < extensions@.len() && self.extension_names().len() > 0 ==> no_nul(
                        #[trigger] extensions@[j]@,
                    ),
                forall|j: int|
                    0 <= j < i ==> self.extension_names().contains(#[trigger] extensions@[j]@),
            decreases extensions@.len() - i,
        {
            if !self.is_extension_available(extensions[i].as_str()) {
                return false;
            }
            i = i + 1;
        }
        true
    }

    /// Whether the loader reports every one of the layers.
    pub fn layers_supported(&self, layers: &[String]) -> (r: bool)
        requires
            forall|i: int|
                0 <= i < layers@.len() && self.layer_names().len() > 0 ==> no_nul(
                    #[trigger] layers@[i]@,
                ),
        ensures
            r == forall|i: int|
                0 <= i < layers@.len() ==> self.layer_names().contains(#[trigger] layers@[i]@),
    {
        let mut i: usize = 0;
        while i < layers.len()
            invariant
                i <= layers@.len(),
                forall|j: int|
                    0 <= j < layers@.len() && self.layer_names().len() > 0 ==> no_nul(
                        #[trigger] layers@[j]@,
                    ),
                forall|j: int| 0 <= j < i ==> self.layer_names().contains(#[trigger] layers@[j]@),
            decreases layers@.len() - i,
        {
            if !self.is_layer_available(layers[i].as_str()) {
                return false;
            }
            i = i + 1;
        }
        true
    }

    /// Whether the instance supports at least the given version.
    pub fn is_instance_version_available(&self, major: u32, minor: u32, patch: u32) -> (r: bool)
        ensures
            r == (self.instance_api_version >= spec_make_api_version(0, major, minor, patch)),
    {
        let required_version = make_api_version(0, major, minor, patch);
        self.is_instance_version_available_raw(required_version)
    }

    /// Whether the instance supports at least the given encoded version.
    pub fn is_instance_version_available_raw(&self, version: u32) -> (r: bool)
        ensures
            r == (self.instance_api_version >= version),
    {
        self.instance_api_version >= version
    }
}

} // verus!
