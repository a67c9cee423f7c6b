//! Writing the gathered registry out as Rust source: constants, types,
//! enums, flag sets, structs, the core commands and the table of extension
//! function pointers.

use vstd::prelude::*;
use crate::text::{append, decimal, push_char, push_decimal, push_signed_decimal, push_without_vk, remove_vk, signed_decimal, chars_of, same_text};
use crate::vk_registry::{
    command_lookup, commands_view, find_command, BitflagsDef, BitflagsDefView, BitflagsValueType, BitflagsValueTypeView,
    EnumDef, EnumDefView, Extension, ExtensionNewType, ExtensionNewTypeView, ExtensionView, FeatureBlock,
    FeatureBlockView, FeatureContent, FeatureContentView, GenError, Registry, RegistryView, bitflags_view,
    contents_view, enum_values_view, enums_view, ext_types_view, extensions_view, features_view, flag_values_view,
    pairs_view, structs_view, texts_view,
};
use crate::vkgen_translate::{
    c_wsi_types_to_cfg_var, c_wsi_types_to_rust_types, guess_type_from_name, screaming_snake_case,
    spec_c_wsi_types_to_cfg_var, spec_c_wsi_types_to_rust_types, spec_guess_type_from_name, spec_translate_define,
    spec_translate_values, to_screaming_snake_case, translate_define, translate_define_defined, translate_values,
};
use crate::text::trailing_digits;
use crate::xml_source::{events_read, read_failure, read_xml_events, SourceError, SourceFailure};
use vstd::string::StringSliceAdditionalSpecFns;

verus! {

/// The fixed text the output carries after the registry comment.
pub const FLUFF1: &'static str = "\n#![allow(non_snake_case)]\n#![feature(const_fn)]\n#![feature(untagged_unions)]\n\n#[macro_use]\nextern crate bitflags;\n\nuse std::mem;\nuse libc::{c_void};\n\npub const VK_VERSION_1_0: u32 = 1;\n\npub const fn VK_MAKE_VERSION(major: u32, minor: u32, patch: u32) -> u32 {\n\t((major) << 22) | ((minor) << 12) | (patch)\n}\n\npub const VK_API_VERSION_1_0: u32 = VK_MAKE_VERSION(1, 0, 0);\n\npub const fn VK_VERSION_MAJOR(version: u32) -> u32 {\n\tversion >> 22\n}\n\npub const fn VK_VERSION_MINOR(version: u32) -> u32 {\n\t(version >> 22) & 0x3ff\n}\n\npub const fn VK_VERSION_PATCH(version: u32) -> u32 {\n\tversion & 0x3ff\n}\n";

/// The fixed text the output carries after the defines.
pub const FLUFF2: &'static str = "\n\n#[allow(non_camel_case_types)]\npub type VkDeviceSize = u64;\n#[allow(non_camel_case_types)]\npub type VkSampleMask = u32;\n\n#[allow(non_camel_case_types)]\npub type PFN_vkAllocationFunction = *const c_void;\n#[allow(non_camel_case_types)]\npub type PFN_vkReallocationFunction = *const c_void;\n#[allow(non_camel_case_types)]\npub type PFN_vkFreeFunction = *const c_void;\n#[allow(non_camel_case_types)]\npub type PFN_vkInternalAllocationNotification = *const c_void;\n#[allow(non_camel_case_types)]\npub type PFN_vkInternalFreeNotification = *const c_void;\n#[allow(non_camel_case_types)]\npub type PFN_vkDebugReportCallbackEXT = *const c_void;\n#[allow(non_camel_case_types)]\npub type PFN_vkDebugUtilsMessengerCallbackEXT = *const c_void;\n#[allow(non_camel_case_types)]\npub type PFN_vkVoidFunction = *const c_void;\n\n// Rust assumes bool is u8, vulkan assumes it is u32\npub type VkBool32 = u32;\n\n// TODO: how to do unions in rust?\n#[derive(Copy, Clone)]\n#[repr(C)]\npub union VkClearColorValue {\n\tpub float32: [f32; 4],\n\tpub int32: [i32; 4],\n\tpub uint32: [u32; 4]\n}\n\n#[derive(Copy, Clone)]\n#[repr(C)]\npub union VkClearValue {\n\tpub colour: VkClearColorValue,\n\tpub depthStencil: VkClearDepthStencilValue\n}\n\nimpl std::fmt::Debug for VkClearColorValue {\n\tfn fmt(&self, f: &mut std::fmt::Formatter) -> std::fmt::Result {\n\t\tunsafe { write!(f, \"VkClearColorValue {{float32: {:?}; or int32: {:?}; or uint32: {:?}}}\", self.float32, self.int32, self.uint32) }\n\t}\n}\n\nimpl std::fmt::Debug for VkClearValue {\n\tfn fmt(&self, f: &mut std::fmt::Formatter) -> std::fmt::Result {\n\t\tunsafe { write!(f, \"VkClearValue {{colour: {:?}; or depthStencil: {:?}}}\", self.colour, self.depthStencil) }\n\t}\n}\n\n// TODO\n// Cannot implement Debug for [u8; x > 32]\nimpl std::fmt::Debug for VkPhysicalDeviceProperties {\n\tfn fmt(&self, f: &mut std::fmt::Formatter) -> std::fmt::Result {\n\t\twrite!(f, \"not implemented\")\n\t}\n}\n\nimpl std::fmt::Debug for VkLayerProperties {\n\tfn fmt(&self, f: &mut std::fmt::Formatter) -> std::fmt::Result {\n\t\twrite!(f, \"not implemented\")\n\t}\n}\n\nimpl std::fmt::Debug for VkExtensionProperties {\n\tfn fmt(&self, f: &mut std::fmt::Formatter) -> std::fmt::Result {\n\t\twrite!(f, \"not implemented\")\n\t}\n}\n\nimpl std::fmt::Debug for VkPhysicalDeviceMemoryProperties {\n\tfn fmt(&self, f: &mut std::fmt::Formatter) -> std::fmt::Result {\n\t\twrite!(f, \"not implemented\")\n\t}\n}";


/// The text of each item, one after the other.
pub open spec fn concat_map<T>(s: Seq<T>, f: spec_fn(T) -> Seq<char>) -> Seq<char>
    decreases s.len(),
{
    if s.len() == 0 {
        Seq::empty()
    } else {
        concat_map(s.drop_last(), f) + f(s.last())
    }
}

/// Whether some item has the property.
pub open spec fn any_of<T>(s: Seq<T>, p: spec_fn(T) -> bool) -> bool
    decreases s.len(),
{
    if s.len() == 0 {
        false
    } else {
        any_of(s.drop_last(), p) || p(s.last())
    }
}

/// One more item of a prefix adds its text.
pub proof fn lemma_concat_map_take<T>(s: Seq<T>, f: spec_fn(T) -> Seq<char>, i: int)
    requires
        0 <= i < s.len(),
    ensures
        concat_map(s.take(i + 1), f) == concat_map(s.take(i), f) + f(s[i]),
        concat_map(s.take(0), f) == Seq::<char>::empty(),
{
    assert(s.take(i + 1).drop_last() =~= s.take(i));
    assert(s.take(i + 1).last() == s[i]);
}

/// One more item of a prefix may add the property.
pub proof fn lemma_any_of_take<T>(s: Seq<T>, p: spec_fn(T) -> bool, i: int)
    requires
        0 <= i < s.len(),
    ensures
        any_of(s.take(i + 1), p) == (any_of(s.take(i), p) || p(s[i])),
        !any_of(s.take(0), p),
{
    assert(s.take(i + 1).drop_last() =~= s.take(i));
    assert(s.take(i + 1).last() == s[i]);
}

/// A whole prefix is the sequence.
pub proof fn lemma_take_all<T>(s: Seq<T>)
    ensures
        s.take(s.len() as int) == s,
{
    assert(s.take(s.len() as int) =~= s);
}

/// Text blocks that are headed once, before their first line.
pub open spec fn headed(any: bool, header: Seq<char>, lines: Seq<char>) -> Seq<char> {
    if any {
        header + lines
    } else {
        Seq::empty()
    }
}

// ---- defines, constants and types -----------------------------------------

pub open spec fn defines_text(ds: Seq<(Seq<char>, Seq<char>)>) -> Seq<char> {
    concat_map(ds, define_f())
}

pub open spec fn define_f() -> spec_fn((Seq<char>, Seq<char>)) -> Seq<char> {
    |d: (Seq<char>, Seq<char>)| spec_translate_define(d.0, d.1)
}

pub open spec fn constant_line(c: (Seq<char>, Seq<char>)) -> Seq<char> {
    "pub const "@ + c.0 + ": "@ + spec_guess_type_from_name(c.0) + " = "@ + spec_translate_values(c.1) + ";\n"@
}

pub open spec fn constants_text(cs: Seq<(Seq<char>, Seq<char>)>) -> Seq<char> {
    concat_map(cs, constant_f())
}

pub open spec fn constant_f() -> spec_fn((Seq<char>, Seq<char>)) -> Seq<char> {
    |c: (Seq<char>, Seq<char>)| constant_line(c)
}

pub open spec fn type_line(t: Seq<char>) -> Seq<char> {
    let cfg = spec_c_wsi_types_to_cfg_var(t);
    if cfg.len() == 0 {
        "#[allow(non_camel_case_types)]\n"@ + spec_c_wsi_types_to_rust_types(t) + "\n"@
    } else {
        "#[allow(non_camel_case_types)]\n#[cfg(feature=\""@ + cfg + "\")]\n"@ + spec_c_wsi_types_to_rust_types(t) + "\n"@
    }
}

pub open spec fn types_text(ts: Seq<Seq<char>>) -> Seq<char> {
    concat_map(ts, type_f())
}

pub open spec fn type_f() -> spec_fn(Seq<char>) -> Seq<char> {
    |t: Seq<char>| type_line(t)
}

pub open spec fn bitmask_type_line(t: (Seq<char>, Seq<char>)) -> Seq<char> {
    if t.1.len() == 0 {
        "#[allow(non_camel_case_types)]\npub type "@ + t.0 + " = u32;\n"@
    } else {
        "#[allow(non_camel_case_types)]\npub type "@ + t.0 + " = "@ + t.1 + ";\n"@
    }
}

pub open spec fn bitmask_types_text(ts: Seq<(Seq<char>, Seq<char>)>) -> Seq<char> {
    concat_map(ts, bitmask_type_f())
}

pub open spec fn bitmask_type_f() -> spec_fn((Seq<char>, Seq<char>)) -> Seq<char> {
    |t: (Seq<char>, Seq<char>)| bitmask_type_line(t)
}

pub open spec fn handle_type_line(t: Seq<char>) -> Seq<char> {
    "#[allow(non_camel_case_types)]\npub type "@ + t + " = u64;\n"@
}

pub open spec fn handle_types_text(ts: Seq<Seq<char>>) -> Seq<char> {
    concat_map(ts, handle_type_f())
}

pub open spec fn handle_type_f() -> spec_fn(Seq<char>) -> Seq<char> {
    |t: Seq<char>| handle_type_line(t)
}

// ---- enums ------------------------------------------------------------------

pub open spec fn enum_value_line(v: (Seq<char>, i32)) -> Seq<char> {
    "\t"@ + v.0 + " = "@ + signed_decimal(v.1 as int) + ",\n"@
}

/// Whether an extension item adds a value to the enum `name`.
pub open spec fn extends_enum(name: Seq<char>, t: ExtensionNewTypeView) -> bool {
    match t {
        ExtensionNewTypeView::EnumExtension { extends, .. } => extends == name,
        _ => false,
    }
}

/// The value of an enum value that an extension adds: the extension's block
/// (from one thousand million on, a thousand values per extension number)
/// plus the offset.
pub open spec fn extension_enum_value(number: u32, t: ExtensionNewTypeView) -> int {
    match t {
        ExtensionNewTypeView::EnumExtension { offset, .. } => 1000000000 + (number - 1) * 1000 + offset,
        _ => 0,
    }
}

pub open spec fn extension_enum_line(number: u32, t: ExtensionNewTypeView) -> Seq<char> {
    match t {
        ExtensionNewTypeView::EnumExtension { name, dir, .. } => "\t"@ + name + " = "@ + dir + decimal(
            extension_enum_value(number, t) as nat,
        ) + ",\n"@,
        _ => Seq::empty(),
    }
}

/// The lines that an extension adds to the enum `name`, under a comment and a
/// feature gate, when it adds any and is not disabled.
pub open spec fn enum_extension_block(name: Seq<char>, x: ExtensionView) -> Seq<char> {
    if x.supported == "disabled"@ {
        Seq::empty()
    } else {
        headed(
            any_of(x.types, extends_enum_p(name)),
            "\n\t// "@ + x.name + "\n"@ + "\n#[cfg(feature = \""@ + x.name + "\")]\n"@,
            concat_map(x.types, extension_enum_f(name, x.number)),
        )
    }
}

pub open spec fn extends_enum_p(name: Seq<char>) -> spec_fn(ExtensionNewTypeView) -> bool {
    |t: ExtensionNewTypeView| extends_enum(name, t)
}

pub open spec fn extension_enum_f(name: Seq<char>, number: u32) -> spec_fn(ExtensionNewTypeView) -> Seq<char> {
    |t: ExtensionNewTypeView|
        if extends_enum(name, t) {
            extension_enum_line(number, t)
        } else {
            Seq::empty()
        }
}

/// The declaration of an enum whose closing `_MAX_ENUM` value is named after
/// `upper`.
pub open spec fn enum_text_named(e: EnumDefView, xs: Seq<ExtensionView>, upper: Seq<char>) -> Seq<char> {
    "#[allow(non_camel_case_types)]\n#[derive(Copy, Clone, PartialEq, Debug)]\n#[repr(C)]\npub enum "@ + e.name + " {\n"@
        + concat_map(e.values, enum_value_f()) + concat_map(xs, enum_extension_f(e.name)) + "\t"@ + upper + "_MAX_ENUM = 0x7FFFFFFF\n}\n\n"@
}

/// The declaration of an enum, its `_MAX_ENUM` value named after the enum in
/// screaming snake case.
pub open spec fn enum_text(e: EnumDefView, xs: Seq<ExtensionView>) -> Seq<char> {
    enum_text_named(e, xs, screaming_snake_case(e.name))
}

pub open spec fn enums_text(es: Seq<EnumDefView>, xs: Seq<ExtensionView>) -> Seq<char> {
    concat_map(es, enum_f(xs))
}

pub open spec fn enum_value_f() -> spec_fn((Seq<char>, i32)) -> Seq<char> {
    |v: (Seq<char>, i32)| enum_value_line(v)
}

pub open spec fn enum_extension_f(name: Seq<char>) -> spec_fn(ExtensionView) -> Seq<char> {
    |x: ExtensionView| enum_extension_block(name, x)
}

pub open spec fn enum_f(xs: Seq<ExtensionView>) -> spec_fn(EnumDefView) -> Seq<char> {
    |e: EnumDefView| enum_text(e, xs)
}

/// Whether the values that enabled extensions add to the enum `name` are
/// computed without leaving 32 bits.
pub open spec fn extension_values_fit(name: Seq<char>, xs: Seq<ExtensionView>) -> bool {
    forall|i: int, j: int|
        0 <= i < xs.len() && 0 <= j < xs[i].types.len() && xs[i].supported != "disabled"@ && extends_enum(
            name,
            xs[i].types[j],
        ) ==> xs[i].number >= 1 && extension_enum_value(xs[i].number, #[trigger] xs[i].types[j]) <= u32::MAX
}

// ---- flag sets --------------------------------------------------------------

/// Thirty-two binary digits with a one at bit `bitpos`, most significant first.
pub open spec fn bit_digits(bitpos: u32) -> Seq<char> {
    Seq::new(32, |i: int| if 31 - i == bitpos { '1' } else { '0' })
}

pub open spec fn flag_line(v: (Seq<char>, BitflagsValueTypeView)) -> Seq<char> {
    match v.1 {
        BitflagsValueTypeView::Bitpos(b) => "\t\tconst "@ + v.0 + " = 0b"@ + bit_digits(b) + ";\n"@,
        BitflagsValueTypeView::Value(val) => "\t\tconst "@ + v.0 + " = "@ + val + ";\n"@,
    }
}

pub open spec fn bitflags_block(b: BitflagsDefView) -> Seq<char> {
    if b.values.len() > 0 {
        "bitflags! {\n#[repr(C)]\n\tpub struct "@ + b.name + ": u32 {\n"@ + "\t\tconst _EMPTY = 0;\n"@ + concat_map(b.values, flag_f()) + "\t}\n}\n\n"@
    } else {
        "bitflags! {\n#[repr(C)]\n\tpub struct "@ + b.name + ": u32 {\n\t\tconst _EMPTY = 0;\n\t}\n}\n\n"@
    }
}

pub open spec fn bitflags_text(bs: Seq<BitflagsDefView>) -> Seq<char> {
    concat_map(bs, bitflags_f())
}

pub open spec fn flag_f() -> spec_fn((Seq<char>, BitflagsValueTypeView)) -> Seq<char> {
    |v: (Seq<char>, BitflagsValueTypeView)| flag_line(v)
}

pub open spec fn bitflags_f() -> spec_fn(BitflagsDefView) -> Seq<char> {
    |b: BitflagsDefView| bitflags_block(b)
}

// ---- structs ----------------------------------------------------------------

pub open spec fn struct_decl(s: (Seq<char>, Seq<char>, bool)) -> Seq<char> {
    if s.2 {
        "#[derive(Copy, Clone)]\n#[repr(C)]\npub struct "@ + s.0 + " {\n"@ + s.1 + "\n}\n"@
    } else {
        "#[derive(Debug, Copy, Clone)]\n#[repr(C)]\npub struct "@ + s.0 + " {\n"@ + s.1 + "\n}\n"@
    }
}

/// Whether an extension item names the type `name`.
pub open spec fn names_type(name: Seq<char>, t: ExtensionNewTypeView) -> bool {
    match t {
        ExtensionNewTypeView::Type(n) => n == name,
        _ => false,
    }
}

/// Whether an enabled extension names the type `name`.
pub open spec fn named_by_extension(name: Seq<char>, x: ExtensionView) -> bool {
    x.supported != "disabled"@ && any_of(x.types, names_type_p(name))
}

pub open spec fn names_type_p(name: Seq<char>) -> spec_fn(ExtensionNewTypeView) -> bool {
    |t: ExtensionNewTypeView| names_type(name, t)
}

pub open spec fn struct_decl_f(s: (Seq<char>, Seq<char>, bool)) -> spec_fn(ExtensionNewTypeView) -> Seq<char> {
    |t: ExtensionNewTypeView|
        if names_type(s.0, t) {
            struct_decl(s)
        } else {
            Seq::empty()
        }
}

/// The declarations of a struct under an extension, once per time it names
/// the struct.
pub open spec fn struct_extension_block(s: (Seq<char>, Seq<char>, bool), x: ExtensionView) -> Seq<char> {
    if x.supported == "disabled"@ {
        Seq::empty()
    } else {
        headed(
            any_of(x.types, names_type_p(s.0)),
            "\n// "@ + x.name + "\n"@ + "#[cfg(feature = \""@ + x.name + "\")]\n"@,
            concat_map(x.types, struct_decl_f(s)),
        )
    }
}

pub open spec fn struct_text(s: (Seq<char>, Seq<char>, bool), xs: Seq<ExtensionView>) -> Seq<char> {
    concat_map(xs, struct_extension_f(s)) + if any_of(xs, named_by_extension_p(s.0)) {
        Seq::empty()
    } else {
        struct_decl(s)
    }
}

pub open spec fn structs_text(ss: Seq<(Seq<char>, Seq<char>, bool)>, xs: Seq<ExtensionView>) -> Seq<char> {
    concat_map(ss, struct_f(xs))
}

pub open spec fn struct_extension_f(s: (Seq<char>, Seq<char>, bool)) -> spec_fn(ExtensionView) -> Seq<char> {
    |x: ExtensionView| struct_extension_block(s, x)
}

pub open spec fn named_by_extension_p(name: Seq<char>) -> spec_fn(ExtensionView) -> bool {
    |x: ExtensionView| named_by_extension(name, x)
}

pub open spec fn struct_f(xs: Seq<ExtensionView>) -> spec_fn((Seq<char>, Seq<char>, bool)) -> Seq<char> {
    |s: (Seq<char>, Seq<char>, bool)| struct_text(s, xs)
}

// ---- commands ---------------------------------------------------------------

/// Whether a feature item is a command that the registry defines.
pub open spec fn is_known_command(cmds: Seq<(Seq<char>, (Seq<char>, Seq<char>))>, c: FeatureContentView) -> bool {
    match c {
        FeatureContentView::Command(n) => command_lookup(cmds, n) is Some,
        _ => false,
    }
}

pub open spec fn command_decl(cmds: Seq<(Seq<char>, (Seq<char>, Seq<char>))>, c: FeatureContentView) -> Seq<char> {
    match c {
        FeatureContentView::Command(n) => match command_lookup(cmds, n) {
            Some(cmd) => "\tpub fn "@ + n + "("@ + cmd.0 + ") -> "@ + cmd.1 + ";\n"@,
            None => Seq::empty(),
        },
        _ => Seq::empty(),
    }
}

pub open spec fn feature_block_text(cmds: Seq<(Seq<char>, (Seq<char>, Seq<char>))>, f: FeatureBlockView) -> Seq<char> {
    headed(
        any_of(f.contents, known_command_p(cmds)),
        "\n\t// "@ + f.comment + "\n"@,
        concat_map(f.contents, command_decl_f(cmds)),
    )
}

pub open spec fn features_text(fs: Seq<FeatureBlockView>, cmds: Seq<(Seq<char>, (Seq<char>, Seq<char>))>) -> Seq<char> {
    concat_map(fs, feature_block_f(cmds))
}

pub open spec fn known_command_p(cmds: Seq<(Seq<char>, (Seq<char>, Seq<char>))>) -> spec_fn(FeatureContentView) -> bool {
    |c: FeatureContentView| is_known_command(cmds, c)
}

pub open spec fn command_decl_f(cmds: Seq<(Seq<char>, (Seq<char>, Seq<char>))>) -> spec_fn(FeatureContentView) -> Seq<char> {
    |c: FeatureContentView| command_decl(cmds, c)
}

pub open spec fn feature_block_f(cmds: Seq<(Seq<char>, (Seq<char>, Seq<char>))>) -> spec_fn(FeatureBlockView) -> Seq<char> {
    |f: FeatureBlockView| feature_block_text(cmds, f)
}

/// Whether an extension item is a command that the registry defines.
pub open spec fn is_known_ext_command(cmds: Seq<(Seq<char>, (Seq<char>, Seq<char>))>, t: ExtensionNewTypeView) -> bool {
    match t {
        ExtensionNewTypeView::Command(n) => command_lookup(cmds, n) is Some,
        _ => false,
    }
}

pub open spec fn ext_field_line(
    cmds: Seq<(Seq<char>, (Seq<char>, Seq<char>))>,
    x: ExtensionView,
    t: ExtensionNewTypeView,
) -> Seq<char> {
    match t {
        ExtensionNewTypeView::Command(n) => match command_lookup(cmds, n) {
            Some(cmd) => "\n#[cfg(feature = \""@ + x.name + "\")]\n"@ + "\t\tpub "@ + remove_vk(n)
                + ": Option<extern \"C\" fn("@ + cmd.0 + ") -> "@ + cmd.1 + ">,\n"@,
            None => Seq::empty(),
        },
        _ => Seq::empty(),
    }
}

pub open spec fn ext_init_line(
    cmds: Seq<(Seq<char>, (Seq<char>, Seq<char>))>,
    x: ExtensionView,
    t: ExtensionNewTypeView,
) -> Seq<char> {
    match t {
        ExtensionNewTypeView::Command(n) => match command_lookup(cmds, n) {
            Some(cmd) => "\n#[cfg(feature = \""@ + x.name + "\")]\n"@ + "\t\t\t"@ + remove_vk(n)
                + ": unsafe { mem::transmute::<*const c_void,Option<extern \"C\" fn("@ + cmd.0 + ") -> "@ + cmd.1
                + ">>(vkGetInstanceProcAddr(instance, \""@ + n + "\\0\".as_ptr())) },\n"@,
            None => Seq::empty(),
        },
        _ => Seq::empty(),
    }
}

pub open spec fn ext_fields_block(cmds: Seq<(Seq<char>, (Seq<char>, Seq<char>))>, x: ExtensionView) -> Seq<char> {
    if x.supported == "disabled"@ {
        Seq::empty()
    } else {
        headed(
            any_of(x.types, known_ext_command_p(cmds)),
            "\n\t\t// "@ + x.name + "\n"@,
            concat_map(x.types, ext_field_f(cmds, x)),
        )
    }
}

pub open spec fn ext_inits_block(cmds: Seq<(Seq<char>, (Seq<char>, Seq<char>))>, x: ExtensionView) -> Seq<char> {
    if x.supported == "disabled"@ {
        Seq::empty()
    } else {
        headed(
            any_of(x.types, known_ext_command_p(cmds)),
            "\n\t\t\t// "@ + x.name + "\n"@,
            concat_map(x.types, ext_init_f(cmds, x)),
        )
    }
}

pub open spec fn ext_fields_text(xs: Seq<ExtensionView>, cmds: Seq<(Seq<char>, (Seq<char>, Seq<char>))>) -> Seq<char> {
    concat_map(xs, ext_fields_f(cmds))
}

pub open spec fn known_ext_command_p(cmds: Seq<(Seq<char>, (Seq<char>, Seq<char>))>) -> spec_fn(ExtensionNewTypeView) -> bool {
    |t: ExtensionNewTypeView| is_known_ext_command(cmds, t)
}

pub open spec fn ext_field_f(cmds: Seq<(Seq<char>, (Seq<char>, Seq<char>))>, x: ExtensionView) -> spec_fn(ExtensionNewTypeView) -> Seq<char> {
    |t: ExtensionNewTypeView| ext_field_line(cmds, x, t)
}

pub open spec fn ext_init_f(cmds: Seq<(Seq<char>, (Seq<char>, Seq<char>))>, x: ExtensionView) -> spec_fn(ExtensionNewTypeView) -> Seq<char> {
    |t: ExtensionNewTypeView| ext_init_line(cmds, x, t)
}

pub open spec fn ext_fields_f(cmds: Seq<(Seq<char>, (Seq<char>, Seq<char>))>) -> spec_fn(ExtensionView) -> Seq<char> {
    |x: ExtensionView| ext_fields_block(cmds, x)
}

pub open spec fn ext_inits_f(cmds: Seq<(Seq<char>, (Seq<char>, Seq<char>))>) -> spec_fn(ExtensionView) -> Seq<char> {
    |x: ExtensionView| ext_inits_block(cmds, x)
}

pub open spec fn ext_inits_text(xs: Seq<ExtensionView>, cmds: Seq<(Seq<char>, (Seq<char>, Seq<char>))>) -> Seq<char> {
    concat_map(xs, ext_inits_f(cmds))
}

// ---- the whole output -------------------------------------------------------

/// Whether the registry can be written out: it has a comment, the header
/// version define ends with digits, and the extension enum values fit.
pub open spec fn render_defined(r: RegistryView) -> bool {
    &&& r.comments.len() > 0
    &&& forall|i: int| 0 <= i < r.define_types.len() ==> translate_define_defined(
        #[trigger] r.define_types[i].0,
        r.define_types[i].1,
    )
    &&& forall|i: int| 0 <= i < r.enums.len() ==> extension_values_fit(#[trigger] r.enums[i].name, r.extensions)
}

/// The Rust source that the generator writes for a registry.
pub open spec fn render(r: RegistryView) -> Seq<char> {
    "/*\n"@ + r.comments[0] + "\n*/\n"@ + FLUFF1@ + "\n"@ + defines_text(r.define_types) + FLUFF2@ + "\n"@
        + constants_text(r.api_constants) + types_text(r.types) + bitmask_types_text(r.bitmask_types)
        + handle_types_text(r.handle_types) + enums_text(r.enums, r.extensions) + bitflags_text(r.bitflags)
        + structs_text(r.structs, r.extensions) + "#[link(name = \"vulkan\")]\n"@ + "extern {\n"@ + features_text(
        r.features,
        r.commands,
    ) + "}\n"@ + "\n\t// Extensions\n"@ + "\tpub struct VulkanFunctionPointers {\n"@ + ext_fields_text(
        r.extensions,
        r.commands,
    ) + INIT_HEAD@ + ext_inits_text(r.extensions, r.commands) + "}\n\t\t}\n\t}\n"@
}

/// The text between the function-pointer fields and their initialisers.
pub const INIT_HEAD: &'static str = "\t}\n\n\timpl VulkanFunctionPointers {\n\t\tpub fn new(instance: VkInstance) -> VulkanFunctionPointers {\n\t\t\tassert!(instance != VK_NULL_HANDLE);\n\t\t\tVulkanFunctionPointers {\n";

/// Appends the defines' declarations.
fn push_defines(out: &mut String, ds: &Vec<(String, String)>)
    requires
        forall|i: int| 0 <= i < ds@.len() ==> translate_define_defined(#[trigger] ds@[i].0@, ds@[i].1@),
    ensures
        final(out)@ == old(out)@ + defines_text(pairs_view(ds@)),
{
    let ghost v = pairs_view(ds@);
    let ghost before = out@;
    let mut i: usize = 0;
    proof {
        lemma_take_all(v);
        assert(v.take(0) =~= Seq::<(Seq<char>, Seq<char>)>::empty());
    }
    while i < ds.len()
        invariant
            i <= ds@.len(),
            v == pairs_view(ds@),
            forall|k: int| 0 <= k < ds@.len() ==> translate_define_defined(#[trigger] ds@[k].0@, ds@[k].1@),
            out@ == before + concat_map(v.take(i as int), define_f()),
        decreases ds@.len() - i,
    {
        proof {
            lemma_concat_map_take(v, define_f(), i as int);
        }
        let line = translate_define((ds[i].0.clone(), ds[i].1.clone()));
        append(out, line.as_str());
        i = i + 1;
        assert(out@ =~= before + concat_map(v.take(i as int), define_f()));
    }
    proof {
        lemma_take_all(v);
    }
}

/// Appends the API constants.
fn push_constants(out: &mut String, cs: &Vec<(String, String)>)
    ensures
        final(out)@ == old(out)@ + constants_text(pairs_view(cs@)),
{
    let ghost v = pairs_view(cs@);
    let ghost before = out@;
    let mut i: usize = 0;
    assert(v.take(0) =~= Seq::<(Seq<char>, Seq<char>)>::empty());
    while i < cs.len()
        invariant
            i <= cs@.len(),
            v == pairs_view(cs@),
            out@ == before + concat_map(v.take(i as int), constant_f()),
        decreases cs@.len() - i,
    {
        proof {
            lemma_concat_map_take(v, constant_f(), i as int);
        }
        let ghost b2 = out@;
        append(out, "pub const ");
        append(out, cs[i].0.as_str());
        append(out, ": ");
        let ty = guess_type_from_name(&cs[i].0);
        append(out, ty.as_str());
        append(out, " = ");
        let val = translate_values(cs[i].1.clone());
        append(out, val.as_str());
        append(out, ";\n");
        assert(out@ =~= b2 + constant_line(v[i as int]));
        i = i + 1;
    }
    proof {
        lemma_take_all(v);
    }
}

/// Appends the window-system types.
fn push_types(out: &mut String, ts: &Vec<String>)
    ensures
        final(out)@ == old(out)@ + types_text(texts_view(ts@)),
{
    let ghost v = texts_view(ts@);
    let ghost before = out@;
    let mut i: usize = 0;
    assert(v.take(0) =~= Seq::<Seq<char>>::empty());
    while i < ts.len()
        invariant
            i <= ts@.len(),
            v == texts_view(ts@),
            out@ == before + concat_map(v.take(i as int), type_f()),
        decreases ts@.len() - i,
    {
        proof {
            lemma_concat_map_take(v, type_f(), i as int);
        }
        let ghost b2 = out@;
        let cfg = c_wsi_types_to_cfg_var(&ts[i]);
        let rust = c_wsi_types_to_rust_types(&ts[i]);
        if cfg.as_str().is_empty() {
            append(out, "#[allow(non_camel_case_types)]\n");
        } else {
            append(out, "#[allow(non_camel_case_types)]\n#[cfg(feature=\"");
            append(out, cfg.as_str());
            append(out, "\")]\n");
        }
        append(out, rust.as_str());
        append(out, "\n");
        assert(out@ =~= b2 + type_line(v[i as int]));
        i = i + 1;
    }
    proof {
        lemma_take_all(v);
    }
}

/// Appends the bitmask types.
fn push_bitmask_types(out: &mut String, ts: &Vec<(String, String)>)
    ensures
        final(out)@ == old(out)@ + bitmask_types_text(pairs_view(ts@)),
{
    let ghost v = pairs_view(ts@);
    let ghost before = out@;
    let mut i: usize = 0;
    assert(v.take(0) =~= Seq::<(Seq<char>, Seq<char>)>::empty());
    while i < ts.len()
        invariant
            i <= ts@.len(),
            v == pairs_view(ts@),
            out@ == before + concat_map(v.take(i as int), bitmask_type_f()),
        decreases ts@.len() - i,
    {
        proof {
            lemma_concat_map_take(v, bitmask_type_f(), i as int);
        }
        let ghost b2 = out@;
        append(out, "#[allow(non_camel_case_types)]\npub type ");
        append(out, ts[i].0.as_str());
        if ts[i].1.as_str().is_empty() {
            append(out, " = u32;\n");
        } else {
            append(out, " = ");
            append(out, ts[i].1.as_str());
            append(out, ";\n");
        }
        assert(out@ =~= b2 + bitmask_type_line(v[i as int]));
        i = i + 1;
    }
    proof {
        lemma_take_all(v);
    }
}

/// Appends the handle types.
fn push_handle_types(out: &mut String, ts: &Vec<String>)
    ensures
        final(out)@ == old(out)@ + handle_types_text(texts_view(ts@)),
{
    let ghost v = texts_view(ts@);
    let ghost before = out@;
    let mut i: usize = 0;
    assert(v.take(0) =~= Seq::<Seq<char>>::empty());
    while i < ts.len()
        invariant
            i <= ts@.len(),
            v == texts_view(ts@),
            out@ == before + concat_map(v.take(i as int), handle_type_f()),
        decreases ts@.len() - i,
    {
        proof {
            lemma_concat_map_take(v, handle_type_f(), i as int);
        }
        let ghost b2 = out@;
        append(out, "#[allow(non_camel_case_types)]\npub type ");
        append(out, ts[i].as_str());
        append(out, " = u64;\n");
        assert(out@ =~= b2 + handle_type_line(v[i as int]));
        i = i + 1;
    }
    proof {
        lemma_take_all(v);
    }
}

/// Items without the property add no text, so a list without such items adds none.
pub proof fn lemma_concat_none<T>(s: Seq<T>, p: spec_fn(T) -> bool, f: spec_fn(T) -> Seq<char>)
    requires
        forall|x: T| !#[trigger] p(x) ==> f(x) == Seq::<char>::empty(),
    ensures
        !any_of(s, p) ==> concat_map(s, f) == Seq::<char>::empty(),
    decreases s.len(),
{
    if s.len() > 0 {
        lemma_concat_none(s.drop_last(), p, f);
        if !any_of(s, p) {
            assert(!p(s.last()));
            assert(concat_map(s, f) =~= concat_map(s.drop_last(), f) + f(s.last()));
        }
    }
}

/// One more item of a headed block: the header comes before the first line.
pub proof fn lemma_headed_step<T>(
    s: Seq<T>,
    p: spec_fn(T) -> bool,
    f: spec_fn(T) -> Seq<char>,
    header: Seq<char>,
    i: int,
)
    requires
        0 <= i < s.len(),
        forall|x: T| !#[trigger] p(x) ==> f(x) == Seq::<char>::empty(),
    ensures
        headed(any_of(s.take(i + 1), p), header, concat_map(s.take(i + 1), f)) == headed(
            any_of(s.take(i), p),
            header,
            concat_map(s.take(i), f),
        ) + (if p(s[i]) && !any_of(s.take(i), p) {
            header
        } else {
            Seq::<char>::empty()
        }) + f(s[i]),
{
    lemma_concat_map_take(s, f, i);
    lemma_any_of_take(s, p, i);
    lemma_concat_none(s.take(i), p, f);
    if any_of(s.take(i), p) {
        assert(header + concat_map(s.take(i + 1), f) =~= header + concat_map(s.take(i), f) + f(s[i]));
    } else if p(s[i]) {
        assert(header + concat_map(s.take(i + 1), f) =~= Seq::<char>::empty() + header + f(s[i]));
    } else {
        assert(f(s[i]) == Seq::<char>::empty());
        assert(Seq::<char>::empty() =~= Seq::<char>::empty() + Seq::<char>::empty() + f(s[i]));
    }
}

/// Appends the values of an enum.
fn push_enum_values(out: &mut String, vs: &Vec<(String, i32)>)
    ensures
        final(out)@ == old(out)@ + concat_map(enum_values_view(vs@), enum_value_f()),
{
    let ghost v = enum_values_view(vs@);
    let ghost before = out@;
    let mut i: usize = 0;
    assert(v.take(0) =~= Seq::<(Seq<char>, i32)>::empty());
    while i < vs.len()
        invariant
            i <= vs@.len(),
            v == enum_values_view(vs@),
            out@ == before + concat_map(v.take(i as int), enum_value_f()),
        decreases vs@.len() - i,
    {
        proof {
            lemma_concat_map_take(v, enum_value_f(), i as int);
        }
        let ghost b2 = out@;
        append(out, "\t");
        append(out, vs[i].0.as_str());
        append(out, " = ");
        push_signed_decimal(out, vs[i].1 as i64);
        append(out, ",\n");
        assert(out@ =~= b2 + enum_value_line(v[i as int]));
        i = i + 1;
    }
    proof {
        lemma_take_all(v);
    }
}

/// Whether an extension item adds a value to the enum `name` (executable).
fn extends_enum_exec(name: &String, t: &ExtensionNewType) -> (r: bool)
    ensures
        r == extends_enum(name@, t@),
{
    match t {
        ExtensionNewType::EnumExtension { extends, .. } => same_text(extends.as_str(), name.as_str()),
        _ => false,
    }
}

/// Appends the values that one extension adds to the enum `name`.
fn push_enum_extension_block(out: &mut String, name: &String, x: &Extension)
    requires
        forall|j: int|
            0 <= j < x@.types.len() && x@.supported != "disabled"@ && extends_enum(name@, x@.types[j])
                ==> x@.number >= 1 && extension_enum_value(x@.number, #[trigger] x@.types[j]) <= u32::MAX,
    ensures
        final(out)@ == old(out)@ + enum_extension_block(name@, x@),
{
    if same_text(x.supported.as_str(), "disabled") {
        return;
    }
    let ghost before = out@;
    let ghost ts = x@.types;
    let ghost p = extends_enum_p(name@);
    let ghost f = extension_enum_f(name@, x@.number);
    let ghost header = "\n\t// "@ + x@.name + "\n"@ + "\n#[cfg(feature = \""@ + x@.name + "\")]\n"@;
    let mut once = true;
    let mut k: usize = 0;
    assert(ts.take(0) =~= Seq::<ExtensionNewTypeView>::empty());
    while k < x.types.len()
        invariant
            k <= x.types@.len(),
            ts == x@.types,
            ts.len() == x.types@.len(),
            p == extends_enum_p(name@),
            f == extension_enum_f(name@, x@.number),
            x@.supported != "disabled"@,
            header == "\n\t// "@ + x@.name + "\n"@ + "\n#[cfg(feature = \""@ + x@.name + "\")]\n"@,
            forall|j: int|
                0 <= j < x@.types.len() && x@.supported != "disabled"@ && extends_enum(name@, x@.types[j])
                    ==> x@.number >= 1 && extension_enum_value(x@.number, #[trigger] x@.types[j]) <= u32::MAX,
            once == !any_of(ts.take(k as int), p),
            out@ == before + headed(any_of(ts.take(k as int), p), header, concat_map(ts.take(k as int), f)),
        decreases x.types@.len() - k,
    {
        proof {
            lemma_headed_step(ts, p, f, header, k as int);
            lemma_any_of_take(ts, p, k as int);
        }
        let t = &x.types[k];
        assert(ts[k as int] == t@);
        assert(p(ts[k as int]) == extends_enum(name@, t@));
        let ghost b2 = out@;
        if extends_enum_exec(name, t) {
            if once {
                append(out, "\n\t// ");
                append(out, x.name.as_str());
                append(out, "\n");
                append(out, "\n#[cfg(feature = \"");
                append(out, x.name.as_str());
                append(out, "\")]\n");
                once = false;
            }
            let ghost b3 = out@;
            match t {
                ExtensionNewType::EnumExtension { name: item, offset, dir, .. } => {
                    append(out, "\t");
                    append(out, item.as_str());
                    append(out, " = ");
                    append(out, dir.as_str());
                    let value: u32 = 1000000000 + (x.number - 1) * 1000 + *offset;
                    push_decimal(out, value as u64);
                    append(out, ",\n");
                    assert(out@ =~= b3 + extension_enum_line(x@.number, t@));
                },
                _ => {},
            }
        }
        k = k + 1;
        assert(out@ =~= before + headed(any_of(ts.take(k as int), p), header, concat_map(ts.take(k as int), f)));
    }
    proof {
        lemma_take_all(ts);
    }
}

/// Appends the values that extensions add to the enum `name`.
fn push_enum_extensions(out: &mut String, name: &String, xs: &Vec<Extension>)
    requires
        extension_values_fit(name@, extensions_view(xs@)),
    ensures
        final(out)@ == old(out)@ + concat_map(extensions_view(xs@), enum_extension_f(name@)),
{
    let ghost v = extensions_view(xs@);
    let ghost before = out@;
    let mut i: usize = 0;
    assert(v.take(0) =~= Seq::<ExtensionView>::empty());
    while i < xs.len()
        invariant
            i <= xs@.len(),
            v == extensions_view(xs@),
            extension_values_fit(name@, v),
            out@ == before + concat_map(v.take(i as int), enum_extension_f(name@)),
        decreases xs@.len() - i,
    {
        proof {
            lemma_concat_map_take(v, enum_extension_f(name@), i as int);
        }
        assert(v[i as int] == xs@[i as int]@);
        assert forall|j: int|
            0 <= j < xs@[i as int]@.types.len() && xs@[i as int]@.supported != "disabled"@ && extends_enum(
                name@,
                xs@[i as int]@.types[j],
            ) implies xs@[i as int]@.number >= 1 && extension_enum_value(
            xs@[i as int]@.number,
            #[trigger] xs@[i as int]@.types[j],
        ) <= u32::MAX by {
            assert(v[i as int].types[j] == xs@[i as int]@.types[j]);
        }
        push_enum_extension_block(out, name, &xs[i]);
        i = i + 1;
    }
    proof {
        lemma_take_all(v);
    }
}

/// Appends one enum, its closing `_MAX_ENUM` value named after `upper` (the
/// enum's name in screaming snake case).
pub fn push_enum_named(out: &mut String, e: &EnumDef, xs: &Vec<Extension>, upper: &str)
    requires
        extension_values_fit(e@.name, extensions_view(xs@)),
    ensures
        final(out)@ == old(out)@ + enum_text_named(e@, extensions_view(xs@), upper@),
{
    let ghost before = out@;
    append(
        out,
        "#[allow(non_camel_case_types)]\n#[derive(Copy, Clone, PartialEq, Debug)]\n#[repr(C)]\npub enum ",
    );
    append(out, e.name.as_str());
    append(out, " {\n");
    push_enum_values(out, &e.values);
    push_enum_extensions(out, &e.name, xs);
    append(out, "\t");
    append(out, upper);
    append(out, "_MAX_ENUM = 0x7FFFFFFF\n}\n\n");
    assert(out@ =~= before + enum_text_named(e@, extensions_view(xs@), upper@));
}

/// Appends one enum.
fn push_enum(out: &mut String, e: &EnumDef, xs: &Vec<Extension>)
    requires
        extension_values_fit(e@.name, extensions_view(xs@)),
    ensures
        final(out)@ == old(out)@ + enum_text(e@, extensions_view(xs@)),
{
    let upper = to_screaming_snake_case(e.name.as_str());
    push_enum_named(out, e, xs, upper.as_str());
}

/// Appends the enums.
fn push_enums(out: &mut String, es: &Vec<EnumDef>, xs: &Vec<Extension>)
    requires
        forall|i: int| 0 <= i < es@.len() ==> extension_values_fit(#[trigger] es@[i]@.name, extensions_view(xs@)),
    ensures
        final(out)@ == old(out)@ + enums_text(enums_view(es@), extensions_view(xs@)),
{
    let ghost v = enums_view(es@);
    let ghost before = out@;
    let mut i: usize = 0;
    assert(v.take(0) =~= Seq::<EnumDefView>::empty());
    while i < es.len()
        invariant
            i <= es@.len(),
            v == enums_view(es@),
            forall|k: int| 0 <= k < es@.len() ==> extension_values_fit(#[trigger] es@[k]@.name, extensions_view(xs@)),
            out@ == before + concat_map(v.take(i as int), enum_f(extensions_view(xs@))),
        decreases es@.len() - i,
    {
        proof {
            lemma_concat_map_take(v, enum_f(extensions_view(xs@)), i as int);
        }
        assert(v[i as int] == es@[i as int]@);
        push_enum(out, &es[i], xs);
        i = i + 1;
    }
    proof {
        lemma_take_all(v);
    }
}

/// Appends thirty-two binary digits with a one at bit `bitpos`.
fn push_bit_digits(out: &mut String, bitpos: u32)
    ensures
        final(out)@ == old(out)@ + bit_digits(bitpos),
{
    let ghost before = out@;
    let mut k: u32 = 0;
    while k < 32
        invariant
            k <= 32,
            out@ == before + bit_digits(bitpos).take(k as int),
        decreases 32 - k,
    {
        let x = 31 - k;
        if x == bitpos {
            push_char(out, '1');
        } else {
            push_char(out, '0');
        }
        k = k + 1;
        assert(out@ =~= before + bit_digits(bitpos).take(k as int));
    }
    assert(bit_digits(bitpos).take(32) =~= bit_digits(bitpos));
}

/// Appends the members of a flag set.
fn push_flag_values(out: &mut String, vs: &Vec<(String, BitflagsValueType)>)
    ensures
        final(out)@ == old(out)@ + concat_map(flag_values_view(vs@), flag_f()),
{
    let ghost v = flag_values_view(vs@);
    let ghost before = out@;
    let mut i: usize = 0;
    assert(v.take(0) =~= Seq::<(Seq<char>, BitflagsValueTypeView)>::empty());
    while i < vs.len()
        invariant
            i <= vs@.len(),
            v == flag_values_view(vs@),
            out@ == before + concat_map(v.take(i as int), flag_f()),
        decreases vs@.len() - i,
    {
        proof {
            lemma_concat_map_take(v, flag_f(), i as int);
        }
        let ghost b2 = out@;
        append(out, "\t\tconst ");
        append(out, vs[i].0.as_str());
        match &vs[i].1 {
            BitflagsValueType::Bitpos(b) => {
                append(out, " = 0b");
                push_bit_digits(out, *b);
                append(out, ";\n");
            },
            BitflagsValueType::Value(val) => {
                append(out, " = ");
                append(out, val.as_str());
                append(out, ";\n");
            },
        }
        assert(out@ =~= b2 + flag_line(v[i as int]));
        i = i + 1;
    }
    proof {
        lemma_take_all(v);
    }
}

/// Appends the flag sets.
fn push_bitflags(out: &mut String, bs: &Vec<BitflagsDef>)
    ensures
        final(out)@ == old(out)@ + bitflags_text(bitflags_view(bs@)),
{
    let ghost v = bitflags_view(bs@);
    let ghost before = out@;
    let mut i: usize = 0;
    assert(v.take(0) =~= Seq::<BitflagsDefView>::empty());
    while i < bs.len()
        invariant
            i <= bs@.len(),
            v == bitflags_view(bs@),
            out@ == before + concat_map(v.take(i as int), bitflags_f()),
        decreases bs@.len() - i,
    {
        proof {
            lemma_concat_map_take(v, bitflags_f(), i as int);
        }
        let ghost b2 = out@;
        let b = &bs[i];
        assert(v[i as int] == b@);
        append(out, "bitflags! {\n#[repr(C)]\n\tpub struct ");
        append(out, b.name.as_str());
        if b.values.len() > 0 {
            append(out, ": u32 {\n");
            append(out, "\t\tconst _EMPTY = 0;\n");
            push_flag_values(out, &b.values);
            append(out, "\t}\n}\n\n");
        } else {
            append(out, ": u32 {\n\t\tconst _EMPTY = 0;\n\t}\n}\n\n");
        }
        assert(out@ =~= b2 + bitflags_block(b@));
        i = i + 1;
    }
    proof {
        lemma_take_all(v);
    }
}

/// Appends the declaration of a struct.
fn push_struct_decl(out: &mut String, s: &(String, String, bool))
    ensures
        final(out)@ == old(out)@ + struct_decl((s.0@, s.1@, s.2)),
{
    let ghost before = out@;
    if s.2 {
        append(out, "#[derive(Copy, Clone)]\n#[repr(C)]\npub struct ");
    } else {
        append(out, "#[derive(Debug, Copy, Clone)]\n#[repr(C)]\npub struct ");
    }
    append(out, s.0.as_str());
    append(out, " {\n");
    append(out, s.1.as_str());
    append(out, "\n}\n");
    assert(out@ =~= before + struct_decl((s.0@, s.1@, s.2)));
}

/// Whether an extension item names the type `name` (executable).
fn names_type_exec(name: &String, t: &ExtensionNewType) -> (r: bool)
    ensures
        r == names_type(name@, t@),
{
    match t {
        ExtensionNewType::Type(n) => same_text(n.as_str(), name.as_str()),
        _ => false,
    }
}

/// Appends the declarations of a struct under one extension; tells whether the
/// extension names the struct.
fn push_struct_extension_block(out: &mut String, s: &(String, String, bool), x: &Extension) -> (named: bool)
    ensures
        final(out)@ == old(out)@ + struct_extension_block((s.0@, s.1@, s.2), x@),
        named == named_by_extension(s.0@, x@),
{
    if same_text(x.supported.as_str(), "disabled") {
        return false;
    }
    let ghost sv = (s.0@, s.1@, s.2);
    let ghost before = out@;
    let ghost ts = x@.types;
    let ghost p = names_type_p(s.0@);
    let ghost f = struct_decl_f(sv);
    let ghost header = "\n// "@ + x@.name + "\n"@ + "#[cfg(feature = \""@ + x@.name + "\")]\n"@;
    let mut once = true;
    let mut k: usize = 0;
    assert(ts.take(0) =~= Seq::<ExtensionNewTypeView>::empty());
    while k < x.types.len()
        invariant
            k <= x.types@.len(),
            ts == x@.types,
            ts.len() == x.types@.len(),
            sv == (s.0@, s.1@, s.2),
            p == names_type_p(s.0@),
            f == struct_decl_f(sv),
            x@.supported != "disabled"@,
            header == "\n// "@ + x@.name + "\n"@ + "#[cfg(feature = \""@ + x@.name + "\")]\n"@,
            once == !any_of(ts.take(k as int), p),
            out@ == before + headed(any_of(ts.take(k as int), p), header, concat_map(ts.take(k as int), f)),
        decreases x.types@.len() - k,
    {
        proof {
            lemma_headed_step(ts, p, f, header, k as int);
            lemma_any_of_take(ts, p, k as int);
        }
        let t = &x.types[k];
        assert(ts[k as int] == t@);
        assert(p(ts[k as int]) == names_type(s.0@, t@));
        if names_type_exec(&s.0, t) {
            if once {
                append(out, "\n// ");
                append(out, x.name.as_str());
                append(out, "\n");
                append(out, "#[cfg(feature = \"");
                append(out, x.name.as_str());
                append(out, "\")]\n");
                once = false;
            }
            push_struct_decl(out, s);
        }
        k = k + 1;
        assert(out@ =~= before + headed(any_of(ts.take(k as int), p), header, concat_map(ts.take(k as int), f)));
    }
    proof {
        lemma_take_all(ts);
    }
    !once
}

/// Appends one struct: its declarations under the extensions that name it, or
/// its plain declaration when none does.
fn push_struct(out: &mut String, s: &(String, String, bool), xs: &Vec<Extension>)
    ensures
        final(out)@ == old(out)@ + struct_text((s.0@, s.1@, s.2), extensions_view(xs@)),
{
    let ghost sv = (s.0@, s.1@, s.2);
    let ghost v = extensions_view(xs@);
    let ghost before = out@;
    let mut was_ext = false;
    let mut i: usize = 0;
    assert(v.take(0) =~= Seq::<ExtensionView>::empty());
    while i < xs.len()
        invariant
            i <= xs@.len(),
            v == extensions_view(xs@),
            sv == (s.0@, s.1@, s.2),
            was_ext == any_of(v.take(i as int), named_by_extension_p(s.0@)),
            out@ == before + concat_map(v.take(i as int), struct_extension_f(sv)),
        decreases xs@.len() - i,
    {
        proof {
            lemma_concat_map_take(v, struct_extension_f(sv), i as int);
            lemma_any_of_take(v, named_by_extension_p(s.0@), i as int);
        }
        assert(v[i as int] == xs@[i as int]@);
        let named = push_struct_extension_block(out, s, &xs[i]);
        if named {
            was_ext = true;
        }
        i = i + 1;
    }
    proof {
        lemma_take_all(v);
    }
    if !was_ext {
        push_struct_decl(out, s);
    }
    assert(out@ =~= before + struct_text(sv, v));
}

/// Appends the structs.
fn push_structs(out: &mut String, ss: &Vec<(String, String, bool)>, xs: &Vec<Extension>)
    ensures
        final(out)@ == old(out)@ + structs_text(structs_view(ss@), extensions_view(xs@)),
{
    let ghost v = structs_view(ss@);
    let ghost before = out@;
    let mut i: usize = 0;
    assert(v.take(0) =~= Seq::<(Seq<char>, Seq<char>, bool)>::empty());
    while i < ss.len()
        invariant
            i <= ss@.len(),
            v == structs_view(ss@),
            out@ == before + concat_map(v.take(i as int), struct_f(extensions_view(xs@))),
        decreases ss@.len() - i,
    {
        proof {
            lemma_concat_map_take(v, struct_f(extensions_view(xs@)), i as int);
        }
        assert(v[i as int] == (ss@[i as int].0@, ss@[i as int].1@, ss@[i as int].2));
        push_struct(out, &ss[i], xs);
        i = i + 1;
    }
    proof {
        lemma_take_all(v);
    }
}

/// Appends the core commands of one feature block.
fn push_feature_block(out: &mut String, f: &FeatureBlock, cmds: &Vec<(String, (String, String))>)
    ensures
        final(out)@ == old(out)@ + feature_block_text(commands_view(cmds@), f@),
{
    let ghost cv = commands_view(cmds@);
    let ghost before = out@;
    let ghost cs = f@.contents;
    let ghost p = known_command_p(cv);
    let ghost g = command_decl_f(cv);
    let ghost header = "\n\t// "@ + f@.comment + "\n"@;
    let mut once = true;
    let mut k: usize = 0;
    assert(cs.take(0) =~= Seq::<FeatureContentView>::empty());
    assert forall|c: FeatureContentView| !#[trigger] p(c) implies g(c) == Seq::<char>::empty() by {}
    while k < f.contents.len()
        invariant
            k <= f.contents@.len(),
            cs == f@.contents,
            cs.len() == f.contents@.len(),
            cv == commands_view(cmds@),
            p == known_command_p(cv),
            g == command_decl_f(cv),
            forall|c: FeatureContentView| !#[trigger] p(c) ==> g(c) == Seq::<char>::empty(),
            header == "\n\t// "@ + f@.comment + "\n"@,
            once == !any_of(cs.take(k as int), p),
            out@ == before + headed(any_of(cs.take(k as int), p), header, concat_map(cs.take(k as int), g)),
        decreases f.contents@.len() - k,
    {
        proof {
            lemma_headed_step(cs, p, g, header, k as int);
            lemma_any_of_take(cs, p, k as int);
        }
        let c = &f.contents[k];
        assert(cs[k as int] == c@);
        match c {
            FeatureContent::Command(name) => {
                match find_command(cmds, name) {
                    Some(cmd) => {
                        if once {
                            append(out, "\n\t// ");
                            append(out, f.comment.as_str());
                            append(out, "\n");
                            once = false;
                        }
                        let ghost b3 = out@;
                        append(out, "\tpub fn ");
                        append(out, name.as_str());
                        append(out, "(");
                        append(out, cmd.0.as_str());
                        append(out, ") -> ");
                        append(out, cmd.1.as_str());
                        append(out, ";\n");
                        assert(out@ =~= b3 + command_decl(cv, c@));
                    },
                    None => {},
                }
            },
            _ => {},
        }
        k = k + 1;
        assert(out@ =~= before + headed(any_of(cs.take(k as int), p), header, concat_map(cs.take(k as int), g)));
    }
    proof {
        lemma_take_all(cs);
    }
}

/// Appends the core commands of every feature block.
fn push_features(out: &mut String, fs: &Vec<FeatureBlock>, cmds: &Vec<(String, (String, String))>)
    ensures
        final(out)@ == old(out)@ + features_text(features_view(fs@), commands_view(cmds@)),
{
    let ghost v = features_view(fs@);
    let ghost before = out@;
    let mut i: usize = 0;
    assert(v.take(0) =~= Seq::<FeatureBlockView>::empty());
    while i < fs.len()
        invariant
            i <= fs@.len(),
            v == features_view(fs@),
            out@ == before + concat_map(v.take(i as int), feature_block_f(commands_view(cmds@))),
        decreases fs@.len() - i,
    {
        proof {
            lemma_concat_map_take(v, feature_block_f(commands_view(cmds@)), i as int);
        }
        assert(v[i as int] == fs@[i as int]@);
        push_feature_block(out, &fs[i], cmds);
        i = i + 1;
    }
    proof {
        lemma_take_all(v);
    }
}

/// The field (or, with `init`, the initialiser) of one extension command.
pub open spec fn ext_command_line(x: ExtensionView, n: Seq<char>, cmd: (Seq<char>, Seq<char>), init: bool) -> Seq<char> {
    if init {
        "\n#[cfg(feature = \""@ + x.name + "\")]\n"@ + "\t\t\t"@ + remove_vk(n)
            + ": unsafe { mem::transmute::<*const c_void,Option<extern \"C\" fn("@ + cmd.0 + ") -> "@ + cmd.1
            + ">>(vkGetInstanceProcAddr(instance, \""@ + n + "\\0\".as_ptr())) },\n"@
    } else {
        "\n#[cfg(feature = \""@ + x.name + "\")]\n"@ + "\t\tpub "@ + remove_vk(n) + ": Option<extern \"C\" fn("@
            + cmd.0 + ") -> "@ + cmd.1 + ">,\n"@
    }
}

/// Appends the field (or, with `init`, the initialiser) of one extension command.
fn push_ext_command_line(out: &mut String, x: &Extension, name: &String, cmd: &(String, String), init: bool)
    ensures
        final(out)@ == old(out)@ + ext_command_line(x@, name@, (cmd.0@, cmd.1@), init),
{
    let ghost b3 = out@;
    append(out, "\n#[cfg(feature = \"");
    append(out, x.name.as_str());
    append(out, "\")]\n");
    let name_chars = chars_of(name.as_str());
    if init {
        append(out, "\t\t\t");
        push_without_vk(out, &name_chars);
        append(out, ": unsafe { mem::transmute::<*const c_void,Option<extern \"C\" fn(");
        append(out, cmd.0.as_str());
        append(out, ") -> ");
        append(out, cmd.1.as_str());
        append(out, ">>(vkGetInstanceProcAddr(instance, \"");
        append(out, name.as_str());
        append(out, "\\0\".as_ptr())) },\n");
    } else {
        append(out, "\t\tpub ");
        push_without_vk(out, &name_chars);
        append(out, ": Option<extern \"C\" fn(");
        append(out, cmd.0.as_str());
        append(out, ") -> ");
        append(out, cmd.1.as_str());
        append(out, ">,\n");
    }
    assert(out@ =~= b3 + ext_command_line(x@, name@, (cmd.0@, cmd.1@), init));
}

/// Appends, for one extension, its function-pointer fields (or, with `init`,
/// their initialisers).
fn push_ext_block(out: &mut String, x: &Extension, cmds: &Vec<(String, (String, String))>, init: bool)
    ensures
        final(out)@ == old(out)@ + if init {
            ext_inits_block(commands_view(cmds@), x@)
        } else {
            ext_fields_block(commands_view(cmds@), x@)
        },
{
    if same_text(x.supported.as_str(), "disabled") {
        return;
    }
    let ghost cv = commands_view(cmds@);
    let ghost before = out@;
    let ghost ts = x@.types;
    let ghost p = known_ext_command_p(cv);
    let ghost g = if init { ext_init_f(cv, x@) } else { ext_field_f(cv, x@) };
    let ghost header = if init { "\n\t\t\t// "@ + x@.name + "\n"@ } else { "\n\t\t// "@ + x@.name + "\n"@ };
    let mut once = true;
    let mut k: usize = 0;
    assert(ts.take(0) =~= Seq::<ExtensionNewTypeView>::empty());
    assert forall|t: ExtensionNewTypeView| !#[trigger] p(t) implies g(t) == Seq::<char>::empty() by {}
    while k < x.types.len()
        invariant
            k <= x.types@.len(),
            ts == x@.types,
            ts.len() == x.types@.len(),
            cv == commands_view(cmds@),
            p == known_ext_command_p(cv),
            g == (if init { ext_init_f(cv, x@) } else { ext_field_f(cv, x@) }),
            forall|t: ExtensionNewTypeView| !#[trigger] p(t) ==> g(t) == Seq::<char>::empty(),
            header == (if init { "\n\t\t\t// "@ + x@.name + "\n"@ } else { "\n\t\t// "@ + x@.name + "\n"@ }),
            once == !any_of(ts.take(k as int), p),
            out@ == before + headed(any_of(ts.take(k as int), p), header, concat_map(ts.take(k as int), g)),
        decreases x.types@.len() - k,
    {
        proof {
            lemma_headed_step(ts, p, g, header, k as int);
            lemma_any_of_take(ts, p, k as int);
        }
        let t = &x.types[k];
        assert(ts[k as int] == t@);
        match t {
            ExtensionNewType::Command(name) => {
                match find_command(cmds, name) {
                    Some(cmd) => {
                        if once {
                            if init {
                                append(out, "\n\t\t\t// ");
                            } else {
                                append(out, "\n\t\t// ");
                            }
                            append(out, x.name.as_str());
                            append(out, "\n");
                            once = false;
                        }
                        push_ext_command_line(out, x, name, cmd, init);
                        assert(init ==> ext_init_line(cv, x@, t@) == ext_command_line(x@, name@, (cmd.0@, cmd.1@), true));
                        assert(!init ==> ext_field_line(cv, x@, t@) == ext_command_line(x@, name@, (cmd.0@, cmd.1@), false));
                    },
                    None => {},
                }
            },
            _ => {},
        }
        k = k + 1;
        assert(out@ =~= before + headed(any_of(ts.take(k as int), p), header, concat_map(ts.take(k as int), g)));
    }
    proof {
        lemma_take_all(ts);
    }
}

/// Appends the function-pointer fields (or, with `init`, their initialisers)
/// of every extension.
fn push_ext_blocks(out: &mut String, xs: &Vec<Extension>, cmds: &Vec<(String, (String, String))>, init: bool)
    ensures
        final(out)@ == old(out)@ + if init {
            ext_inits_text(extensions_view(xs@), commands_view(cmds@))
        } else {
            ext_fields_text(extensions_view(xs@), commands_view(cmds@))
        },
{
    let ghost v = extensions_view(xs@);
    let ghost cv = commands_view(cmds@);
    let ghost f = if init { ext_inits_f(cv) } else { ext_fields_f(cv) };
    let ghost before = out@;
    let mut i: usize = 0;
    assert(v.take(0) =~= Seq::<ExtensionView>::empty());
    while i < xs.len()
        invariant
            i <= xs@.len(),
            v == extensions_view(xs@),
            cv == commands_view(cmds@),
            f == (if init { ext_inits_f(cv) } else { ext_fields_f(cv) }),
            out@ == before + concat_map(v.take(i as int), f),
        decreases xs@.len() - i,
    {
        proof {
            lemma_concat_map_take(v, f, i as int);
        }
        assert(v[i as int] == xs@[i as int]@);
        push_ext_block(out, &xs[i], cmds, init);
        i = i + 1;
    }
    proof {
        lemma_take_all(v);
    }
}

/// Writes the Rust source for a registry that can be written out.
pub fn render_registry(r: &Registry) -> (out: String)
    requires
        render_defined(r@),
    ensures
        out@ == render(r@),
{
    let mut out = String::new();
    append(&mut out, "/*\n");
    append(&mut out, r.comments[0].as_str());
    append(&mut out, "\n*/\n");
    append(&mut out, FLUFF1);
    append(&mut out, "\n");
    assert forall|i: int| 0 <= i < r.define_types@.len() implies translate_define_defined(
        #[trigger] r.define_types@[i].0@,
        r.define_types@[i].1@,
    ) by {
        assert(r@.define_types[i] == (r.define_types@[i].0@, r.define_types@[i].1@));
        assert(translate_define_defined(r@.define_types[i].0, r@.define_types[i].1));
    }
    push_defines(&mut out, &r.define_types);
    append(&mut out, FLUFF2);
    append(&mut out, "\n");
    push_constants(&mut out, &r.api_constants);
    push_types(&mut out, &r.types);
    push_bitmask_types(&mut out, &r.bitmask_types);
    push_handle_types(&mut out, &r.handle_types);
    assert forall|i: int| 0 <= i < r.enums@.len() implies extension_values_fit(
        #[trigger] r.enums@[i]@.name,
        extensions_view(r.extensions@),
    ) by {
        assert(r@.enums[i] == r.enums@[i]@);
    }
    push_enums(&mut out, &r.enums, &r.extensions);
    push_bitflags(&mut out, &r.bitflags);
    push_structs(&mut out, &r.structs, &r.extensions);
    append(&mut out, "#[link(name = \"vulkan\")]\n");
    append(&mut out, "extern {\n");
    push_features(&mut out, &r.features, &r.commands);
    append(&mut out, "}\n");
    append(&mut out, "\n\t// Extensions\n");
    append(&mut out, "\tpub struct VulkanFunctionPointers {\n");
    push_ext_blocks(&mut out, &r.extensions, &r.commands, false);
    append(&mut out, INIT_HEAD);
    push_ext_blocks(&mut out, &r.extensions, &r.commands, true);
    append(&mut out, "}\n\t\t}\n\t}\n");
    assert(out@ =~= render(r@));
    out
}

/// Why a registry cannot be written out, in the order the writing meets it.
pub open spec fn render_error(r: RegistryView) -> GenError {
    if r.comments.len() == 0 {
        GenError::NoComment
    } else if !(forall|i: int| 0 <= i < r.define_types.len() ==> translate_define_defined(
        #[trigger] r.define_types[i].0,
        r.define_types[i].1,
    )) {
        GenError::NoHeaderVersionDigits
    } else {
        GenError::NumberOverflow
    }
}

/// Whether the values that one extension adds to the enum `name` fit.
fn extension_values_fit_one(name: &String, x: &Extension) -> (r: bool)
    ensures
        r == (forall|j: int|
            0 <= j < x@.types.len() && x@.supported != "disabled"@ && extends_enum(name@, x@.types[j])
                ==> x@.number >= 1 && extension_enum_value(x@.number, #[trigger] x@.types[j]) <= u32::MAX),
{
    if same_text(x.supported.as_str(), "disabled") {
        return true;
    }
    let mut k: usize = 0;
    while k < x.types.len()
        invariant
            k <= x.types@.len(),
            x@.supported != "disabled"@,
            forall|j: int|
                0 <= j < k && extends_enum(name@, x@.types[j]) ==> x@.number >= 1 && extension_enum_value(
                    x@.number,
                    #[trigger] x@.types[j],
                ) <= u32::MAX,
        decreases x.types@.len() - k,
    {
        let t = &x.types[k];
        assert(x@.types[k as int] == t@);
        if extends_enum_exec(name, t) {
            match t {
                ExtensionNewType::EnumExtension { offset, .. } => {
                    if x.number < 1 {
                        return false;
                    }
                    let v: u64 = 1000000000u64 + (x.number as u64 - 1) * 1000 + *offset as u64;
                    if v > u32::MAX as u64 {
                        return false;
                    }
                },
                _ => {},
            }
        }
        k = k + 1;
    }
    true
}

/// Whether the values that extensions add to the enum `name` fit.
fn extension_values_fit_exec(name: &String, xs: &Vec<Extension>) -> (r: bool)
    ensures
        r == extension_values_fit(name@, extensions_view(xs@)),
{
    let ghost v = extensions_view(xs@);
    let mut i: usize = 0;
    while i < xs.len()
        invariant
            i <= xs@.len(),
            v == extensions_view(xs@),
            forall|a: int, j: int|
                0 <= a < i && 0 <= j < v[a].types.len() && v[a].supported != "disabled"@ && extends_enum(
                    name@,
                    v[a].types[j],
                ) ==> v[a].number >= 1 && extension_enum_value(v[a].number, #[trigger] v[a].types[j]) <= u32::MAX,
        decreases xs@.len() - i,
    {
        assert(v[i as int] == xs@[i as int]@);
        if !extension_values_fit_one(name, &xs[i]) {
            return false;
        }
        i = i + 1;
    }
    true
}

/// Checks that a registry can be written out.
pub fn check_renderable(r: &Registry) -> (res: Result<(), GenError>)
    ensures
        res is Ok <==> render_defined(r@),
        res is Err ==> res == Err::<(), GenError>(render_error(r@)),
{
    if r.comments.len() == 0 {
        return Err(GenError::NoComment);
    }
    assert(r@.comments.len() > 0);
    let mut i: usize = 0;
    while i < r.define_types.len()
        invariant
            i <= r.define_types@.len(),
            r@.comments.len() > 0,
            forall|k: int| 0 <= k < i ==> translate_define_defined(
                #[trigger] r@.define_types[k].0,
                r@.define_types[k].1,
            ),
        decreases r.define_types@.len() - i,
    {
        assert(r@.define_types[i as int] == (r.define_types@[i as int].0@, r.define_types@[i as int].1@));
        if same_text(r.define_types[i].0.as_str(), "VK_HEADER_VERSION") {
            let digits = crate::text::regex_trailing_digits(
                crate::text::TRAILING_DIGITS_PATTERN,
                r.define_types[i].1.as_str(),
            );
            if digits.is_none() {
                assert(!translate_define_defined(r@.define_types[i as int].0, r@.define_types[i as int].1));
                return Err(GenError::NoHeaderVersionDigits);
            }
        }
        i = i + 1;
    }
    let mut e: usize = 0;
    while e < r.enums.len()
        invariant
            e <= r.enums@.len(),
            r@.comments.len() > 0,
            forall|k: int| 0 <= k < r@.define_types.len() ==> translate_define_defined(
                #[trigger] r@.define_types[k].0,
                r@.define_types[k].1,
            ),
            forall|k: int| 0 <= k < e ==> extension_values_fit(#[trigger] r@.enums[k].name, r@.extensions),
        decreases r.enums@.len() - e,
    {
        assert(r@.enums[e as int] == r.enums@[e as int]@);
        if !extension_values_fit_exec(&r.enums[e].name, &r.extensions) {
            assert(!extension_values_fit(r@.enums[e as int].name, r@.extensions));
            return Err(GenError::NumberOverflow);
        }
        e = e + 1;
    }
    Ok(())
}

/// What generating from a registry's events gives: the Rust source, or where
/// reading or writing gives up.
pub open spec fn spec_generate(events: Seq<crate::xml::XmlEventView>) -> Result<Seq<char>, GenError> {
    match crate::vkgen_parse::spec_run(crate::vkgen_parse::initial_parser(), events) {
        Err(e) => Err(e),
        Ok(q) => if render_defined(q.registry) {
            Ok(render(q.registry))
        } else {
            Err(render_error(q.registry))
        },
    }
}

/// Generates the Rust source of the Vulkan API from the events of `vk.xml`.
pub fn generate(events: &Vec<crate::xml::XmlEvent>) -> (r: Result<String, GenError>)
    ensures
        match spec_generate(crate::vkgen_parse::events_view(events@)) {
            Ok(text) => r matches Ok(s) && s@ == text,
            Err(e) => r == Err::<String, GenError>(e),
        },
{
    let registry = crate::vkgen_parse::read_registry(events)?;
    check_renderable(&registry)?;
    Ok(render_registry(&registry))
}

/// What generating from the text of `vk.xml` gives: the events are read up to
/// the end of the document or the first failure to read one, and the
/// generator stops at the first of its own errors among them, or else at that
/// failure, or else writes the registry out.
pub open spec fn spec_generate_from_text(b: Seq<u8>) -> Result<Seq<char>, SourceFailure> {
    match crate::vkgen_parse::spec_run(crate::vkgen_parse::initial_parser(), events_read(b)) {
        Err(g) => Err(SourceFailure::Gen(g)),
        Ok(q) => match read_failure(b) {
            Some(f) => Err(SourceFailure::Xml(f)),
            None => if render_defined(q.registry) {
                Ok(render(q.registry))
            } else {
                Err(SourceFailure::Gen(render_error(q.registry)))
            },
        },
    }
}

/// Generates the Rust source of the Vulkan API from the text of `vk.xml`.
pub fn generate_from_xml(text: &str) -> (r: Result<String, SourceError>)
    ensures
        match spec_generate_from_text(text.spec_bytes()) {
            Ok(s) => r matches Ok(o) && o@ == s,
            Err(f) => r matches Err(e) && e.failure() == f,
        },
{
    let (events, failure) = read_xml_events(text);
    assert(crate::vkgen_parse::events_view(events@) =~= events_read(text.spec_bytes()));
    let registry = match crate::vkgen_parse::read_registry(&events) {
        Ok(registry) => registry,
        Err(g) => return Err(SourceError::Gen(g)),
    };
    if let Some(e) = failure {
        return Err(SourceError::Xml(e));
    }
    if let Err(g) = check_renderable(&registry) {
        return Err(SourceError::Gen(g));
    }
    Ok(render_registry(&registry))
}

} // verus!
