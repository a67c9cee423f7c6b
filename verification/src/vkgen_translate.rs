//! Name and type translations of the registry generator.

use vstd::prelude::*;
use crate::text::{append, regex_trailing_digits, same_text, trailing_digits, TRAILING_DIGITS_PATTERN};

verus! {

/// What `guess_type_from_name` gives.
pub open spec fn spec_guess_type_from_name(s: Seq<char>) -> Seq<char> {
    if s == "VK_WHOLE_SIZE"@ {
        "u64"@
    } else if s == "VK_LOD_CLAMP_NONE"@ {
        "f32"@
    } else if s == "VK_TRUE"@ {
        "u32"@
    } else if s == "VK_FALSE"@ {
        "u32"@
    } else {
        "usize"@
    }
}

/// The Rust type of an API constant, guessed from its name.
pub fn guess_type_from_name(name: &String) -> (r: String)
    ensures
        r@ == spec_guess_type_from_name(name@),
{
    if same_text(name.as_str(), "VK_WHOLE_SIZE") {
        "u64".to_owned()
    } else if same_text(name.as_str(), "VK_LOD_CLAMP_NONE") {
        "f32".to_owned()
    } else if same_text(name.as_str(), "VK_TRUE") {
        "u32".to_owned()
    } else if same_text(name.as_str(), "VK_FALSE") {
        "u32".to_owned()
    } else {
        "usize".to_owned()
    }
}

/// What `c_wsi_types_to_cfg_var` gives.
pub open spec fn spec_c_wsi_types_to_cfg_var(s: Seq<char>) -> Seq<char> {
    if s == "xcb_connection_t"@ {
        "xcb"@
    } else if s == "xcb_visualid_t "@ {
        "xcb"@
    } else if s == "xcb_window_t"@ {
        "xcb"@
    } else {
        ""@
    }
}

/// The feature that gates a window-system type, or nothing.
pub fn c_wsi_types_to_cfg_var(wsi_type: &String) -> (r: String)
    ensures
        r@ == spec_c_wsi_types_to_cfg_var(wsi_type@),
{
    if same_text(wsi_type.as_str(), "xcb_connection_t") {
        "xcb".to_owned()
    } else if same_text(wsi_type.as_str(), "xcb_visualid_t ") {
        "xcb".to_owned()
    } else if same_text(wsi_type.as_str(), "xcb_window_t") {
        "xcb".to_owned()
    } else {
        "".to_owned()
    }
}

/// What `translate_types` gives.
pub open spec fn spec_translate_types(s: Seq<char>) -> Seq<char> {
    if s == "void"@ {
        "c_void"@
    } else if s == "uint32_t"@ {
        "u32"@
    } else if s == "int32_t"@ {
        "i32"@
    } else if s == "int"@ {
        "i32"@
    } else if s == "uint64_t"@ {
        "u64"@
    } else if s == "int64_t"@ {
        "i64"@
    } else if s == "char"@ {
        "u8"@
    } else if s == "uint8_t"@ {
        "u8"@
    } else if s == "float"@ {
        "f32"@
    } else if s == "VkBool32"@ {
        "VkBool32"@
    } else {
        s
    }
}

/// The C scalar types of the registry as width in bits, signedness and whether
/// they are floating point, on the platforms Vulkan runs on: `int` has 32
/// bits, `char` is a byte (taken as unsigned), `float` is IEEE single precision.
pub open spec fn c_scalar(t: Seq<char>) -> Option<(nat, bool, bool)> {
    if t == "uint8_t"@ || t == "char"@ {
        Some((8nat, false, false))
    } else if t == "uint32_t"@ {
        Some((32nat, false, false))
    } else if t == "int32_t"@ || t == "int"@ {
        Some((32nat, true, false))
    } else if t == "uint64_t"@ {
        Some((64nat, false, false))
    } else if t == "int64_t"@ {
        Some((64nat, true, false))
    } else if t == "float"@ {
        Some((32nat, true, true))
    } else {
        None
    }
}

/// Rust's primitive numeric types as width in bits, signedness and whether
/// they are floating point.
pub open spec fn rust_scalar(t: Seq<char>) -> Option<(nat, bool, bool)> {
    if t == "u8"@ {
        Some((8nat, false, false))
    } else if t == "i8"@ {
        Some((8nat, true, false))
    } else if t == "u16"@ {
        Some((16nat, false, false))
    } else if t == "i16"@ {
        Some((16nat, true, false))
    } else if t == "u32"@ {
        Some((32nat, false, false))
    } else if t == "i32"@ {
        Some((32nat, true, false))
    } else if t == "u64"@ {
        Some((64nat, false, false))
    } else if t == "i64"@ {
        Some((64nat, true, false))
    } else if t == "f32"@ {
        Some((32nat, true, true))
    } else if t == "f64"@ {
        Some((64nat, true, true))
    } else {
        None
    }
}

/// Every C scalar type becomes the Rust primitive of the same width,
/// signedness and kind (integer or floating point).
pub proof fn lemma_translate_types_keeps_scalars(t: Seq<char>)
    requires
        c_scalar(t) is Some,
    ensures
        rust_scalar(spec_translate_types(t)) == c_scalar(t),
{
    reveal_strlit("void");
    reveal_strlit("c_void");
    reveal_strlit("uint8_t");
    reveal_strlit("char");
    reveal_strlit("uint32_t");
    reveal_strlit("int32_t");
    reveal_strlit("int");
    reveal_strlit("uint64_t");
    reveal_strlit("int64_t");
    reveal_strlit("float");
    reveal_strlit("VkBool32");
    reveal_strlit("u8");
    reveal_strlit("i8");
    reveal_strlit("u16");
    reveal_strlit("i16");
    reveal_strlit("u32");
    reveal_strlit("i32");
    reveal_strlit("u64");
    reveal_strlit("i64");
    reveal_strlit("f32");
    reveal_strlit("f64");
    assert("void"@.len() == 4);
    assert("c_void"@.len() == 6);
    assert("uint8_t"@.len() == 7);
    assert("char"@.len() == 4);
    assert("uint32_t"@.len() == 8);
    assert("int32_t"@.len() == 7);
    assert("int"@.len() == 3);
    assert("uint64_t"@.len() == 8);
    assert("int64_t"@.len() == 7);
    assert("float"@.len() == 5);
    assert("VkBool32"@.len() == 8);
    assert("u8"@.len() == 2);
    assert("i8"@.len() == 2);
    assert("u16"@.len() == 3);
    assert("i16"@.len() == 3);
    assert("u32"@.len() == 3);
    assert("i32"@.len() == 3);
    assert("u64"@.len() == 3);
    assert("i64"@.len() == 3);
    assert("f32"@.len() == 3);
    assert("f64"@.len() == 3);
    assert("void"@[0] == 'v');
    assert("uint8_t"@[0] == 'u');
    assert("char"@[0] == 'c');
    assert("uint32_t"@[0] == 'u');
    assert("uint32_t"@[4] == '3');
    assert("int32_t"@[0] == 'i');
    assert("int32_t"@[3] == '3');
    assert("int"@[0] == 'i');
    assert("int"@[1] == 'n');
    assert("uint64_t"@[0] == 'u');
    assert("uint64_t"@[4] == '6');
    assert("int64_t"@[0] == 'i');
    assert("int64_t"@[3] == '6');
    assert("VkBool32"@[0] == 'V');
    assert("u8"@[0] == 'u');
    assert("i8"@[0] == 'i');
    assert("u16"@[0] == 'u');
    assert("u16"@[1] == '1');
    assert("i16"@[0] == 'i');
    assert("i16"@[1] == '1');
    assert("u32"@[0] == 'u');
    assert("u32"@[1] == '3');
    assert("i32"@[0] == 'i');
    assert("i32"@[1] == '3');
    assert("u64"@[0] == 'u');
    assert("u64"@[1] == '6');
    assert("i64"@[0] == 'i');
    assert("i64"@[1] == '6');
    assert("f32"@[0] == 'f');
    assert("f32"@[1] == '3');
    assert("f64"@[0] == 'f');
    assert("f64"@[1] == '6');
    if t == "uint8_t"@ {
        assert(spec_translate_types(t) == "u8"@);
    } else if t == "char"@ {
        assert(spec_translate_types(t) == "u8"@);
    } else if t == "uint32_t"@ {
        assert(spec_translate_types(t) == "u32"@);
    } else if t == "int32_t"@ {
        assert(spec_translate_types(t) == "i32"@);
    } else if t == "int"@ {
        assert(spec_translate_types(t) == "i32"@);
    } else if t == "uint64_t"@ {
        assert(spec_translate_types(t) == "u64"@);
    } else if t == "int64_t"@ {
        assert(spec_translate_types(t) == "i64"@);
    } else {
        assert(spec_translate_types(t) == "f32"@);
    }
}

/// The Rust spelling of a C type of the registry.
pub fn translate_types(original_type: String) -> (r: String)
    ensures
        r@ == spec_translate_types(original_type@),
{
    if same_text(original_type.as_str(), "void") {
        "c_void".to_owned()
    } else if same_text(original_type.as_str(), "uint32_t") {
        "u32".to_owned()
    } else if same_text(original_type.as_str(), "int32_t") {
        "i32".to_owned()
    } else if same_text(original_type.as_str(), "int") {
        "i32".to_owned()
    } else if same_text(original_type.as_str(), "uint64_t") {
        "u64".to_owned()
    } else if same_text(original_type.as_str(), "int64_t") {
        "i64".to_owned()
    } else if same_text(original_type.as_str(), "char") {
        "u8".to_owned()
    } else if same_text(original_type.as_str(), "uint8_t") {
        "u8".to_owned()
    } else if same_text(original_type.as_str(), "float") {
        "f32".to_owned()
    } else if same_text(original_type.as_str(), "VkBool32") {
        "VkBool32".to_owned()
    } else {
        original_type
    }
}

/// What `translate_member_name` gives.
pub open spec fn spec_translate_member_name(s: Seq<char>) -> Seq<char> {
    if s == "type"@ {
        "_type"@
    } else {
        s
    }
}

/// A struct member name that is not a Rust keyword.
pub fn translate_member_name(original_name: String) -> (r: String)
    ensures
        r@ == spec_translate_member_name(original_name@),
{
    if same_text(original_name.as_str(), "type") {
        "_type".to_owned()
    } else {
        original_name
    }
}

/// What `translate_parameter_name` gives.
pub open spec fn spec_translate_parameter_name(s: Seq<char>) -> Seq<char> {
    if s == "type"@ {
        "_type"@
    } else {
        s
    }
}

/// A parameter name that is not a Rust keyword.
pub fn translate_parameter_name(original_name: String) -> (r: String)
    ensures
        r@ == spec_translate_parameter_name(original_name@),
{
    if same_text(original_name.as_str(), "type") {
        "_type".to_owned()
    } else {
        original_name
    }
}

/// What `translate_values` gives.
pub open spec fn spec_translate_values(s: Seq<char>) -> Seq<char> {
    if s == "1000.0f"@ {
        "1000.0"@
    } else if s == "(~0U)"@ {
        "::std::usize::MAX"@
    } else if s == "(~0ULL)"@ {
        "::std::u64::MAX"@
    } else if s == "(~0U-1)"@ {
        "::std::usize::MAX - 1"@
    } else if s == "(~0U-2)"@ {
        "::std::usize::MAX - 2"@
    } else {
        s
    }
}

/// The Rust spelling of a C constant expression of the registry.
pub fn translate_values(original_value: String) -> (r: String)
    ensures
        r@ == spec_translate_values(original_value@),
{
    if same_text(original_value.as_str(), "1000.0f") {
        "1000.0".to_owned()
    } else if same_text(original_value.as_str(), "(~0U)") {
        "::std::usize::MAX".to_owned()
    } else if same_text(original_value.as_str(), "(~0ULL)") {
        "::std::u64::MAX".to_owned()
    } else if same_text(original_value.as_str(), "(~0U-1)") {
        "::std::usize::MAX - 1".to_owned()
    } else if same_text(original_value.as_str(), "(~0U-2)") {
        "::std::usize::MAX - 2".to_owned()
    } else {
        original_value
    }
}

/// What `c_wsi_types_to_rust_types` gives.
pub open spec fn spec_c_wsi_types_to_rust_types(s: Seq<char>) -> Seq<char> {
    if s == "xcb_connection_t"@ {
        "pub type xcb_connection_t = xcb::ffi::xcb_connection_t;"@
    } else if s == "xcb_window_t"@ {
        "pub type xcb_window_t = u32;"@
    } else {
        "pub type "@ + s + " = u64;"@
    }
}

/// The Rust declaration of a window-system type: the XCB connection and window
/// types as XCB has them, every other one as a 64-bit handle.
pub fn c_wsi_types_to_rust_types(wsi_type: &String) -> (r: String)
    ensures
        r@ == spec_c_wsi_types_to_rust_types(wsi_type@),
{
    if same_text(wsi_type.as_str(), "xcb_connection_t") {
        "pub type xcb_connection_t = xcb::ffi::xcb_connection_t;".to_owned()
    } else if same_text(wsi_type.as_str(), "xcb_window_t") {
        "pub type xcb_window_t = u32;".to_owned()
    } else {
        let mut r = "pub type ".to_owned();
        append(&mut r, wsi_type.as_str());
        append(&mut r, " = u64;");
        r
    }
}

/// Whether `translate_define` is defined on a define: the header version must
/// end with digits.
pub open spec fn translate_define_defined(name: Seq<char>, value: Seq<char>) -> bool {
    name == "VK_HEADER_VERSION"@ ==> trailing_digits(value) is Some
}

/// What `translate_define` gives.
pub open spec fn spec_translate_define(name: Seq<char>, value: Seq<char>) -> Seq<char> {
    if name == "VK_HEADER_VERSION"@ {
        "\npub const VK_HEADER_VERSION: i32 = "@ + trailing_digits(value)->0 + ";"@
    } else if name == "VK_NULL_HANDLE"@ {
        "\npub const VK_NULL_HANDLE: u64 = 0;"@
    } else if name == "ANativeWindow"@ {
        "\npub type ANativeWindow = u64;"@
    } else if name == "AHardwareBuffer"@ {
        "\npub type AHardwareBuffer = u64;"@
    } else {
        Seq::empty()
    }
}

/// The Rust declaration of a `#define` of the registry (name and text): the
/// header version (the digits that end its text), the null handle and two
/// Android types; nothing for the others.
pub fn translate_define(define: (String, String)) -> (r: String)
    requires
        translate_define_defined(define.0@, define.1@),
    ensures
        r@ == spec_translate_define(define.0@, define.1@),
{
    if same_text(define.0.as_str(), "VK_HEADER_VERSION") {
        let digits = regex_trailing_digits(TRAILING_DIGITS_PATTERN, define.1.as_str()).unwrap();
        let mut r = "\npub const VK_HEADER_VERSION: i32 = ".to_owned();
        append(&mut r, digits.as_str());
        append(&mut r, ";");
        r
    } else if same_text(define.0.as_str(), "VK_NULL_HANDLE") {
        "\npub const VK_NULL_HANDLE: u64 = 0;".to_owned()
    } else if same_text(define.0.as_str(), "ANativeWindow") {
        "\npub type ANativeWindow = u64;".to_owned()
    } else if same_text(define.0.as_str(), "AHardwareBuffer") {
        "\npub type AHardwareBuffer = u64;".to_owned()
    } else {
        String::new()
    }
}

/// The name that `inflector::cases::screamingsnakecase::to_screaming_snake_case`
/// gives a text.
pub uninterp spec fn screaming_snake_case(s: Seq<char>) -> Seq<char>;

/// `inflector::cases::screamingsnakecase::to_screaming_snake_case`: the text in
/// upper-case words joined by underscores; its result is named, not stated.
#[verifier::external_body]
pub(crate) fn to_screaming_snake_case(s: &str) -> (r: String)
    ensures
        r@ == screaming_snake_case(s@),
{
    inflector::cases::screamingsnakecase::to_screaming_snake_case(s)
}

} // verus!
