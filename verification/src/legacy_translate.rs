//! Name and type translations of the first registry generator, which writes an unannotated binding.

use vstd::prelude::*;
use crate::text::same_text;
use crate::vkgen_translate::{c_scalar, rust_scalar};

verus! {

/// What `guess_type_from_name` gives.
pub open spec fn spec_guess_type_from_name(s: Seq<char>) -> Seq<char> {
    if s == "VK_WHOLE_SIZE"@ {
        "u64"@
    } else if s == "VK_LOD_CLAMP_NONE"@ {
        "f32"@
    } else {
        "usize"@
    }
}

/// The Rust type of an API constant, guessed from its name.
pub fn guess_type_from_name(name: &String) -> (r: String)
    ensures
        r@ == spec_guess_type_from_name(name@),
{
    if same_text(name.as_str(), "VK_WHOLE_SIZE") {
        "u64".to_owned()
    } else if same_text(name.as_str(), "VK_LOD_CLAMP_NONE") {
        "f32".to_owned()
    } else {
        "usize".to_owned()
    }
}

/// What `translate_types` gives.
pub open spec fn spec_translate_types(s: Seq<char>) -> Seq<char> {
    if s == "void"@ {
        "c_void"@
    } else if s == "uint32_t"@ {
        "u32"@
    } else if s == "int32_t"@ {
        "i32"@
    } else if s == "int"@ {
        "i32"@
    } else if s == "uint64_t"@ {
        "u64"@
    } else if s == "int64_t"@ {
        "i64"@
    } else if s == "char"@ {
        "u8"@
    } else if s == "uint8_t"@ {
        "u8"@
    } else if s == "float"@ {
        "f32"@
    } else if s == "VkBool32"@ {
        "bool"@
    } else {
        s
    }
}

/// Every C scalar type becomes the Rust primitive of the same width,
/// signedness and kind (integer or floating point).
pub proof fn lemma_translate_types_keeps_scalars(t: Seq<char>)
    requires
        c_scalar(t) is Some,
    ensures
        rust_scalar(spec_translate_types(t)) == c_scalar(t),
{
    reveal_strlit("void");
    reveal_strlit("c_void");
    reveal_strlit("uint8_t");
    reveal_strlit("char");
    reveal_strlit("uint32_t");
    reveal_strlit("int32_t");
    reveal_strlit("int");
    reveal_strlit("uint64_t");
    reveal_strlit("int64_t");
    reveal_strlit("float");
    reveal_strlit("VkBool32");
    reveal_strlit("bool");
    reveal_strlit("u8");
    reveal_strlit("i8");
    reveal_strlit("u16");
    reveal_strlit("i16");
    reveal_strlit("u32");
    reveal_strlit("i32");
    reveal_strlit("u64");
    reveal_strlit("i64");
    reveal_strlit("f32");
    reveal_strlit("f64");
    assert("void"@.len() == 4);
    assert("c_void"@.len() == 6);
    assert("uint8_t"@.len() == 7);
    assert("char"@.len() == 4);
    assert("uint32_t"@.len() == 8);
    assert("int32_t"@.len() == 7);
    assert("int"@.len() == 3);
    assert("uint64_t"@.len() == 8);
    assert("int64_t"@.len() == 7);
    assert("float"@.len() == 5);
    assert("VkBool32"@.len() == 8);
    assert("u8"@.len() == 2);
    assert("i8"@.len() == 2);
    assert("u16"@.len() == 3);
    assert("i16"@.len() == 3);
    assert("u32"@.len() == 3);
    assert("i32"@.len() == 3);
    assert("u64"@.len() == 3);
    assert("i64"@.len() == 3);
    assert("f32"@.len() == 3);
    assert("f64"@.len() == 3);
    assert("void"@[0] == 'v');
    assert("uint8_t"@[0] == 'u');
    assert("char"@[0] == 'c');
    assert("uint32_t"@[0] == 'u');
    assert("uint32_t"@[4] == '3');
    assert("int32_t"@[0] == 'i');
    assert("int32_t"@[3] == '3');
    assert("int"@[0] == 'i');
    assert("int"@[1] == 'n');
    assert("uint64_t"@[0] == 'u');
    assert("uint64_t"@[4] == '6');
    assert("int64_t"@[0] == 'i');
    assert("int64_t"@[3] == '6');
    assert("VkBool32"@[0] == 'V');
    assert("u8"@[0] == 'u');
    assert("i8"@[0] == 'i');
    assert("u16"@[0] == 'u');
    assert("u16"@[1] == '1');
    assert("i16"@[0] == 'i');
    assert("i16"@[1] == '1');
    assert("u32"@[0] == 'u');
    assert("u32"@[1] == '3');
    assert("i32"@[0] == 'i');
    assert("i32"@[1] == '3');
    assert("u64"@[0] == 'u');
    assert("u64"@[1] == '6');
    assert("i64"@[0] == 'i');
    assert("i64"@[1] == '6');
    assert("f32"@[0] == 'f');
    assert("f32"@[1] == '3');
    assert("f64"@[0] == 'f');
    assert("f64"@[1] == '6');
    if t == "uint8_t"@ {
        assert(spec_translate_types(t) == "u8"@);
    } else if t == "char"@ {
        assert(spec_translate_types(t) == "u8"@);
    } else if t == "uint32_t"@ {
        assert(spec_translate_types(t) == "u32"@);
    } else if t == "int32_t"@ {
        assert(spec_translate_types(t) == "i32"@);
    } else if t == "int"@ {
        assert(spec_translate_types(t) == "i32"@);
    } else if t == "uint64_t"@ {
        assert(spec_translate_types(t) == "u64"@);
    } else if t == "int64_t"@ {
        assert(spec_translate_types(t) == "i64"@);
    } else {
        assert(spec_translate_types(t) == "f32"@);
    }
}

/// The Rust spelling of a C type of the registry.
pub fn translate_types(original_type: String) -> (r: String)
    ensures
        r@ == spec_translate_types(original_type@),
{
    if same_text(original_type.as_str(), "void") {
        "c_void".to_owned()
    } else if same_text(original_type.as_str(), "uint32_t") {
        "u32".to_owned()
    } else if same_text(original_type.as_str(), "int32_t") {
        "i32".to_owned()
    } else if same_text(original_type.as_str(), "int") {
        "i32".to_owned()
    } else if same_text(original_type.as_str(), "uint64_t") {
        "u64".to_owned()
    } else if same_text(original_type.as_str(), "int64_t") {
        "i64".to_owned()
    } else if same_text(original_type.as_str(), "char") {
        "u8".to_owned()
    } else if same_text(original_type.as_str(), "uint8_t") {
        "u8".to_owned()
    } else if same_text(original_type.as_str(), "float") {
        "f32".to_owned()
    } else if same_text(original_type.as_str(), "VkBool32") {
        "bool".to_owned()
    } else {
        original_type
    }
}

/// What `translate_member_name` gives.
pub open spec fn spec_translate_member_name(s: Seq<char>) -> Seq<char> {
    if s == "type"@ {
        "_type"@
    } else {
        s
    }
}

/// A struct member name that is not a Rust keyword.
pub fn translate_member_name(original_name: String) -> (r: String)
    ensures
        r@ == spec_translate_member_name(original_name@),
{
    if same_text(original_name.as_str(), "type") {
        "_type".to_owned()
    } else {
        original_name
    }
}

/// What `translate_parameter_name` gives.
pub open spec fn spec_translate_parameter_name(s: Seq<char>) -> Seq<char> {
    if s == "type"@ {
        "_type"@
    } else {
        s
    }
}

/// A parameter name that is not a Rust keyword.
pub fn translate_parameter_name(original_name: String) -> (r: String)
    ensures
        r@ == spec_translate_parameter_name(original_name@),
{
    if same_text(original_name.as_str(), "type") {
        "_type".to_owned()
    } else {
        original_name
    }
}

/// What `translate_values` gives.
pub open spec fn spec_translate_values(s: Seq<char>) -> Seq<char> {
    if s == "1000.0f"@ {
        "1000.0"@
    } else if s == "(~0U)"@ {
        "std::usize::MAX"@
    } else if s == "(~0ULL)"@ {
        "std::u64::MAX"@
    } else if s == "(~0U-1)"@ {
        "std::usize::MAX - 1"@
    } else {
        s
    }
}

/// The Rust spelling of a C constant expression of the registry.
pub fn translate_values(original_value: String) -> (r: String)
    ensures
        r@ == spec_translate_values(original_value@),
{
    if same_text(original_value.as_str(), "1000.0f") {
        "1000.0".to_owned()
    } else if same_text(original_value.as_str(), "(~0U)") {
        "std::usize::MAX".to_owned()
    } else if same_text(original_value.as_str(), "(~0ULL)") {
        "std::u64::MAX".to_owned()
    } else if same_text(original_value.as_str(), "(~0U-1)") {
        "std::usize::MAX - 1".to_owned()
    } else {
        original_value
    }
}

} // verus!
