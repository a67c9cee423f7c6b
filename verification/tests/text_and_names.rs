use vkrust::legacy_translate;
use vkrust::text::{
    append, chars_of, contains, count_char_upto_two, last_array_size_exec, parse_i32, parse_u32, push_decimal,
    push_signed_decimal, push_without_vk, same_text, string_of, ARRAY_SIZE_PATTERN, TRAILING_DIGITS_PATTERN,
};
use vkrust::vkgen_translate::{
    c_wsi_types_to_cfg_var, c_wsi_types_to_rust_types, guess_type_from_name, translate_define,
    translate_member_name, translate_parameter_name, translate_types, translate_values,
};
use vkrust::xml::{attribute, attribute_or_empty, XmlTag};

fn cs(s: &str) -> Vec<char> {
    chars_of(s)
}

#[test]
fn characters_and_strings() {
    assert_eq!(cs("héllo"), vec!['h', 'é', 'l', 'l', 'o']);
    assert_eq!(string_of(&vec!['a', 'b']), "ab".to_string());
    assert!(same_text("abc", "abc"));
    assert!(!same_text("abc", "abd"));
    let mut out = "x".to_string();
    append(&mut out, "yz");
    assert_eq!(out, "xyz");
}

#[test]
fn searching_text() {
    assert!(contains(&cs("const char*"), &cs("const")));
    assert!(!contains(&cs("cons"), &cs("const")));
    assert!(contains(&cs("abc"), &cs("")));
    assert_eq!(count_char_upto_two(&cs("a"), '*'), 0);
    assert_eq!(count_char_upto_two(&cs("a*"), '*'), 1);
    assert_eq!(count_char_upto_two(&cs("a* const* *"), '*'), 2);
}

#[test]
fn decimal_text() {
    let mut out = String::new();
    push_decimal(&mut out, 0);
    out.push(' ');
    push_decimal(&mut out, 1000000001);
    out.push(' ');
    push_signed_decimal(&mut out, -42);
    out.push(' ');
    push_signed_decimal(&mut out, i64::MIN);
    assert_eq!(out, "0 1000000001 -42 -9223372036854775808");
}

#[test]
fn parsing_numbers() {
    assert_eq!(parse_u32(&cs("17")), Some(17));
    assert_eq!(parse_u32(&cs("+17")), Some(17));
    assert_eq!(parse_u32(&cs("4294967295")), Some(u32::MAX));
    assert_eq!(parse_u32(&cs("4294967296")), None);
    assert_eq!(parse_u32(&cs("-1")), None);
    assert_eq!(parse_u32(&cs("")), None);
    assert_eq!(parse_u32(&cs("+")), None);
    assert_eq!(parse_u32(&cs("1a")), None);
    assert_eq!(parse_i32(&cs("-5")), Some(-5));
    assert_eq!(parse_i32(&cs("-2147483648")), Some(i32::MIN));
    assert_eq!(parse_i32(&cs("2147483648")), None);
    assert_eq!(parse_i32(&cs("0x10")), None);
    for s in ["0", "+9", "-12", "123456", "99999999999", "", "-", "1.5"] {
        assert_eq!(parse_i32(&cs(s)), s.parse::<i32>().ok());
        assert_eq!(parse_u32(&cs(s)), s.parse::<u32>().ok());
    }
}

#[test]
fn array_sizes() {
    assert_eq!(ARRAY_SIZE_PATTERN, r"\[([0-9+])\]");
    assert_eq!(last_array_size_exec("[4]"), Some('4'));
    assert_eq!(last_array_size_exec("float matrix[2][3]"), Some('3'));
    assert_eq!(last_array_size_exec("[+]"), Some('+'));
    assert_eq!(last_array_size_exec("[16]"), None);
    assert_eq!(last_array_size_exec("[[4]]"), Some('4'));
    assert_eq!(last_array_size_exec("["), None);
}

#[test]
fn header_version_digits() {
    assert_eq!(TRAILING_DIGITS_PATTERN, "[0-9]+$");
    let d = ("VK_HEADER_VERSION".to_string(), "7".to_string());
    assert_eq!(translate_define(d), "\npub const VK_HEADER_VERSION: i32 = 7;");
    let d = ("VK_HEADER_VERSION".to_string(), "v1 version 2024".to_string());
    assert_eq!(translate_define(d), "\npub const VK_HEADER_VERSION: i32 = 2024;");
}

#[test]
fn removing_vk() {
    let mut out = String::new();
    push_without_vk(&mut out, &cs("vkCreateDebugReportCallbackEXT"));
    assert_eq!(out, "CreateDebugReportCallbackEXT");
    let mut out = String::new();
    push_without_vk(&mut out, &cs("vvkkvk"));
    assert_eq!(out, "vvkkvk".replace("vk", ""));
}

#[test]
fn attribute_lookup() {
    let t = XmlTag {
        name: "enum".to_string(),
        attributes: vec![
            ("name".to_string(), "A".to_string()),
            ("value".to_string(), "1".to_string()),
            ("name".to_string(), "B".to_string()),
        ],
    };
    assert_eq!(attribute(&t, "name"), Some("B".to_string()));
    assert_eq!(attribute(&t, "value"), Some("1".to_string()));
    assert_eq!(attribute(&t, "bitpos"), None);
    assert_eq!(attribute_or_empty(&t, "bitpos"), "".to_string());
}

#[test]
fn registry_name_translations() {
    assert_eq!(guess_type_from_name(&"VK_WHOLE_SIZE".to_string()), "u64");
    assert_eq!(guess_type_from_name(&"VK_LOD_CLAMP_NONE".to_string()), "f32");
    assert_eq!(guess_type_from_name(&"VK_TRUE".to_string()), "u32");
    assert_eq!(guess_type_from_name(&"VK_MAX_EXTENSION_NAME_SIZE".to_string()), "usize");
    assert_eq!(translate_types("uint32_t".to_string()), "u32");
    assert_eq!(translate_types("void".to_string()), "c_void");
    assert_eq!(translate_types("char".to_string()), "u8");
    assert_eq!(translate_types("VkBool32".to_string()), "VkBool32");
    assert_eq!(translate_types("VkDevice".to_string()), "VkDevice");
    assert_eq!(translate_member_name("type".to_string()), "_type");
    assert_eq!(translate_member_name("sType".to_string()), "sType");
    assert_eq!(translate_parameter_name("type".to_string()), "_type");
    assert_eq!(translate_values("(~0U)".to_string()), "::std::usize::MAX");
    assert_eq!(translate_values("(~0U-2)".to_string()), "::std::usize::MAX - 2");
    assert_eq!(translate_values("1000.0f".to_string()), "1000.0");
    assert_eq!(translate_values("256".to_string()), "256");
}

#[test]
fn window_system_types() {
    assert_eq!(c_wsi_types_to_cfg_var(&"xcb_window_t".to_string()), "xcb");
    assert_eq!(c_wsi_types_to_cfg_var(&"Display".to_string()), "");
    assert_eq!(c_wsi_types_to_rust_types(&"xcb_window_t".to_string()), "pub type xcb_window_t = u32;");
    assert_eq!(
        c_wsi_types_to_rust_types(&"xcb_connection_t".to_string()),
        "pub type xcb_connection_t = xcb::ffi::xcb_connection_t;"
    );
    assert_eq!(c_wsi_types_to_rust_types(&"Display".to_string()), "pub type Display = u64;");
}

#[test]
fn define_translations() {
    let d = ("VK_HEADER_VERSION".to_string(), "// Version of this file\n#define VK_HEADER_VERSION 68".to_string());
    assert_eq!(translate_define(d), "\npub const VK_HEADER_VERSION: i32 = 68;");
    assert_eq!(
        translate_define(("VK_NULL_HANDLE".to_string(), "#define VK_NULL_HANDLE 0".to_string())),
        "\npub const VK_NULL_HANDLE: u64 = 0;"
    );
    assert_eq!(
        translate_define(("ANativeWindow".to_string(), String::new())),
        "\npub type ANativeWindow = u64;"
    );
    assert_eq!(translate_define(("VK_MAKE_VERSION".to_string(), "x".to_string())), "");
}

#[test]
fn legacy_translations() {
    assert_eq!(legacy_translate::translate_types("VkBool32".to_string()), "bool");
    assert_eq!(legacy_translate::translate_types("int".to_string()), "i32");
    assert_eq!(legacy_translate::guess_type_from_name(&"VK_TRUE".to_string()), "usize");
    assert_eq!(legacy_translate::guess_type_from_name(&"VK_WHOLE_SIZE".to_string()), "u64");
    assert_eq!(legacy_translate::translate_values("(~0U)".to_string()), "std::usize::MAX");
    assert_eq!(legacy_translate::translate_values("(~0U-2)".to_string()), "(~0U-2)");
    assert_eq!(legacy_translate::translate_member_name("type".to_string()), "_type");
    assert_eq!(legacy_translate::translate_parameter_name("pName".to_string()), "pName");
}
