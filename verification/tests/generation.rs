use vkrust::legacy_gen::{legacy_generate, LEGACY_FLUFF};
use vkrust::vk_registry::{
    find_command, insert_command, BitflagsValueType, EnumDef, GenError,
};
use vkrust::vkgen_parse::read_registry;
use vkrust::legacy_gen::legacy_generate_from_xml;
use vkrust::vkgen_render::{generate, generate_from_xml, push_enum_named, FLUFF1, FLUFF2, INIT_HEAD};
use vkrust::xml::{XmlEvent, XmlTag};
use vkrust::xml_source::{decode_event, read_xml_events, RawXmlEvent, RawXmlTag, SourceError, XmlFailure};

fn tag(name: &str, attributes: &[(&str, &str)]) -> XmlTag {
    XmlTag {
        name: name.to_string(),
        attributes: attributes.iter().map(|(k, v)| (k.to_string(), v.to_string())).collect(),
    }
}

fn start(name: &str, attributes: &[(&str, &str)]) -> XmlEvent {
    XmlEvent::Start(tag(name, attributes))
}

fn empty(name: &str, attributes: &[(&str, &str)]) -> XmlEvent {
    XmlEvent::Empty(tag(name, attributes))
}

fn text(t: &str) -> XmlEvent {
    XmlEvent::Text(t.to_string())
}

fn end(name: &str) -> XmlEvent {
    XmlEvent::End(name.to_string())
}

/// `<name>text</name>` inside the current element.
fn named(element: &str, t: &str) -> Vec<XmlEvent> {
    vec![start(element, &[]), text(t), end(element)]
}

fn small_registry() -> Vec<XmlEvent> {
    let mut e = vec![start("registry", &[]), XmlEvent::Other];
    e.extend(named("comment", "Copyright"));
    e.push(start("types", &[]));
    e.push(empty("type", &[("requires", "X11/Xlib.h"), ("name", "Display")]));
    e.push(start("type", &[("category", "define")]));
    e.push(text("#define"));
    e.extend(named("name", "VK_HEADER_VERSION"));
    e.push(text("68"));
    e.push(end("type"));
    e.push(start("type", &[("category", "handle")]));
    e.extend(named("type", "VK_DEFINE_HANDLE"));
    e.extend(named("name", "VkInstance"));
    e.push(end("type"));
    e.push(start("type", &[("category", "struct"), ("name", "VkExtent2D")]));
    e.push(start("member", &[]));
    e.extend(named("type", "uint32_t"));
    e.extend(named("name", "width"));
    e.push(end("member"));
    e.push(end("type"));
    e.push(end("types"));
    e.push(start("enums", &[("name", "API Constants")]));
    e.push(empty("enum", &[("name", "VK_TRUE"), ("value", "1")]));
    e.push(end("enums"));
    e.push(start("enums", &[("name", "VkResult"), ("type", "enum")]));
    e.push(empty("enum", &[("name", "VK_SUCCESS"), ("value", "0")]));
    e.push(empty("enum", &[("name", "VK_ERROR"), ("value", "-1")]));
    e.push(end("enums"));
    e.push(start("enums", &[("name", "VkQueueFlagBits"), ("type", "bitmask")]));
    e.push(empty("enum", &[("name", "VK_QUEUE_GRAPHICS_BIT"), ("bitpos", "0")]));
    e.push(end("enums"));
    e.push(start("commands", &[]));
    e.push(start("command", &[]));
    e.push(start("proto", &[]));
    e.extend(named("type", "VkResult"));
    e.extend(named("name", "vkDeviceWaitIdle"));
    e.push(end("proto"));
    e.push(start("param", &[]));
    e.extend(named("type", "VkDevice"));
    e.extend(named("name", "device"));
    e.push(end("param"));
    e.push(end("command"));
    e.push(end("commands"));
    e.push(start("feature", &[]));
    e.push(start("require", &[("comment", "Device commands")]));
    e.push(empty("command", &[("name", "vkDeviceWaitIdle")]));
    e.push(end("require"));
    e.push(end("feature"));
    e.push(start("extensions", &[]));
    e.push(start("extension", &[("name", "VK_KHR_x"), ("number", "2"), ("supported", "vulkan")]));
    e.push(start("require", &[]));
    e.push(empty("enum", &[("offset", "0"), ("extends", "VkResult"), ("name", "VK_X"), ("dir", "-")]));
    e.push(empty("command", &[("name", "vkDeviceWaitIdle")]));
    e.push(end("require"));
    e.push(end("extension"));
    e.push(end("extensions"));
    e.push(end("registry"));
    e
}

#[test]
fn reads_the_registry() {
    let r = read_registry(&small_registry()).unwrap();
    assert_eq!(r.comments, vec!["Copyright".to_string()]);
    assert_eq!(r.api_constants, vec![("VK_TRUE".to_string(), "1".to_string())]);
    assert_eq!(r.types, vec!["Display".to_string()]);
    assert_eq!(r.handle_types, vec!["VkInstance".to_string()]);
    assert_eq!(r.define_types, vec![("VK_HEADER_VERSION".to_string(), "#define68".to_string())]);
    assert_eq!(r.enums.len(), 1);
    assert_eq!(r.enums[0].values, vec![("VK_SUCCESS".to_string(), 0), ("VK_ERROR".to_string(), -1)]);
    assert_eq!(r.bitflags[0].values, vec![("VK_QUEUE_GRAPHICS_BIT".to_string(), BitflagsValueType::Bitpos(0))]);
    assert_eq!(r.structs, vec![("VkExtent2D".to_string(), "\tpub width:  u32,\n".to_string(), false)]);
    assert_eq!(
        r.commands,
        vec![("vkDeviceWaitIdle".to_string(), ("device:  VkDevice, ".to_string(), "VkResult".to_string()))]
    );
    assert_eq!(r.extensions[0].number, 2);
    assert_eq!(r.extensions[0].types.len(), 2);
}

#[test]
fn generates_the_rust_source() {
    let out = generate(&small_registry()).unwrap();
    let mut expected = String::new();
    expected.push_str("/*\nCopyright\n*/\n");
    expected.push_str(FLUFF1);
    expected.push_str("\n");
    expected.push_str("\npub const VK_HEADER_VERSION: i32 = 68;");
    expected.push_str(FLUFF2);
    expected.push_str("\n");
    expected.push_str("pub const VK_TRUE: u32 = 1;\n");
    expected.push_str("#[allow(non_camel_case_types)]\npub type Display = u64;\n");
    expected.push_str("#[allow(non_camel_case_types)]\npub type VkInstance = u64;\n");
    expected.push_str("#[allow(non_camel_case_types)]\n#[derive(Copy, Clone, PartialEq, Debug)]\n#[repr(C)]\npub enum VkResult {\n");
    expected.push_str("\tVK_SUCCESS = 0,\n\tVK_ERROR = -1,\n");
    expected.push_str("\n\t// VK_KHR_x\n\n#[cfg(feature = \"VK_KHR_x\")]\n\tVK_X = -1000001000,\n");
    expected.push_str("\tVK_RESULT_MAX_ENUM = 0x7FFFFFFF\n}\n\n");
    expected.push_str("bitflags! {\n#[repr(C)]\n\tpub struct VkQueueFlagBits: u32 {\n\t\tconst _EMPTY = 0;\n");
    expected.push_str("\t\tconst VK_QUEUE_GRAPHICS_BIT = 0b00000000000000000000000000000001;\n\t}\n}\n\n");
    expected.push_str("#[derive(Debug, Copy, Clone)]\n#[repr(C)]\npub struct VkExtent2D {\n\tpub width:  u32,\n\n}\n");
    expected.push_str("#[link(name = \"vulkan\")]\nextern {\n");
    expected.push_str("\n\t// Device commands\n\tpub fn vkDeviceWaitIdle(device:  VkDevice, ) -> VkResult;\n}\n");
    expected.push_str("\n\t// Extensions\n\tpub struct VulkanFunctionPointers {\n");
    expected.push_str("\n\t\t// VK_KHR_x\n\n#[cfg(feature = \"VK_KHR_x\")]\n");
    expected.push_str("\t\tpub DeviceWaitIdle: Option<extern \"C\" fn(device:  VkDevice, ) -> VkResult>,\n");
    expected.push_str(INIT_HEAD);
    expected.push_str("\n\t\t\t// VK_KHR_x\n\n#[cfg(feature = \"VK_KHR_x\")]\n");
    expected.push_str("\t\t\tDeviceWaitIdle: unsafe { mem::transmute::<*const c_void,Option<extern \"C\" fn(device:  VkDevice, ) -> VkResult>>(vkGetInstanceProcAddr(instance, \"vkDeviceWaitIdle\\0\".as_ptr())) },\n");
    expected.push_str("}\n\t\t}\n\t}\n");
    assert_eq!(out, expected);
}

#[test]
fn output_pieces_are_fixed() {
    assert!(FLUFF1.starts_with("\n#![allow(non_snake_case)]"));
    assert!(FLUFF2.contains("pub type VkBool32 = u32;"));
    assert!(INIT_HEAD.starts_with("\t}\n\n\timpl VulkanFunctionPointers {"));
    assert!(INIT_HEAD.ends_with("\t\t\tVulkanFunctionPointers {\n"));
}

#[test]
fn enum_names_its_max_value() {
    let e = EnumDef { name: "VkImageLayout".to_string(), values: vec![("VK_IMAGE_LAYOUT_UNDEFINED".to_string(), 0)] };
    let mut out = String::new();
    push_enum_named(&mut out, &e, &vec![], "VK_IMAGE_LAYOUT");
    assert_eq!(
        out,
        "#[allow(non_camel_case_types)]\n#[derive(Copy, Clone, PartialEq, Debug)]\n#[repr(C)]\npub enum VkImageLayout {\n\tVK_IMAGE_LAYOUT_UNDEFINED = 0,\n\tVK_IMAGE_LAYOUT_MAX_ENUM = 0x7FFFFFFF\n}\n\n"
    );
}

#[test]
fn screaming_snake_case_of_enum_names() {
    let events = vec![
        start("registry", &[]),
        start("comment", &[]),
        text("c"),
        end("comment"),
        start("enums", &[("name", "VkPhysicalDeviceType"), ("type", "enum")]),
        end("enums"),
        end("registry"),
    ];
    let out = generate(&events).unwrap();
    assert!(out.contains("pub enum VkPhysicalDeviceType {\n\tVK_PHYSICAL_DEVICE_TYPE_MAX_ENUM = 0x7FFFFFFF\n}\n\n"));
}

#[test]
fn disabled_extensions_add_nothing() {
    let mut events = vec![start("registry", &[])];
    events.extend(named("comment", "c"));
    events.push(start("enums", &[("name", "VkResult"), ("type", "enum")]));
    events.push(end("enums"));
    events.push(start("extensions", &[]));
    events.push(start("extension", &[("name", "VK_off"), ("number", "9"), ("supported", "disabled")]));
    events.push(start("require", &[]));
    events.push(empty("enum", &[("offset", "1"), ("extends", "VkResult"), ("name", "VK_OFF")]));
    events.push(end("require"));
    events.push(end("extension"));
    events.push(end("extensions"));
    events.push(end("registry"));
    let out = generate(&events).unwrap();
    assert!(!out.contains("VK_OFF"));
    assert!(out.contains("pub enum VkResult {\n\tVK_RESULT_MAX_ENUM"));
}

#[test]
fn element_before_registry_fails() {
    let events = vec![start("enums", &[("name", "VkResult"), ("type", "enum")])];
    assert_eq!(generate(&events), Err(GenError::EmptyElementStack));
    assert_eq!(legacy_generate(&events), Err(GenError::EmptyElementStack));
}

#[test]
fn registry_without_comment_fails() {
    let events = vec![start("registry", &[]), end("registry")];
    assert_eq!(generate(&events), Err(GenError::NoComment));
}

#[test]
fn bad_enum_value_fails() {
    let events = vec![
        start("registry", &[]),
        start("enums", &[("name", "VkResult"), ("type", "enum")]),
        empty("enum", &[("name", "VK_A"), ("value", "0x10")]),
    ];
    assert_eq!(generate(&events), Err(GenError::BadNumber));
}

#[test]
fn enum_value_without_enum_fails() {
    let events = vec![
        start("registry", &[]),
        start("enums", &[("name", "VkSomething")]),
        empty("enum", &[("name", "VK_A"), ("value", "1")]),
    ];
    assert_eq!(generate(&events), Err(GenError::NoOpenBlock));
}

#[test]
fn oversized_extension_number_fails() {
    let mut events = vec![start("registry", &[])];
    events.extend(named("comment", "c"));
    events.push(start("enums", &[("name", "VkResult"), ("type", "enum")]));
    events.push(end("enums"));
    events.push(start("extensions", &[]));
    events.push(start("extension", &[("name", "VK_big"), ("number", "4000000"), ("supported", "vulkan")]));
    events.push(start("require", &[]));
    events.push(empty("enum", &[("offset", "0"), ("extends", "VkResult"), ("name", "VK_BIG")]));
    events.push(end("require"));
    events.push(end("extension"));
    events.push(end("extensions"));
    events.push(end("registry"));
    assert_eq!(generate(&events), Err(GenError::NumberOverflow));
}

#[test]
fn header_version_without_digits_fails() {
    let mut events = vec![start("registry", &[])];
    events.extend(named("comment", "c"));
    events.push(start("types", &[]));
    events.push(start("type", &[("category", "define")]));
    events.extend(named("name", "VK_HEADER_VERSION"));
    events.push(text("none"));
    events.push(end("type"));
    events.push(end("types"));
    events.push(end("registry"));
    assert_eq!(generate(&events), Err(GenError::NoHeaderVersionDigits));
}

#[test]
fn commands_are_set_and_found() {
    let mut commands = Vec::new();
    insert_command(&mut commands, "vkA".to_string(), ("a: u32, ".to_string(), "()".to_string()));
    insert_command(&mut commands, "vkB".to_string(), ("".to_string(), "VkResult".to_string()));
    insert_command(&mut commands, "vkA".to_string(), ("".to_string(), "u32".to_string()));
    assert_eq!(commands.len(), 2);
    assert_eq!(find_command(&commands, &"vkA".to_string()), Some(&("".to_string(), "u32".to_string())));
    assert_eq!(find_command(&commands, &"vkB".to_string()).unwrap().1, "VkResult");
    assert_eq!(find_command(&commands, &"vkC".to_string()), None);
}

#[test]
fn legacy_generator_output() {
    let events = vec![
        start("registry", &[]),
        start("enums", &[("name", "API Constants")]),
        empty("enum", &[("name", "VK_WHOLE_SIZE"), ("value", "(~0ULL)")]),
        end("enums"),
        start("enums", &[("name", "VkResult"), ("type", "enum")]),
        empty("enum", &[("name", "VK_SUCCESS"), ("value", "0")]),
        end("enums"),
        start("enums", &[("name", "VkFlags"), ("type", "bitmask")]),
        empty("enum", &[("name", "VK_A_BIT"), ("bitpos", "1")]),
        empty("enum", &[("name", "VK_B"), ("value", "3")]),
        end("enums"),
        end("registry"),
    ];
    let mut expected = String::new();
    expected.push_str(LEGACY_FLUFF);
    expected.push_str("\n");
    expected.push_str("const VK_WHOLE_SIZE: u64 = std::u64::MAX;\n");
    expected.push_str("#[repr(i32)]\nenum VkResult {\n\tVK_SUCCESS = 0,\n\n}\n\n");
    expected.push_str("bitflags! {\n\tstruct VkFlags: u32 {\n");
    expected.push_str("\t\tconst VK_A_BIT = 0b00000000000000000000000000000010;\n\t\tconst VK_B = 3;\n\n\t}\n}\n\n");
    expected.push_str("#[link(name = \"vulkan\")]\nextern {\n}\n");
    assert_eq!(legacy_generate(&events), Ok(expected));
}

#[test]
fn legacy_bad_bitpos_fails() {
    let events = vec![
        start("registry", &[]),
        start("enums", &[("name", "VkFlags"), ("type", "bitmask")]),
        empty("enum", &[("name", "VK_A_BIT"), ("bitpos", "x")]),
    ];
    assert_eq!(legacy_generate(&events), Err(GenError::BadNumber));
}

const SMALL_REGISTRY_XML: &str = r#"<?xml version="1.0" encoding="UTF-8"?>
<registry>
    <comment>Copyright</comment>
    <types>
        <type requires="X11/Xlib.h" name="Display"/>
        <type category="define">#define <name>VK_HEADER_VERSION</name> 68</type>
        <type category="handle"><type>VK_DEFINE_HANDLE</type><name>VkInstance</name></type>
        <type category="struct" name="VkExtent2D">
            <member><type>uint32_t</type> <name>width</name></member>
        </type>
    </types>
    <enums name="API Constants">
        <enum name="VK_TRUE" value="1"/>
    </enums>
    <enums name="VkResult" type="enum">
        <enum name="VK_SUCCESS" value="0"/>
        <enum name="VK_ERROR" value="-1"/>
    </enums>
    <enums name="VkQueueFlagBits" type="bitmask">
        <enum name="VK_QUEUE_GRAPHICS_BIT" bitpos="0"/>
    </enums>
    <commands>
        <command>
            <proto><type>VkResult</type> <name>vkDeviceWaitIdle</name></proto>
            <param><type>VkDevice</type> <name>device</name></param>
        </command>
    </commands>
    <feature>
        <require comment="Device commands">
            <command name="vkDeviceWaitIdle"/>
        </require>
    </feature>
    <extensions>
        <extension name="VK_KHR_x" number="2" supported="vulkan">
            <require>
                <enum offset="0" extends="VkResult" name="VK_X" dir="-"/>
                <command name="vkDeviceWaitIdle"/>
            </require>
        </extension>
    </extensions>
</registry>
"#;

#[test]
fn reads_xml_text_into_events() {
    let (events, failure) =
        read_xml_events("<registry><comment>C &amp; D</comment><enums name=\"A\" x=\"&lt;\"><enum value=\"1\"/></enums><!-- c --></registry>");
    assert!(failure.is_none());
    assert_eq!(
        events,
        vec![
            start("registry", &[]),
            start("comment", &[]),
            text("C & D"),
            end("comment"),
            start("enums", &[("name", "A"), ("x", "&lt;")]),
            empty("enum", &[("value", "1")]),
            end("enums"),
            XmlEvent::Other,
            end("registry"),
        ]
    );
}

#[test]
fn generating_from_text_matches_generating_from_events() {
    let from_text = generate_from_xml(SMALL_REGISTRY_XML).unwrap();
    assert_eq!(from_text, generate(&small_registry()).unwrap());
}

#[test]
fn malformed_xml_is_reported() {
    let (events, failure) = read_xml_events("<registry><comment>c</comment></regis>");
    assert_eq!(events.len(), 4);
    assert_eq!(failure.unwrap().failure, XmlFailure::Malformed);
    match generate_from_xml("<registry><comment>c</comment></regis>") {
        Err(SourceError::Xml(e)) => assert_eq!(e.failure, XmlFailure::Malformed),
        other => panic!("unexpected {:?}", other),
    }
}

#[test]
fn unknown_entity_is_undecodable() {
    let (events, failure) = read_xml_events("<registry><comment>a &bogus; b</comment></registry>");
    assert_eq!(events, vec![start("registry", &[]), start("comment", &[])]);
    assert_eq!(failure.unwrap().failure, XmlFailure::Undecodable);
}

#[test]
fn generator_errors_come_before_later_xml_errors() {
    let r = generate_from_xml("<enums name=\"A\" type=\"enum\"></enums></oops>");
    assert_eq!(r, Err(SourceError::Gen(GenError::EmptyElementStack)));
    let r = legacy_generate_from_xml("<enums name=\"A\" type=\"enum\"></enums></oops>");
    assert_eq!(r, Err(SourceError::Gen(GenError::EmptyElementStack)));
}

#[test]
fn legacy_generator_from_text() {
    let out = legacy_generate_from_xml(
        "<registry><enums name=\"VkResult\" type=\"enum\"><enum name=\"VK_SUCCESS\" value=\"0\"/></enums></registry>",
    )
    .unwrap();
    assert!(out.starts_with(LEGACY_FLUFF));
    assert!(out.ends_with("#[repr(i32)]\nenum VkResult {\n\tVK_SUCCESS = 0,\n\n}\n\n#[link(name = \"vulkan\")]\nextern {\n}\n"));
}

#[test]
fn array_members_take_their_sizes() {
    let xml = "<registry><types><type category=\"struct\" name=\"S\">\
        <member><type>float</type> <name>m</name>[4]</member>\
        <member>const <type>char</type>* <name>pName</name></member>\
        <member><type>char</type> <name>deviceName</name>[<enum>VK_MAX</enum>]</member>\
        </type></types></registry>";
    let (events, failure) = read_xml_events(xml);
    assert!(failure.is_none());
    let r = read_registry(&events).unwrap();
    assert_eq!(
        r.structs,
        vec![(
            "S".to_string(),
            "\tpub m: [ f32; 4],\n\tpub pName: *const u8,\n\tpub deviceName: [ u8; VK_MAX],\n".to_string(),
            true
        )]
    );
}

#[test]
fn empty_element_with_undecodable_name_is_passed_on() {
    let raw = RawXmlEvent::Empty(RawXmlTag { name: vec![0xFF], attributes: vec![(b"a".to_vec(), b"1".to_vec())] });
    assert_eq!(decode_event(&raw), Some(XmlEvent::Other));
    let raw = RawXmlEvent::Empty(RawXmlTag { name: vec![0xFF], attributes: vec![(b"a".to_vec(), vec![0xFF])] });
    assert_eq!(decode_event(&raw), None);
    let raw = RawXmlEvent::Start(RawXmlTag { name: vec![0xFF], attributes: vec![] });
    assert_eq!(decode_event(&raw), None);
}
