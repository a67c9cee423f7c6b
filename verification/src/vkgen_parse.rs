//! The event-driven reader of the Vulkan registry: from the XML events of
//! `vk.xml` to the `Registry` that the generator writes out.

use vstd::prelude::*;
use crate::text::{
    chars_of, contains, contains_text, count_char, count_char_upto_two, last_array_size, last_array_size_exec,
    parse_i32, parse_i32_spec, parse_u32, parse_u32_spec, push_char, same_text, append,
};
use crate::xml::{attr_get, attr_or_empty, attribute, attribute_or_empty, opt_view, XmlEvent, XmlEventView, XmlTag, XmlTagView};
use crate::vk_registry::{
    command_insert, commands_view, insert_command, BitflagsDef, BitflagsDefView, BitflagsValueType,
    BitflagsValueTypeView, Declarator, DeclaratorView, EnumDef, EnumDefView, Extension, ExtensionNewType,
    ExtensionNewTypeView, ExtensionView, FeatureBlock, FeatureBlockView, FeatureContent, FeatureContentView,
    GenError, Registry, RegistryView, texts_view, pairs_view, flag_values_view, enum_values_view, contents_view,
    ext_types_view, structs_view, enums_view, bitflags_view, features_view, extensions_view,
};
use crate::vkgen_translate::{
    spec_translate_member_name, spec_translate_parameter_name, spec_translate_types, translate_member_name,
    translate_parameter_name, translate_types,
};

verus! {

/// The reader's state between events.
#[derive(Debug, Clone, PartialEq, Eq)]
pub struct RegistryParser {
    /// The names of the open elements, innermost last.
    pub matching_what: Vec<String>,
    pub function_name: String,
    pub return_value: String,
    pub enum_type_bitmask: bool,
    pub param: Declarator,
    /// The parameter list of the command being read.
    pub parameters: String,
    pub struct_name: String,
    pub member: Declarator,
    /// The member lines of the struct being read.
    pub struct_members: String,
    pub struct_contains_arrays: bool,
    pub enum_name: String,
    pub matching_api_constants: bool,
    pub type_category: String,
    pub tname: String,
    pub type_requires: String,
    pub define_type_value: String,
    pub require_feature: String,
    pub registry: Registry,
}

/// The mathematical value of the reader's state.
#[verifier::ext_equal]
pub struct ParserView {
    pub stack: Seq<Seq<char>>,
    pub function_name: Seq<char>,
    pub return_value: Seq<char>,
    pub enum_type_bitmask: bool,
    pub param: DeclaratorView,
    pub parameters: Seq<char>,
    pub struct_name: Seq<char>,
    pub member: DeclaratorView,
    pub struct_members: Seq<char>,
    pub struct_contains_arrays: bool,
    pub enum_name: Seq<char>,
    pub matching_api_constants: bool,
    pub type_category: Seq<char>,
    pub tname: Seq<char>,
    pub type_requires: Seq<char>,
    pub define_type_value: Seq<char>,
    pub require_feature: Seq<char>,
    pub registry: RegistryView,
}

impl View for RegistryParser {
    type V = ParserView;

    open spec fn view(&self) -> ParserView {
        ParserView {
            stack: texts_view(self.matching_what@),
            function_name: self.function_name@,
            return_value: self.return_value@,
            enum_type_bitmask: self.enum_type_bitmask,
            param: self.param@,
            parameters: self.parameters@,
            struct_name: self.struct_name@,
            member: self.member@,
            struct_members: self.struct_members@,
            struct_contains_arrays: self.struct_contains_arrays,
            enum_name: self.enum_name@,
            matching_api_constants: self.matching_api_constants,
            type_category: self.type_category@,
            tname: self.tname@,
            type_requires: self.type_requires@,
            define_type_value: self.define_type_value@,
            require_feature: self.require_feature@,
            registry: self.registry@,
        }
    }
}

// ---------------------------------------------------------------------------
// The transitions, stated on views.
// ---------------------------------------------------------------------------

/// The innermost open element.
pub open spec fn top(p: ParserView) -> Seq<char> {
    p.stack.last()
}

/// The element that encloses the innermost one.
pub open spec fn second(p: ParserView) -> Seq<char> {
    p.stack[p.stack.len() - 2]
}

/// `<enums>` directly in `<registry>`: a new enum, a new flag set, or the API
/// constants.
pub open spec fn start_enums(p: ParserView, a: Seq<(Seq<char>, Seq<char>)>) -> ParserView {
    let etype = attr_or_empty(a, "type"@);
    let enum_name = match attr_get(a, "name"@) {
        Some(n) => n,
        None => p.enum_name,
    };
    let q = ParserView { enum_name, ..p };
    if etype == "enum"@ {
        ParserView {
            enum_type_bitmask: false,
            registry: RegistryView {
                enums: q.registry.enums.push(EnumDefView { name: enum_name, values: Seq::empty() }),
                ..q.registry
            },
            ..q
        }
    } else if etype == "bitmask"@ {
        ParserView {
            enum_type_bitmask: true,
            registry: RegistryView {
                bitflags: q.registry.bitflags.push(BitflagsDefView { name: enum_name, values: Seq::empty() }),
                ..q.registry
            },
            ..q
        }
    } else if enum_name == "API Constants"@ {
        ParserView { matching_api_constants: true, ..q }
    } else {
        q
    }
}

/// `<member>` in a `<type>`: its declarator flags start cleared.
pub open spec fn start_member(p: ParserView) -> ParserView {
    ParserView {
        member: DeclaratorView {
            is_const: false,
            ptr: false,
            ptr_ptr: false,
            array: false,
            array_size: Seq::empty(),
            ..p.member
        },
        ..p
    }
}

/// `<type>` in `<types>`: its category, what it requires, and the struct name.
pub open spec fn start_type(p: ParserView, a: Seq<(Seq<char>, Seq<char>)>) -> ParserView {
    let category = match attr_get(a, "category"@) {
        Some(c) => c,
        None => p.type_category,
    };
    let struct_name = if category == "struct"@ {
        match attr_get(a, "name"@) {
            Some(n) => n,
            None => p.struct_name,
        }
    } else {
        p.struct_name
    };
    ParserView { type_category: category, type_requires: attr_or_empty(a, "requires"@), struct_name, ..p }
}

/// `<require>`: a feature block when it is in a `<feature>` and has a comment,
/// and the feature it depends on.
pub open spec fn start_require(p: ParserView, a: Seq<(Seq<char>, Seq<char>)>) -> ParserView {
    let q = if top(p) == "feature"@ {
        match attr_get(a, "comment"@) {
            Some(c) => ParserView {
                registry: RegistryView {
                    features: p.registry.features.push(FeatureBlockView { comment: c, contents: Seq::empty() }),
                    ..p.registry
                },
                ..p
            },
            None => p,
        }
    } else {
        p
    };
    ParserView { require_feature: attr_or_empty(a, "feature"@), ..q }
}

/// `<extension>` in `<extensions>`: a new extension when it has a name, a
/// number and a support list.
pub open spec fn start_extension(p: ParserView, a: Seq<(Seq<char>, Seq<char>)>) -> Result<ParserView, GenError> {
    match (attr_get(a, "name"@), attr_get(a, "number"@), attr_get(a, "supported"@)) {
        (Some(name), Some(number), Some(supported)) => match parse_u32_spec(number) {
            None => Err(GenError::BadNumber),
            Some(n) => Ok(
                ParserView {
                    registry: RegistryView {
                        extensions: p.registry.extensions.push(
                            ExtensionView {
                                name,
                                number: n,
                                extension_type: attr_or_empty(a, "type"@),
                                author: attr_or_empty(a, "author"@),
                                contact: attr_or_empty(a, "contact"@),
                                supported,
                                types: Seq::empty(),
                            },
                        ),
                        ..p.registry
                    },
                    ..p
                },
            ),
        },
        _ => Ok(p),
    }
}

/// An opening tag, before its name is pushed on the stack.
pub open spec fn start_body(p: ParserView, t: XmlTagView) -> Result<ParserView, GenError> {
    let n = t.name;
    let a = t.attributes;
    if n == "enums"@ || n == "member"@ || n == "type"@ || n == "require"@ || n == "extension"@ {
        if p.stack.len() == 0 {
            Err(GenError::EmptyElementStack)
        } else if n == "enums"@ {
            Ok(if top(p) == "registry"@ { start_enums(p, a) } else { p })
        } else if n == "member"@ {
            Ok(if top(p) == "type"@ { start_member(p) } else { p })
        } else if n == "type"@ {
            Ok(if top(p) == "types"@ { start_type(p, a) } else { p })
        } else if n == "require"@ {
            Ok(start_require(p, a))
        } else if top(p) == "extensions"@ {
            start_extension(p, a)
        } else {
            Ok(p)
        }
    } else {
        Ok(p)
    }
}

/// An opening tag.
pub open spec fn spec_start(p: ParserView, t: XmlTagView) -> Result<ParserView, GenError> {
    match start_body(p, t) {
        Ok(q) => Ok(ParserView { stack: q.stack.push(t.name), ..q }),
        Err(e) => Err(e),
    }
}

/// The value of an `<enum/>`: its `value`, else its `alias`.
pub open spec fn enum_value_text(a: Seq<(Seq<char>, Seq<char>)>) -> Seq<char> {
    match attr_get(a, "value"@) {
        Some(v) => v,
        None => attr_or_empty(a, "alias"@),
    }
}

/// The registry with the last flag set given one more value.
pub open spec fn push_flag(r: RegistryView, v: (Seq<char>, BitflagsValueTypeView)) -> RegistryView {
    let last = r.bitflags.last();
    RegistryView {
        bitflags: r.bitflags.update(
            r.bitflags.len() - 1,
            BitflagsDefView { values: last.values.push(v), ..last },
        ),
        ..r
    }
}

/// The registry with the last enum given one more value.
pub open spec fn push_enum_value(r: RegistryView, v: (Seq<char>, i32)) -> RegistryView {
    let last = r.enums.last();
    RegistryView { enums: r.enums.update(r.enums.len() - 1, EnumDefView { values: last.values.push(v), ..last }), ..r }
}

/// The registry with the last feature block given one more item.
pub open spec fn push_feature_content(r: RegistryView, c: FeatureContentView) -> RegistryView {
    let last = r.features.last();
    RegistryView {
        features: r.features.update(
            r.features.len() - 1,
            FeatureBlockView { contents: last.contents.push(c), ..last },
        ),
        ..r
    }
}

/// The registry with the last extension given one more item.
pub open spec fn push_extension_item(r: RegistryView, t: ExtensionNewTypeView) -> RegistryView {
    let last = r.extensions.last();
    RegistryView {
        extensions: r.extensions.update(r.extensions.len() - 1, ExtensionView { types: last.types.push(t), ..last }),
        ..r
    }
}

/// An `<enum/>` in `<enums>`: an API constant, a flag or an enum value.
pub open spec fn empty_enum_in_enums(p: ParserView, a: Seq<(Seq<char>, Seq<char>)>) -> Result<ParserView, GenError> {
    let name = attr_or_empty(a, "name"@);
    let value = enum_value_text(a);
    let bitpos = attr_or_empty(a, "bitpos"@);
    if p.matching_api_constants {
        Ok(
            ParserView {
                registry: RegistryView { api_constants: p.registry.api_constants.push((name, value)), ..p.registry },
                ..p
            },
        )
    } else if p.enum_type_bitmask {
        if p.registry.bitflags.len() == 0 {
            Err(GenError::NoOpenBlock)
        } else if bitpos.len() > 0 {
            match parse_u32_spec(bitpos) {
                None => Err(GenError::BadNumber),
                Some(b) => Ok(
                    ParserView { registry: push_flag(p.registry, (name, BitflagsValueTypeView::Bitpos(b))), ..p },
                ),
            }
        } else {
            Ok(ParserView { registry: push_flag(p.registry, (name, BitflagsValueTypeView::Value(value))), ..p })
        }
    } else if p.registry.enums.len() == 0 {
        Err(GenError::NoOpenBlock)
    } else {
        match parse_i32_spec(value) {
            None => Err(GenError::BadNumber),
            Some(v) => Ok(ParserView { registry: push_enum_value(p.registry, (name, v)), ..p }),
        }
    }
}

/// An `<enum/>` that an extension adds: a flag bit or an enum value offset.
pub open spec fn empty_enum_in_extension(p: ParserView, a: Seq<(Seq<char>, Seq<char>)>) -> Result<ParserView, GenError> {
    let name = attr_or_empty(a, "name"@);
    let extends = attr_or_empty(a, "extends"@);
    let comment = attr_or_empty(a, "comment"@);
    match attr_get(a, "bitpos"@) {
        Some(bp) => if p.registry.extensions.len() == 0 {
            Err(GenError::NoOpenBlock)
        } else {
            match parse_u32_spec(bp) {
                None => Err(GenError::BadNumber),
                Some(b) => Ok(
                    ParserView {
                        registry: push_extension_item(
                            p.registry,
                            ExtensionNewTypeView::BitflagsExtension { name, bitpos: b, extends, comment },
                        ),
                        ..p
                    },
                ),
            }
        },
        None => match attr_get(a, "offset"@) {
            Some(off) => {
                let dir = attr_or_empty(a, "dir"@);
                if p.registry.extensions.len() == 0 {
                    Err(GenError::NoOpenBlock)
                } else {
                    match parse_u32_spec(off) {
                        None => Err(GenError::BadNumber),
                        Some(o) => Ok(
                            ParserView {
                                registry: push_extension_item(
                                    p.registry,
                                    ExtensionNewTypeView::EnumExtension { name, offset: o, extends, comment, dir },
                                ),
                                ..p
                            },
                        ),
                    }
                }
            },
            None => Ok(p),
        },
    }
}

/// An item of a feature block.
pub open spec fn feature_item(p: ParserView, c: FeatureContentView) -> Result<ParserView, GenError> {
    if p.registry.features.len() == 0 {
        Err(GenError::NoOpenBlock)
    } else {
        Ok(ParserView { registry: push_feature_content(p.registry, c), ..p })
    }
}

/// A named item of an extension, when it has a name.
pub open spec fn extension_named_item(
    p: ParserView,
    a: Seq<(Seq<char>, Seq<char>)>,
    is_command: bool,
) -> Result<ParserView, GenError> {
    match attr_get(a, "name"@) {
        Some(n) => if p.registry.extensions.len() == 0 {
            Err(GenError::NoOpenBlock)
        } else {
            let t = if is_command { ExtensionNewTypeView::Command(n) } else { ExtensionNewTypeView::Type(n) };
            Ok(ParserView { registry: push_extension_item(p.registry, t), ..p })
        },
        None => Ok(p),
    }
}

/// An empty element, when no feature dependency is pending.
pub open spec fn empty_body(p: ParserView, t: XmlTagView) -> Result<ParserView, GenError> {
    let n = t.name;
    let a = t.attributes;
    let name = attr_or_empty(a, "name"@);
    if p.stack.len() == 0 {
        Err(GenError::EmptyElementStack)
    } else if n == "enum"@ && top(p) == "enums"@ {
        empty_enum_in_enums(p, a)
    } else if n == "type"@ && top(p) == "types"@ {
        Ok(
            if attr_get(a, "requires"@) is Some {
                ParserView { registry: RegistryView { types: p.registry.types.push(name), ..p.registry }, ..p }
            } else {
                p
            },
        )
    } else if top(p) != "require"@ {
        Ok(p)
    } else if p.stack.len() < 2 {
        Err(GenError::EmptyElementStack)
    } else if second(p) == "feature"@ {
        if n == "enum"@ {
            feature_item(p, FeatureContentView::Enum(name))
        } else if n == "type"@ {
            feature_item(p, FeatureContentView::Type(name))
        } else {
            feature_item(p, FeatureContentView::Command(name))
        }
    } else if second(p) == "extension"@ {
        if n == "enum"@ {
            empty_enum_in_extension(p, a)
        } else {
            extension_named_item(p, a, n == "command"@)
        }
    } else {
        Ok(p)
    }
}

/// An empty element.
pub open spec fn spec_empty(p: ParserView, t: XmlTagView) -> Result<ParserView, GenError> {
    if (t.name == "enum"@ || t.name == "type"@ || t.name == "command"@) && p.require_feature.len() == 0 {
        empty_body(p, t)
    } else {
        Ok(p)
    }
}

/// A declarator after text of its element: `const`, one or two `*`, and an
/// array size in brackets.
pub open spec fn scan_declarator(d: DeclaratorView, text: Seq<char>) -> DeclaratorView {
    let is_array = contains_text(text, "["@);
    DeclaratorView {
        is_const: d.is_const || contains_text(text, "const"@),
        ptr: d.ptr || contains_text(text, "*"@),
        ptr_ptr: d.ptr_ptr || count_char(text, '*') >= 2,
        array: d.array || is_array,
        array_size: if is_array {
            match last_array_size(text) {
                Some(c) => seq![c],
                None => d.array_size,
            }
        } else {
            d.array_size
        },
        ..d
    }
}

/// Text in a `<name>`.
pub open spec fn text_in_name(p: ParserView, text: Seq<char>) -> ParserView {
    if second(p) == "proto"@ {
        ParserView { function_name: text, ..p }
    } else if second(p) == "param"@ {
        ParserView { param: DeclaratorView { name: spec_translate_parameter_name(text), ..p.param }, ..p }
    } else if second(p) == "member"@ {
        ParserView { member: DeclaratorView { name: spec_translate_member_name(text), ..p.member }, ..p }
    } else if second(p) == "type"@ {
        ParserView { tname: text, ..p }
    } else {
        p
    }
}

/// Text in a `<type>`.
pub open spec fn text_in_type(p: ParserView, text: Seq<char>) -> ParserView {
    if second(p) == "proto"@ {
        ParserView { return_value: spec_translate_types(text), ..p }
    } else if second(p) == "param"@ {
        ParserView { param: DeclaratorView { type_text: spec_translate_types(text), ..p.param }, ..p }
    } else if second(p) == "member"@ {
        ParserView { member: DeclaratorView { type_text: spec_translate_types(text), ..p.member }, ..p }
    } else if second(p) == "types"@ {
        ParserView { define_type_value: p.define_type_value + text, ..p }
    } else {
        p
    }
}

/// Text in an `<enum>`: the array size of a member or parameter.
pub open spec fn text_in_enum(p: ParserView, text: Seq<char>) -> ParserView {
    if second(p) == "member"@ {
        ParserView { member: DeclaratorView { array_size: text, ..p.member }, ..p }
    } else if second(p) == "param"@ {
        ParserView { param: DeclaratorView { array_size: text, ..p.param }, ..p }
    } else {
        p
    }
}

/// Text in an element.
pub open spec fn spec_text(p: ParserView, text: Seq<char>) -> Result<ParserView, GenError> {
    if p.stack.len() == 0 {
        Err(GenError::EmptyElementStack)
    } else if top(p) == "name"@ || top(p) == "type"@ || top(p) == "enum"@ {
        if p.stack.len() < 2 {
            Err(GenError::EmptyElementStack)
        } else if top(p) == "name"@ {
            Ok(text_in_name(p, text))
        } else if top(p) == "type"@ {
            Ok(text_in_type(p, text))
        } else {
            Ok(text_in_enum(p, text))
        }
    } else if top(p) == "member"@ {
        Ok(ParserView { member: scan_declarator(p.member, text), ..p })
    } else if top(p) == "param"@ {
        Ok(ParserView { param: scan_declarator(p.param, text), ..p })
    } else if top(p) == "comment"@ {
        Ok(ParserView { registry: RegistryView { comments: p.registry.comments.push(text), ..p.registry }, ..p })
    } else {
        Ok(p)
    }
}

/// `*` then `const` or `mut` for a pointer, nothing otherwise.
pub open spec fn star_qualifier(d: DeclaratorView) -> Seq<char> {
    if d.ptr {
        "*"@ + if d.is_const { "const"@ } else { "mut"@ }
    } else {
        Seq::empty()
    }
}

/// The Rust type of a declarator: pointer qualifiers (twice for a pointer to
/// pointer), the type, and the array around them.
pub open spec fn declared_type(d: DeclaratorView) -> Seq<char> {
    let q = if d.ptr_ptr { star_qualifier(d) + star_qualifier(d) } else { star_qualifier(d) };
    if d.array {
        "["@ + q + " "@ + d.type_text + "; "@ + d.array_size + "]"@
    } else {
        q + " "@ + d.type_text
    }
}

/// The line of a struct member.
pub open spec fn member_line(d: DeclaratorView) -> Seq<char> {
    "\tpub "@ + d.name + ": "@ + declared_type(d) + ",\n"@
}

/// The text of a command parameter.
pub open spec fn parameter_text(d: DeclaratorView) -> Seq<char> {
    d.name + ": "@ + declared_type(d) + ", "@
}

/// `</type>` in `<types>`: the bitmask, handle, struct or define is recorded.
pub open spec fn end_type(p: ParserView) -> ParserView {
    let r = p.registry;
    let q = if p.type_category == "bitmask"@ {
        ParserView {
            registry: RegistryView { bitmask_types: r.bitmask_types.push((p.tname, p.type_requires)), ..r },
            ..p
        }
    } else if p.type_category == "handle"@ {
        ParserView { registry: RegistryView { handle_types: r.handle_types.push(p.tname), ..r }, ..p }
    } else if p.type_category == "struct"@ && p.struct_members.len() > 0 {
        ParserView {
            registry: RegistryView {
                structs: r.structs.push((p.struct_name, p.struct_members, p.struct_contains_arrays)),
                ..r
            },
            ..p
        }
    } else if p.type_category == "define"@ {
        ParserView {
            registry: RegistryView { define_types: r.define_types.push((p.tname, p.define_type_value)), ..r },
            define_type_value: Seq::empty(),
            ..p
        }
    } else {
        p
    };
    ParserView { struct_members: Seq::empty(), struct_contains_arrays: false, ..q }
}

/// A closing tag, before the stack is popped.
pub open spec fn end_body(p: ParserView, n: Seq<char>) -> Result<ParserView, GenError> {
    if n == "enums"@ {
        Ok(ParserView { matching_api_constants: false, ..p })
    } else if n == "member"@ || n == "command"@ || n == "param"@ || n == "type"@ {
        if p.stack.len() == 0 {
            Err(GenError::EmptyElementStack)
        } else if top(p) != n {
            Ok(p)
        } else if n == "member"@ {
            Ok(
                ParserView {
                    struct_members: p.struct_members + member_line(p.member),
                    struct_contains_arrays: p.struct_contains_arrays || p.member.array,
                    ..p
                },
            )
        } else if n == "command"@ {
            Ok(
                ParserView {
                    registry: RegistryView {
                        commands: command_insert(p.registry.commands, p.function_name, (p.parameters, p.return_value)),
                        ..p.registry
                    },
                    parameters: Seq::empty(),
                    ..p
                },
            )
        } else if p.stack.len() < 2 {
            Err(GenError::EmptyElementStack)
        } else if n == "param"@ {
            Ok(
                if second(p) == "command"@ {
                    ParserView {
                        parameters: p.parameters + parameter_text(p.param),
                        param: DeclaratorView {
                            ptr: false,
                            ptr_ptr: false,
                            is_const: false,
                            array: false,
                            array_size: Seq::empty(),
                            ..p.param
                        },
                        ..p
                    }
                } else {
                    p
                },
            )
        } else {
            Ok(if second(p) == "types"@ { end_type(p) } else { p })
        }
    } else {
        Ok(p)
    }
}

/// A closing tag.
pub open spec fn spec_end(p: ParserView, n: Seq<char>) -> Result<ParserView, GenError> {
    match end_body(p, n) {
        Ok(q) => Ok(ParserView { stack: if q.stack.len() > 0 { q.stack.drop_last() } else { q.stack }, ..q }),
        Err(e) => Err(e),
    }
}

/// One event.
pub open spec fn spec_step(p: ParserView, ev: XmlEventView) -> Result<ParserView, GenError> {
    match ev {
        XmlEventView::Start(t) => spec_start(p, t),
        XmlEventView::Empty(t) => spec_empty(p, t),
        XmlEventView::Text(s) => spec_text(p, s),
        XmlEventView::End(n) => spec_end(p, n),
        XmlEventView::Other => Ok(p),
    }
}

/// A run of events, one after the other.
pub open spec fn spec_run(p: ParserView, evs: Seq<XmlEventView>) -> Result<ParserView, GenError>
    decreases evs.len(),
{
    if evs.len() == 0 {
        Ok(p)
    } else {
        match spec_step(p, evs[0]) {
            Ok(q) => spec_run(q, evs.drop_first()),
            Err(e) => Err(e),
        }
    }
}

/// The state before the first event: nothing open, nothing gathered.
pub open spec fn initial_parser() -> ParserView {
    let d = DeclaratorView {
        name: Seq::empty(),
        type_text: Seq::empty(),
        ptr: false,
        ptr_ptr: false,
        is_const: false,
        array: false,
        array_size: Seq::empty(),
    };
    ParserView {
        stack: Seq::empty(),
        function_name: Seq::empty(),
        return_value: Seq::empty(),
        enum_type_bitmask: false,
        param: d,
        parameters: Seq::empty(),
        struct_name: Seq::empty(),
        member: d,
        struct_members: Seq::empty(),
        struct_contains_arrays: false,
        enum_name: Seq::empty(),
        matching_api_constants: false,
        type_category: Seq::empty(),
        tname: Seq::empty(),
        type_requires: Seq::empty(),
        define_type_value: Seq::empty(),
        require_feature: Seq::empty(),
        registry: RegistryView {
            comments: Seq::empty(),
            api_constants: Seq::empty(),
            commands: Seq::empty(),
            types: Seq::empty(),
            bitmask_types: Seq::empty(),
            handle_types: Seq::empty(),
            define_types: Seq::empty(),
            enums: Seq::empty(),
            bitflags: Seq::empty(),
            structs: Seq::empty(),
            features: Seq::empty(),
            extensions: Seq::empty(),
        },
    }
}

impl RegistryParser {
    /// A reader before the first event.
    pub fn new() -> (r: Self)
        ensures
            r@ == initial_parser(),
    {
        let r = RegistryParser {
            matching_what: Vec::new(),
            function_name: String::new(),
            return_value: String::new(),
            enum_type_bitmask: false,
            param: Declarator::new(),
            parameters: String::new(),
            struct_name: String::new(),
            member: Declarator::new(),
            struct_members: String::new(),
            struct_contains_arrays: false,
            enum_name: String::new(),
            matching_api_constants: false,
            type_category: String::new(),
            tname: String::new(),
            type_requires: String::new(),
            define_type_value: String::new(),
            require_feature: String::new(),
            registry: Registry::new(),
        };
        assert(r@.stack =~= Seq::<Seq<char>>::empty());
        assert(r@.registry.comments =~= Seq::<Seq<char>>::empty());
        assert(r@.registry.api_constants =~= Seq::<(Seq<char>, Seq<char>)>::empty());
        assert(r@.registry.commands =~= Seq::<(Seq<char>, (Seq<char>, Seq<char>))>::empty());
        assert(r@.registry.types =~= Seq::<Seq<char>>::empty());
        assert(r@.registry.bitmask_types =~= Seq::<(Seq<char>, Seq<char>)>::empty());
        assert(r@.registry.handle_types =~= Seq::<Seq<char>>::empty());
        assert(r@.registry.define_types =~= Seq::<(Seq<char>, Seq<char>)>::empty());
        assert(r@.registry.enums =~= Seq::<EnumDefView>::empty());
        assert(r@.registry.bitflags =~= Seq::<BitflagsDefView>::empty());
        assert(r@.registry.structs =~= Seq::<(Seq<char>, Seq<char>, bool)>::empty());
        assert(r@.registry.features =~= Seq::<FeatureBlockView>::empty());
        assert(r@.registry.extensions =~= Seq::<ExtensionView>::empty());
        r
    }

    /// Whether the innermost open element is `lit`.
    fn top_is(&self, lit: &str) -> (r: bool)
        requires
            self.matching_what@.len() > 0,
        ensures
            r == (top(self@) == lit@),
    {
        let n = self.matching_what.len();
        same_text(self.matching_what[n - 1].as_str(), lit)
    }

    /// Whether the element around the innermost open one is `lit`.
    fn second_is(&self, lit: &str) -> (r: bool)
        requires
            self.matching_what@.len() >= 2,
        ensures
            r == (second(self@) == lit@),
    {
        let n = self.matching_what.len();
        same_text(self.matching_what[n - 2].as_str(), lit)
    }
}

impl RegistryParser {
    /// `<enums>` directly in `<registry>`.
    fn start_enums_exec(&mut self, t: &XmlTag)
        ensures
            final(self)@ == start_enums(old(self)@, t@.attributes),
    {
        let etype = attribute_or_empty(t, "type");
        match attribute(t, "name") {
            Some(n) => {
                self.enum_name = n;
            },
            None => {},
        }
        if same_text(etype.as_str(), "enum") {
            self.enum_type_bitmask = false;
            let ghost old_enums = enums_view(self.registry.enums@);
            let e = EnumDef { name: self.enum_name.clone(), values: Vec::new() };
            assert(e@ =~= EnumDefView { name: self.enum_name@, values: Seq::empty() });
            self.registry.enums.push(e);
            assert(enums_view(self.registry.enums@) =~= old_enums.push(e@));
        } else if same_text(etype.as_str(), "bitmask") {
            self.enum_type_bitmask = true;
            let ghost old_flags = bitflags_view(self.registry.bitflags@);
            let b = BitflagsDef { name: self.enum_name.clone(), values: Vec::new() };
            assert(b@ =~= BitflagsDefView { name: self.enum_name@, values: Seq::empty() });
            self.registry.bitflags.push(b);
            assert(bitflags_view(self.registry.bitflags@) =~= old_flags.push(b@));
        } else if same_text(self.enum_name.as_str(), "API Constants") {
            self.matching_api_constants = true;
        }
    }

    /// `<type>` in `<types>`.
    fn start_type_exec(&mut self, t: &XmlTag)
        ensures
            final(self)@ == start_type(old(self)@, t@.attributes),
    {
        match attribute(t, "category") {
            Some(c) => {
                self.type_category = c;
            },
            None => {},
        }
        self.type_requires = attribute_or_empty(t, "requires");
        if same_text(self.type_category.as_str(), "struct") {
            match attribute(t, "name") {
                Some(n) => {
                    self.struct_name = n;
                },
                None => {},
            }
        }
    }

    /// `<require>`.
    fn start_require_exec(&mut self, t: &XmlTag)
        requires
            old(self).matching_what@.len() > 0,
        ensures
            final(self)@ == start_require(old(self)@, t@.attributes),
    {
        if self.top_is("feature") {
            match attribute(t, "comment") {
                Some(c) => {
                    let ghost old_features = features_view(self.registry.features@);
                    let f = FeatureBlock { comment: c, contents: Vec::new() };
                    assert(f@ =~= FeatureBlockView { comment: f.comment@, contents: Seq::empty() });
                    self.registry.features.push(f);
                    assert(features_view(self.registry.features@) =~= old_features.push(f@));
                },
                None => {},
            }
        }
        self.require_feature = attribute_or_empty(t, "feature");
    }

    /// `<extension>` in `<extensions>`.
    fn start_extension_exec(&mut self, t: &XmlTag) -> (r: Result<(), GenError>)
        ensures
            match start_extension(old(self)@, t@.attributes) {
                Ok(q) => r is Ok && final(self)@ == q,
                Err(e) => r == Err::<(), GenError>(e),
            },
    {
        let name = attribute(t, "name");
        let number = attribute(t, "number");
        let supported = attribute(t, "supported");
        match (name, number, supported) {
            (Some(name), Some(number), Some(supported)) => {
                let digits = chars_of(number.as_str());
                match parse_u32(&digits) {
                    None => Err(GenError::BadNumber),
                    Some(n) => {
                        let ghost old_ext = extensions_view(self.registry.extensions@);
                        let e = Extension {
                            name,
                            number: n,
                            extension_type: attribute_or_empty(t, "type"),
                            author: attribute_or_empty(t, "author"),
                            contact: attribute_or_empty(t, "contact"),
                            supported,
                            types: Vec::new(),
                        };
                        assert(e@.types =~= Seq::<ExtensionNewTypeView>::empty());
                        self.registry.extensions.push(e);
                        assert(extensions_view(self.registry.extensions@) =~= old_ext.push(e@));
                        Ok(())
                    },
                }
            },
            _ => Ok(()),
        }
    }

    /// An opening tag: what it starts, then its name goes on the stack.
    pub fn start_element(&mut self, t: &XmlTag) -> (r: Result<(), GenError>)
        ensures
            match spec_start(old(self)@, t@) {
                Ok(q) => r is Ok && final(self)@ == q,
                Err(e) => r == Err::<(), GenError>(e),
            },
    {
        let n = &t.name;
        let is_enums = same_text(n.as_str(), "enums");
        let is_member = same_text(n.as_str(), "member");
        let is_type = same_text(n.as_str(), "type");
        let is_require = same_text(n.as_str(), "require");
        let is_extension = same_text(n.as_str(), "extension");
        if is_enums || is_member || is_type || is_require || is_extension {
            if self.matching_what.len() == 0 {
                return Err(GenError::EmptyElementStack);
            }
            if is_enums {
                if self.top_is("registry") {
                    self.start_enums_exec(t);
                }
            } else if is_member {
                if self.top_is("type") {
                    self.member.is_const = false;
                    self.member.ptr = false;
                    self.member.ptr_ptr = false;
                    self.member.array = false;
                    self.member.array_size = String::new();
                }
            } else if is_type {
                if self.top_is("types") {
                    self.start_type_exec(t);
                }
            } else if is_require {
                self.start_require_exec(t);
            } else if self.top_is("extensions") {
                let r = self.start_extension_exec(t);
                if r.is_err() {
                    return r;
                }
            }
        }
        let ghost before = self@;
        self.matching_what.push(t.name.clone());
        assert(self@.stack =~= before.stack.push(t.name@));
        Ok(())
    }
}

impl RegistryParser {
    /// Adds a value to the last flag set, which must exist.
    fn push_flag_exec(&mut self, name: String, v: BitflagsValueType)
        requires
            old(self).registry.bitflags@.len() > 0,
        ensures
            final(self)@ == (ParserView { registry: push_flag(old(self)@.registry, (name@, v@)), ..old(self)@ }),
    {
        let ghost old_flags = bitflags_view(self.registry.bitflags@);
        let mut last = self.registry.bitflags.pop().unwrap();
        let ghost old_last = last@;
        let ghost item = (name@, v@);
        last.values.push((name, v));
        assert(flag_values_view(last.values@) =~= old_last.values.push(item));
        self.registry.bitflags.push(last);
        assert(bitflags_view(self.registry.bitflags@) =~= old_flags.update(old_flags.len() - 1, BitflagsDefView {
            values: old_last.values.push(item),
            ..old_last
        }));
    }

    /// Adds a value to the last enum, which must exist.
    fn push_enum_value_exec(&mut self, name: String, v: i32)
        requires
            old(self).registry.enums@.len() > 0,
        ensures
            final(self)@ == (ParserView { registry: push_enum_value(old(self)@.registry, (name@, v)), ..old(self)@ }),
    {
        let ghost old_enums = enums_view(self.registry.enums@);
        let mut last = self.registry.enums.pop().unwrap();
        let ghost old_last = last@;
        let ghost item = (name@, v);
        last.values.push((name, v));
        assert(enum_values_view(last.values@) =~= old_last.values.push(item));
        self.registry.enums.push(last);
        assert(enums_view(self.registry.enums@) =~= old_enums.update(old_enums.len() - 1, EnumDefView {
            values: old_last.values.push(item),
            ..old_last
        }));
    }

    /// Adds an item to the last feature block, if there is one.
    fn feature_item_exec(&mut self, c: FeatureContent) -> (r: Result<(), GenError>)
        ensures
            match feature_item(old(self)@, c@) {
                Ok(q) => r is Ok && final(self)@ == q,
                Err(e) => r == Err::<(), GenError>(e),
            },
    {
        if self.registry.features.len() == 0 {
            return Err(GenError::NoOpenBlock);
        }
        let ghost old_features = features_view(self.registry.features@);
        let mut last = self.registry.features.pop().unwrap();
        let ghost old_last = last@;
        let ghost item = c@;
        last.contents.push(c);
        assert(contents_view(last.contents@) =~= old_last.contents.push(item));
        self.registry.features.push(last);
        assert(features_view(self.registry.features@) =~= old_features.update(old_features.len() - 1, FeatureBlockView {
            contents: old_last.contents.push(item),
            ..old_last
        }));
        Ok(())
    }

    /// Adds an item to the last extension, which must exist.
    fn push_extension_item_exec(&mut self, t: ExtensionNewType)
        requires
            old(self).registry.extensions@.len() > 0,
        ensures
            final(self)@ == (ParserView { registry: push_extension_item(old(self)@.registry, t@), ..old(self)@ }),
    {
        let ghost old_ext = extensions_view(self.registry.extensions@);
        let mut last = self.registry.extensions.pop().unwrap();
        let ghost old_last = last@;
        let ghost item = t@;
        last.types.push(t);
        assert(ext_types_view(last.types@) =~= old_last.types.push(item));
        self.registry.extensions.push(last);
        assert(extensions_view(self.registry.extensions@) =~= old_ext.update(old_ext.len() - 1, ExtensionView {
            types: old_last.types.push(item),
            ..old_last
        }));
    }

    /// An `<enum/>` in `<enums>`.
    fn empty_enum_in_enums_exec(&mut self, t: &XmlTag) -> (r: Result<(), GenError>)
        ensures
            match empty_enum_in_enums(old(self)@, t@.attributes) {
                Ok(q) => r is Ok && final(self)@ == q,
                Err(e) => r == Err::<(), GenError>(e),
            },
    {
        let name = attribute_or_empty(t, "name");
        let value = match attribute(t, "value") {
            Some(v) => v,
            None => attribute_or_empty(t, "alias"),
        };
        let bitpos = attribute_or_empty(t, "bitpos");
        if self.matching_api_constants {
            let ghost old_c = pairs_view(self.registry.api_constants@);
            let ghost item = (name@, value@);
            self.registry.api_constants.push((name, value));
            assert(pairs_view(self.registry.api_constants@) =~= old_c.push(item));
            Ok(())
        } else if self.enum_type_bitmask {
            if self.registry.bitflags.len() == 0 {
                return Err(GenError::NoOpenBlock);
            }
            let bitpos_chars = chars_of(bitpos.as_str());
            if bitpos_chars.len() > 0 {
                match parse_u32(&bitpos_chars) {
                    None => Err(GenError::BadNumber),
                    Some(b) => {
                        self.push_flag_exec(name, BitflagsValueType::Bitpos(b));
                        Ok(())
                    },
                }
            } else {
                self.push_flag_exec(name, BitflagsValueType::Value(value));
                Ok(())
            }
        } else {
            if self.registry.enums.len() == 0 {
                return Err(GenError::NoOpenBlock);
            }
            let value_chars = chars_of(value.as_str());
            match parse_i32(&value_chars) {
                None => Err(GenError::BadNumber),
                Some(v) => {
                    self.push_enum_value_exec(name, v);
                    Ok(())
                },
            }
        }
    }

    /// An `<enum/>` that an extension adds.
    fn empty_enum_in_extension_exec(&mut self, t: &XmlTag) -> (r: Result<(), GenError>)
        ensures
            match empty_enum_in_extension(old(self)@, t@.attributes) {
                Ok(q) => r is Ok && final(self)@ == q,
                Err(e) => r == Err::<(), GenError>(e),
            },
    {
        let name = attribute_or_empty(t, "name");
        let extends = attribute_or_empty(t, "extends");
        let comment = attribute_or_empty(t, "comment");
        match attribute(t, "bitpos") {
            Some(bp) => {
                if self.registry.extensions.len() == 0 {
                    return Err(GenError::NoOpenBlock);
                }
                let bp_chars = chars_of(bp.as_str());
                match parse_u32(&bp_chars) {
                    None => Err(GenError::BadNumber),
                    Some(b) => {
                        self.push_extension_item_exec(
                            ExtensionNewType::BitflagsExtension { name, bitpos: b, extends, comment },
                        );
                        Ok(())
                    },
                }
            },
            None => match attribute(t, "offset") {
                Some(off) => {
                    let dir = attribute_or_empty(t, "dir");
                    if self.registry.extensions.len() == 0 {
                        return Err(GenError::NoOpenBlock);
                    }
                    let off_chars = chars_of(off.as_str());
                    match parse_u32(&off_chars) {
                        None => Err(GenError::BadNumber),
                        Some(o) => {
                            self.push_extension_item_exec(
                                ExtensionNewType::EnumExtension { name, offset: o, extends, comment, dir },
                            );
                            Ok(())
                        },
                    }
                },
                None => Ok(()),
            },
        }
    }

    /// A named item of an extension.
    fn extension_named_item_exec(&mut self, t: &XmlTag, is_command: bool) -> (r: Result<(), GenError>)
        ensures
            match extension_named_item(old(self)@, t@.attributes, is_command) {
                Ok(q) => r is Ok && final(self)@ == q,
                Err(e) => r == Err::<(), GenError>(e),
            },
    {
        match attribute(t, "name") {
            Some(n) => {
                if self.registry.extensions.len() == 0 {
                    return Err(GenError::NoOpenBlock);
                }
                let item = if is_command { ExtensionNewType::Command(n) } else { ExtensionNewType::Type(n) };
                self.push_extension_item_exec(item);
                Ok(())
            },
            None => Ok(()),
        }
    }

    /// An empty element.
    pub fn empty_element(&mut self, t: &XmlTag) -> (r: Result<(), GenError>)
        ensures
            match spec_empty(old(self)@, t@) {
                Ok(q) => r is Ok && final(self)@ == q,
                Err(e) => r == Err::<(), GenError>(e),
            },
    {
        let n = &t.name;
        let is_enum = same_text(n.as_str(), "enum");
        let is_type = same_text(n.as_str(), "type");
        let is_command = same_text(n.as_str(), "command");
        if !((is_enum || is_type || is_command) && self.require_feature.as_str().is_empty()) {
            return Ok(());
        }
        let name = attribute_or_empty(t, "name");
        if self.matching_what.len() == 0 {
            Err(GenError::EmptyElementStack)
        } else if is_enum && self.top_is("enums") {
            self.empty_enum_in_enums_exec(t)
        } else if is_type && self.top_is("types") {
            if attribute(t, "requires").is_some() {
                let ghost old_types = texts_view(self.registry.types@);
                let ghost item = name@;
                self.registry.types.push(name);
                assert(texts_view(self.registry.types@) =~= old_types.push(item));
            }
            Ok(())
        } else if !self.top_is("require") {
            Ok(())
        } else if self.matching_what.len() < 2 {
            Err(GenError::EmptyElementStack)
        } else if self.second_is("feature") {
            if is_enum {
                self.feature_item_exec(FeatureContent::Enum(name))
            } else if is_type {
                self.feature_item_exec(FeatureContent::Type(name))
            } else {
                self.feature_item_exec(FeatureContent::Command(name))
            }
        } else if self.second_is("extension") {
            if is_enum {
                self.empty_enum_in_extension_exec(t)
            } else {
                self.extension_named_item_exec(t, is_command)
            }
        } else {
            Ok(())
        }
    }
}

/// A declarator after text of its element.
fn scan_declarator_exec(d: &mut Declarator, text: &String)
    ensures
        final(d)@ == scan_declarator(old(d)@, text@),
{
    let cs = chars_of(text.as_str());
    let const_pat = chars_of("const");
    let star_pat = chars_of("*");
    let bracket_pat = chars_of("[");
    if contains(&cs, &const_pat) {
        d.is_const = true;
    }
    if contains(&cs, &star_pat) {
        d.ptr = true;
    }
    if count_char_upto_two(&cs, '*') >= 2 {
        d.ptr_ptr = true;
    }
    if contains(&cs, &bracket_pat) {
        d.array = true;
        match last_array_size_exec(text.as_str()) {
            Some(c) => {
                let mut size = String::new();
                push_char(&mut size, c);
                assert(size@ =~= seq![c]);
                d.array_size = size;
            },
            None => {},
        }
    }
}

/// Appends the Rust type of a declarator.
pub(crate) fn push_declared_type(out: &mut String, d: &Declarator)
    ensures
        final(out)@ == old(out)@ + declared_type(d@),
{
    let ghost before = out@;
    let ghost q = if d.ptr_ptr { star_qualifier(d@) + star_qualifier(d@) } else { star_qualifier(d@) };
    if d.array {
        append(out, "[");
    }
    let ghost after_open = out@;
    let mut k: usize = 0;
    let reps: usize = if d.ptr_ptr { 2 } else { 1 };
    while k < reps
        invariant
            k <= reps,
            reps == (if d.ptr_ptr { 2usize } else { 1usize }),
            out@ == after_open + (if k == 0 { Seq::<char>::empty() } else if k == 1 { star_qualifier(d@) } else {
                star_qualifier(d@) + star_qualifier(d@)
            }),
        decreases reps - k,
    {
        let ghost b2 = out@;
        if d.ptr {
            append(out, "*");
            if d.is_const {
                append(out, "const");
            } else {
                append(out, "mut");
            }
        }
        assert(out@ =~= b2 + star_qualifier(d@));
        k = k + 1;
        assert(out@ =~= after_open + (if k == 1 { star_qualifier(d@) } else {
            star_qualifier(d@) + star_qualifier(d@)
        }));
    }
    assert(out@ =~= after_open + q);
    append(out, " ");
    append(out, d.type_text.as_str());
    if d.array {
        append(out, "; ");
        append(out, d.array_size.as_str());
        append(out, "]");
    }
    assert(out@ =~= before + declared_type(d@));
}

impl RegistryParser {
    /// Text in a `<name>`.
    fn text_in_name_exec(&mut self, text: &String)
        requires
            old(self).matching_what@.len() >= 2,
        ensures
            final(self)@ == text_in_name(old(self)@, text@),
    {
        if self.second_is("proto") {
            self.function_name = text.clone();
        } else if self.second_is("param") {
            self.param.name = translate_parameter_name(text.clone());
        } else if self.second_is("member") {
            self.member.name = translate_member_name(text.clone());
        } else if self.second_is("type") {
            self.tname = text.clone();
        }
    }

    /// Text in a `<type>`.
    fn text_in_type_exec(&mut self, text: &String)
        requires
            old(self).matching_what@.len() >= 2,
        ensures
            final(self)@ == text_in_type(old(self)@, text@),
    {
        if self.second_is("proto") {
            self.return_value = translate_types(text.clone());
        } else if self.second_is("param") {
            self.param.type_text = translate_types(text.clone());
        } else if self.second_is("member") {
            self.member.type_text = translate_types(text.clone());
        } else if self.second_is("types") {
            append(&mut self.define_type_value, text.as_str());
        }
    }

    /// Text in an `<enum>`.
    fn text_in_enum_exec(&mut self, text: &String)
        requires
            old(self).matching_what@.len() >= 2,
        ensures
            final(self)@ == text_in_enum(old(self)@, text@),
    {
        if self.second_is("member") {
            self.member.array_size = text.clone();
        } else if self.second_is("param") {
            self.param.array_size = text.clone();
        }
    }

    /// Text in an element.
    pub fn text(&mut self, text: &String) -> (r: Result<(), GenError>)
        ensures
            match spec_text(old(self)@, text@) {
                Ok(q) => r is Ok && final(self)@ == q,
                Err(e) => r == Err::<(), GenError>(e),
            },
    {
        if self.matching_what.len() == 0 {
            return Err(GenError::EmptyElementStack);
        }
        let in_name = self.top_is("name");
        let in_type = self.top_is("type");
        let in_enum = self.top_is("enum");
        if in_name || in_type || in_enum {
            if self.matching_what.len() < 2 {
                return Err(GenError::EmptyElementStack);
            }
            if in_name {
                self.text_in_name_exec(text);
            } else if in_type {
                self.text_in_type_exec(text);
            } else {
                self.text_in_enum_exec(text);
            }
        } else if self.top_is("member") {
            scan_declarator_exec(&mut self.member, text);
        } else if self.top_is("param") {
            scan_declarator_exec(&mut self.param, text);
        } else if self.top_is("comment") {
            let ghost old_c = texts_view(self.registry.comments@);
            self.registry.comments.push(text.clone());
            assert(texts_view(self.registry.comments@) =~= old_c.push(text@));
        }
        Ok(())
    }

    /// `</type>` in `<types>`.
    fn end_type_exec(&mut self)
        ensures
            final(self)@ == end_type(old(self)@),
    {
        if same_text(self.type_category.as_str(), "bitmask") {
            let ghost old_b = pairs_view(self.registry.bitmask_types@);
            let ghost item = (self.tname@, self.type_requires@);
            self.registry.bitmask_types.push((self.tname.clone(), self.type_requires.clone()));
            assert(pairs_view(self.registry.bitmask_types@) =~= old_b.push(item));
        } else if same_text(self.type_category.as_str(), "handle") {
            let ghost old_h = texts_view(self.registry.handle_types@);
            self.registry.handle_types.push(self.tname.clone());
            assert(texts_view(self.registry.handle_types@) =~= old_h.push(self.tname@));
        } else if same_text(self.type_category.as_str(), "struct") && !self.struct_members.as_str().is_empty() {
            let ghost old_s = structs_view(self.registry.structs@);
            let ghost item = (self.struct_name@, self.struct_members@, self.struct_contains_arrays);
            self.registry.structs.push(
                (self.struct_name.clone(), self.struct_members.clone(), self.struct_contains_arrays),
            );
            assert(structs_view(self.registry.structs@) =~= old_s.push(item));
        } else if same_text(self.type_category.as_str(), "define") {
            let ghost old_d = pairs_view(self.registry.define_types@);
            let ghost item = (self.tname@, self.define_type_value@);
            self.registry.define_types.push((self.tname.clone(), self.define_type_value.clone()));
            assert(pairs_view(self.registry.define_types@) =~= old_d.push(item));
            self.define_type_value = String::new();
        }
        self.struct_members = String::new();
        self.struct_contains_arrays = false;
    }

    /// A closing tag: what it ends, then the stack is popped.
    pub fn end_element(&mut self, n: &String) -> (r: Result<(), GenError>)
        ensures
            match spec_end(old(self)@, n@) {
                Ok(q) => r is Ok && final(self)@ == q,
                Err(e) => r == Err::<(), GenError>(e),
            },
    {
        let is_member = same_text(n.as_str(), "member");
        let is_command = same_text(n.as_str(), "command");
        let is_param = same_text(n.as_str(), "param");
        let is_type = same_text(n.as_str(), "type");
        if same_text(n.as_str(), "enums") {
            self.matching_api_constants = false;
        } else if is_member || is_command || is_param || is_type {
            if self.matching_what.len() == 0 {
                return Err(GenError::EmptyElementStack);
            }
            if !self.top_is(n.as_str()) {
            } else if is_member {
                push_member_line(&mut self.struct_members, &self.member);
                if self.member.array {
                    self.struct_contains_arrays = true;
                }
            } else if is_command {
                let ghost before = self@;
                insert_command(
                    &mut self.registry.commands,
                    self.function_name.clone(),
                    (self.parameters.clone(), self.return_value.clone()),
                );
                self.parameters = String::new();
            } else if self.matching_what.len() < 2 {
                return Err(GenError::EmptyElementStack);
            } else if is_param {
                if self.second_is("command") {
                    push_declared_type_line(&mut self.parameters, &self.param);
                    self.param.ptr = false;
                    self.param.ptr_ptr = false;
                    self.param.is_const = false;
                    self.param.array = false;
                    self.param.array_size = String::new();
                }
            } else {
                if self.second_is("types") {
                    self.end_type_exec();
                }
            }
        }
        let ghost before = self@;
        if self.matching_what.len() > 0 {
            self.matching_what.pop();
            assert(self@.stack =~= before.stack.drop_last());
        }
        Ok(())
    }

    /// One event.
    pub fn handle_event(&mut self, ev: &XmlEvent) -> (r: Result<(), GenError>)
        ensures
            match spec_step(old(self)@, ev@) {
                Ok(q) => r is Ok && final(self)@ == q,
                Err(e) => r == Err::<(), GenError>(e),
            },
    {
        match ev {
            XmlEvent::Start(t) => self.start_element(t),
            XmlEvent::Empty(t) => self.empty_element(t),
            XmlEvent::Text(s) => self.text(s),
            XmlEvent::End(n) => self.end_element(n),
            XmlEvent::Other => Ok(()),
        }
    }
}

/// Appends the line of a struct member.
fn push_member_line(out: &mut String, d: &Declarator)
    ensures
        final(out)@ == old(out)@ + member_line(d@),
{
    let ghost before = out@;
    append(out, "\tpub ");
    append(out, d.name.as_str());
    append(out, ": ");
    push_declared_type(out, d);
    append(out, ",\n");
    assert(out@ =~= before + member_line(d@));
}

/// Appends the text of a command parameter.
fn push_declared_type_line(out: &mut String, d: &Declarator)
    ensures
        final(out)@ == old(out)@ + parameter_text(d@),
{
    let ghost before = out@;
    append(out, d.name.as_str());
    append(out, ": ");
    push_declared_type(out, d);
    append(out, ", ");
    assert(out@ =~= before + parameter_text(d@));
}

/// The views of a list of events.
pub open spec fn events_view(evs: Seq<XmlEvent>) -> Seq<XmlEventView> {
    evs.map_values(|e: XmlEvent| e@)
}

/// Reads the registry from its XML events, in order.
pub fn read_registry(events: &Vec<XmlEvent>) -> (r: Result<Registry, GenError>)
    ensures
        match spec_run(initial_parser(), events_view(events@)) {
            Ok(q) => r matches Ok(reg) && reg@ == q.registry,
            Err(e) => r == Err::<Registry, GenError>(e),
        },
{
    let mut parser = RegistryParser::new();
    let ghost all = events_view(events@);
    let mut i: usize = 0;
    assert(all.skip(0) =~= all);
    while i < events.len()
        invariant
            i <= events@.len(),
            all == events_view(events@),
            spec_run(parser@, all.skip(i as int)) == spec_run(initial_parser(), all),
        decreases events@.len() - i,
    {
        let ghost rest = all.skip(i as int);
        assert(rest[0] == events@[i as int]@);
        assert(rest.drop_first() =~= all.skip(i + 1));
        let r = parser.handle_event(&events[i]);
        if r.is_err() {
            return match r {
                Err(e) => Err(e),
                Ok(_) => Err(GenError::EmptyElementStack),
            };
        }
        i = i + 1;
    }
    assert(all.skip(i as int) =~= Seq::<XmlEventView>::empty());
    Ok(parser.registry)
}

} // verus!
