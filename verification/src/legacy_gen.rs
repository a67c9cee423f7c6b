//! The first registry generator: from the events of `vk.xml` to an
//! unannotated Rust binding (constants, type aliases, enums, flag sets,
//! structs and the command declarations).

use vstd::prelude::*;
use crate::text::{
    append, chars_of, contains, contains_text, last_array_size, last_array_size_exec, parse_i32, parse_i32_spec,
    push_char, same_text,
};
use crate::xml::{attr_or_empty, attribute_or_empty, XmlEvent, XmlEventView, XmlTag, XmlTagView};
use crate::vk_registry::{Declarator, DeclaratorView, GenError, pairs_view, texts_view};
use crate::legacy_translate::{
    guess_type_from_name, spec_guess_type_from_name, spec_translate_member_name, spec_translate_parameter_name,
    spec_translate_types, spec_translate_values, translate_member_name, translate_parameter_name, translate_types,
    translate_values,
};
use crate::vkgen_parse::{declared_type, events_view, parameter_text, star_qualifier};
use crate::vkgen_render::{concat_map, lemma_concat_map_take, lemma_take_all};
use crate::xml_source::{events_read, read_failure, read_xml_events, SourceError, SourceFailure};
use vstd::string::StringSliceAdditionalSpecFns;

verus! {

/// The fixed text the output starts with.
pub const LEGACY_FLUFF: &'static str = "type VkDeviceSize = i64;\ntype VkSampleMask = i32;\n\ntype PFN_vkAllocationFunction = *const c_void;\ntype PFN_vkReallocationFunction = *const c_void;\ntype PFN_vkFreeFunction = *const c_void;\ntype PFN_vkInternalAllocationNotification = *const c_void;\ntype PFN_vkInternalFreeNotification = *const c_void;\ntype PFN_vkDebugReportCallbackEXT = *const c_void;\ntype PFN_vkVoidFunction = *const c_void;\n\nstruct VkClearColorValue {\n\tcol: f32\n}\n\nstruct VkClearValue {\n\tcol: VkClearColorValue\n}";

/// What the first generator gathers from the registry.
#[derive(Debug, Clone, PartialEq, Eq)]
pub struct LegacyRegistry {
    pub api_constants: Vec<(String, String)>,
    /// Name, parameters and return type of each command, in order.
    pub commands: Vec<(String, String, String)>,
    pub types: Vec<String>,
    pub bitmask_types: Vec<String>,
    pub handle_types: Vec<String>,
    /// Name and member lines of each enum.
    pub enums: Vec<(String, String)>,
    /// Name and member lines of each flag set.
    pub bitflags: Vec<(String, String)>,
    /// Name and member lines of each struct.
    pub structs: Vec<(String, String)>,
}

#[verifier::ext_equal]
pub struct LegacyRegistryView {
    pub api_constants: Seq<(Seq<char>, Seq<char>)>,
    pub commands: Seq<(Seq<char>, Seq<char>, Seq<char>)>,
    pub types: Seq<Seq<char>>,
    pub bitmask_types: Seq<Seq<char>>,
    pub handle_types: Seq<Seq<char>>,
    pub enums: Seq<(Seq<char>, Seq<char>)>,
    pub bitflags: Seq<(Seq<char>, Seq<char>)>,
    pub structs: Seq<(Seq<char>, Seq<char>)>,
}

pub open spec fn triples_view(s: Seq<(String, String, String)>) -> Seq<(Seq<char>, Seq<char>, Seq<char>)> {
    s.map_values(|t: (String, String, String)| (t.0@, t.1@, t.2@))
}

impl View for LegacyRegistry {
    type V = LegacyRegistryView;

    open spec fn view(&self) -> LegacyRegistryView {
        LegacyRegistryView {
            api_constants: pairs_view(self.api_constants@),
            commands: triples_view(self.commands@),
            types: texts_view(self.types@),
            bitmask_types: texts_view(self.bitmask_types@),
            handle_types: texts_view(self.handle_types@),
            enums: pairs_view(self.enums@),
            bitflags: pairs_view(self.bitflags@),
            structs: pairs_view(self.structs@),
        }
    }
}

/// The first generator's state between events.
#[derive(Debug, Clone, PartialEq, Eq)]
pub struct LegacyParser {
    /// The names of the open elements, innermost last.
    pub matching_what: Vec<String>,
    pub function_name: String,
    pub return_value: String,
    pub enum_type_bitmask: bool,
    pub param: Declarator,
    pub parameters: String,
    pub struct_name: String,
    pub member: Declarator,
    pub struct_members: String,
    pub enum_name: String,
    /// The member lines of the enum or flag set being read.
    pub enum_members: String,
    pub matching_api_constants: bool,
    pub type_category: String,
    pub tname: String,
    pub registry: LegacyRegistry,
}

#[verifier::ext_equal]
pub struct LegacyView {
    pub stack: Seq<Seq<char>>,
    pub function_name: Seq<char>,
    pub return_value: Seq<char>,
    pub enum_type_bitmask: bool,
    pub param: DeclaratorView,
    pub parameters: Seq<char>,
    pub struct_name: Seq<char>,
    pub member: DeclaratorView,
    pub struct_members: Seq<char>,
    pub enum_name: Seq<char>,
    pub enum_members: Seq<char>,
    pub matching_api_constants: bool,
    pub type_category: Seq<char>,
    pub tname: Seq<char>,
    pub registry: LegacyRegistryView,
}

impl View for LegacyParser {
    type V = LegacyView;

    open spec fn view(&self) -> LegacyView {
        LegacyView {
            stack: texts_view(self.matching_what@),
            function_name: self.function_name@,
            return_value: self.return_value@,
            enum_type_bitmask: self.enum_type_bitmask,
            param: self.param@,
            parameters: self.parameters@,
            struct_name: self.struct_name@,
            member: self.member@,
            struct_members: self.struct_members@,
            enum_name: self.enum_name@,
            enum_members: self.enum_members@,
            matching_api_constants: self.matching_api_constants,
            type_category: self.type_category@,
            tname: self.tname@,
            registry: self.registry@,
        }
    }
}

pub open spec fn ltop(p: LegacyView) -> Seq<char> {
    p.stack.last()
}

pub open spec fn lsecond(p: LegacyView) -> Seq<char> {
    p.stack[p.stack.len() - 2]
}

/// An opening tag, before its name is pushed on the stack.
pub open spec fn legacy_start_body(p: LegacyView, t: XmlTagView) -> Result<LegacyView, GenError> {
    let n = t.name;
    let a = t.attributes;
    if n == "enums"@ || n == "member"@ || n == "type"@ {
        if p.stack.len() == 0 {
            Err(GenError::EmptyElementStack)
        } else if n == "enums"@ {
            Ok(
                if ltop(p) == "registry"@ {
                    let name = attr_or_empty(a, "name"@);
                    let etype = attr_or_empty(a, "type"@);
                    let q = LegacyView { enum_name: name, ..p };
                    if etype == "enum"@ {
                        LegacyView { enum_type_bitmask: false, ..q }
                    } else if etype == "bitmask"@ {
                        LegacyView { enum_type_bitmask: true, ..q }
                    } else if name == "API Constants"@ {
                        LegacyView { matching_api_constants: true, ..q }
                    } else {
                        q
                    }
                } else {
                    p
                },
            )
        } else if n == "member"@ {
            Ok(
                if ltop(p) == "type"@ {
                    LegacyView {
                        member: DeclaratorView {
                            is_const: false,
                            ptr: false,
                            array: false,
                            array_size: Seq::empty(),
                            ..p.member
                        },
                        ..p
                    }
                } else {
                    p
                },
            )
        } else {
            Ok(
                if ltop(p) == "types"@ {
                    let category = attr_or_empty(a, "category"@);
                    LegacyView {
                        type_category: category,
                        struct_name: if category == "struct"@ { attr_or_empty(a, "name"@) } else { p.struct_name },
                        ..p
                    }
                } else {
                    p
                },
            )
        }
    } else {
        Ok(p)
    }
}

pub open spec fn legacy_start(p: LegacyView, t: XmlTagView) -> Result<LegacyView, GenError> {
    match legacy_start_body(p, t) {
        Ok(q) => Ok(LegacyView { stack: q.stack.push(t.name), ..q }),
        Err(e) => Err(e),
    }
}

/// Thirty-two binary digits with a one at bit `bitpos` (none for a position
/// outside 0 to 31), most significant first.
pub open spec fn legacy_bit_digits(bitpos: i32) -> Seq<char> {
    Seq::new(32, |i: int| if 31 - i == bitpos { '1' } else { '0' })
}

/// An `<enum/>` in `<enums>`: an API constant or a member line of the enum or
/// flag set being read.
pub open spec fn legacy_empty_enum(p: LegacyView, a: Seq<(Seq<char>, Seq<char>)>) -> Result<LegacyView, GenError> {
    let name = attr_or_empty(a, "name"@);
    let value = attr_or_empty(a, "value"@);
    let bitpos = attr_or_empty(a, "bitpos"@);
    if p.matching_api_constants {
        Ok(
            LegacyView {
                registry: LegacyRegistryView { api_constants: p.registry.api_constants.push((name, value)), ..p.registry },
                ..p
            },
        )
    } else if p.enum_type_bitmask {
        if bitpos.len() > 0 {
            match parse_i32_spec(bitpos) {
                None => Err(GenError::BadNumber),
                Some(b) => Ok(
                    LegacyView {
                        enum_members: p.enum_members + "\t\tconst "@ + name + " = 0b"@ + legacy_bit_digits(b) + ";\n"@,
                        ..p
                    },
                ),
            }
        } else {
            Ok(LegacyView { enum_members: p.enum_members + "\t\tconst "@ + name + " = "@ + value + ";\n"@, ..p })
        }
    } else {
        Ok(LegacyView { enum_members: p.enum_members + "\t"@ + name + " = "@ + value + ",\n"@, ..p })
    }
}

pub open spec fn legacy_empty(p: LegacyView, t: XmlTagView) -> Result<LegacyView, GenError> {
    let n = t.name;
    let a = t.attributes;
    if n == "enum"@ || n == "type"@ {
        if p.stack.len() == 0 {
            Err(GenError::EmptyElementStack)
        } else if n == "enum"@ {
            if ltop(p) == "enums"@ {
                legacy_empty_enum(p, a)
            } else {
                Ok(p)
            }
        } else if ltop(p) == "types"@ && attr_or_empty(a, "requires"@).len() > 0 {
            Ok(
                LegacyView {
                    registry: LegacyRegistryView {
                        types: p.registry.types.push(attr_or_empty(a, "name"@)),
                        ..p.registry
                    },
                    ..p
                },
            )
        } else {
            Ok(p)
        }
    } else {
        Ok(p)
    }
}

/// A declarator after text of its element: `const`, `*`, and an array size.
pub open spec fn legacy_scan(d: DeclaratorView, text: Seq<char>) -> DeclaratorView {
    let is_array = contains_text(text, "["@);
    DeclaratorView {
        is_const: d.is_const || contains_text(text, "const"@),
        ptr: d.ptr || contains_text(text, "*"@),
        array: d.array || is_array,
        array_size: if is_array {
            match last_array_size(text) {
                Some(c) => seq![c],
                None => d.array_size,
            }
        } else {
            d.array_size
        },
        ..d
    }
}

pub open spec fn legacy_text(p: LegacyView, text: Seq<char>) -> Result<LegacyView, GenError> {
    if p.stack.len() == 0 {
        Err(GenError::EmptyElementStack)
    } else if ltop(p) == "name"@ || ltop(p) == "type"@ || ltop(p) == "enum"@ {
        if p.stack.len() < 2 {
            Err(GenError::EmptyElementStack)
        } else if ltop(p) == "name"@ {
            Ok(
                if lsecond(p) == "proto"@ {
                    LegacyView { function_name: text, ..p }
                } else if lsecond(p) == "param"@ {
                    LegacyView { param: DeclaratorView { name: spec_translate_parameter_name(text), ..p.param }, ..p }
                } else if lsecond(p) == "member"@ {
                    LegacyView { member: DeclaratorView { name: spec_translate_member_name(text), ..p.member }, ..p }
                } else if lsecond(p) == "type"@ {
                    LegacyView { tname: text, ..p }
                } else {
                    p
                },
            )
        } else if ltop(p) == "type"@ {
            Ok(
                if lsecond(p) == "proto"@ {
                    LegacyView { return_value: spec_translate_types(text), ..p }
                } else if lsecond(p) == "param"@ {
                    LegacyView { param: DeclaratorView { type_text: spec_translate_types(text), ..p.param }, ..p }
                } else if lsecond(p) == "member"@ {
                    LegacyView { member: DeclaratorView { type_text: spec_translate_types(text), ..p.member }, ..p }
                } else {
                    p
                },
            )
        } else {
            Ok(
                if lsecond(p) == "member"@ {
                    LegacyView { member: DeclaratorView { array_size: text, ..p.member }, ..p }
                } else if lsecond(p) == "param"@ {
                    LegacyView { param: DeclaratorView { array_size: text, ..p.param }, ..p }
                } else {
                    p
                },
            )
        }
    } else if ltop(p) == "member"@ {
        Ok(LegacyView { member: legacy_scan(p.member, text), ..p })
    } else if ltop(p) == "param"@ {
        Ok(LegacyView { param: legacy_scan(p.param, text), ..p })
    } else {
        Ok(p)
    }
}

/// The line of a struct member.
pub open spec fn legacy_member_line(d: DeclaratorView) -> Seq<char> {
    "\t"@ + d.name + ": "@ + declared_type(d) + ",\n"@
}

/// `</enums>`: the enum or flag set read gets its member lines.
pub open spec fn legacy_end_enums(p: LegacyView) -> LegacyView {
    if p.matching_api_constants {
        LegacyView { matching_api_constants: false, ..p }
    } else if p.enum_members.len() > 0 {
        let r = p.registry;
        let q = if p.enum_type_bitmask {
            LegacyView {
                registry: LegacyRegistryView { bitflags: r.bitflags.push((p.enum_name, p.enum_members)), ..r },
                ..p
            }
        } else {
            LegacyView { registry: LegacyRegistryView { enums: r.enums.push((p.enum_name, p.enum_members)), ..r }, ..p }
        };
        LegacyView { enum_members: Seq::empty(), ..q }
    } else {
        p
    }
}

/// `</type>` in `<types>`.
pub open spec fn legacy_end_type(p: LegacyView) -> LegacyView {
    let r = p.registry;
    if p.type_category == "bitmask"@ {
        LegacyView { registry: LegacyRegistryView { bitmask_types: r.bitmask_types.push(p.tname), ..r }, ..p }
    } else if p.type_category == "handle"@ {
        LegacyView { registry: LegacyRegistryView { handle_types: r.handle_types.push(p.tname), ..r }, ..p }
    } else if p.type_category == "struct"@ && p.struct_members.len() > 0 {
        LegacyView {
            registry: LegacyRegistryView { structs: r.structs.push((p.struct_name, p.struct_members)), ..r },
            struct_members: Seq::empty(),
            ..p
        }
    } else {
        p
    }
}

pub open spec fn legacy_end_body(p: LegacyView, n: Seq<char>) -> Result<LegacyView, GenError> {
    if n == "enums"@ {
        Ok(legacy_end_enums(p))
    } else if n == "member"@ || n == "command"@ || n == "param"@ || n == "type"@ {
        if p.stack.len() == 0 {
            Err(GenError::EmptyElementStack)
        } else if ltop(p) != n {
            Ok(p)
        } else if n == "member"@ {
            Ok(LegacyView { struct_members: p.struct_members + legacy_member_line(p.member), ..p })
        } else if n == "command"@ {
            Ok(
                LegacyView {
                    registry: LegacyRegistryView {
                        commands: p.registry.commands.push((p.function_name, p.parameters, p.return_value)),
                        ..p.registry
                    },
                    parameters: Seq::empty(),
                    ..p
                },
            )
        } else if n == "param"@ {
            Ok(
                LegacyView {
                    parameters: p.parameters + parameter_text(p.param),
                    param: DeclaratorView {
                        ptr: false,
                        is_const: false,
                        array: false,
                        array_size: Seq::empty(),
                        ..p.param
                    },
                    ..p
                },
            )
        } else if p.stack.len() < 2 {
            Err(GenError::EmptyElementStack)
        } else {
            Ok(if lsecond(p) == "types"@ { legacy_end_type(p) } else { p })
        }
    } else {
        Ok(p)
    }
}

pub open spec fn legacy_end(p: LegacyView, n: Seq<char>) -> Result<LegacyView, GenError> {
    match legacy_end_body(p, n) {
        Ok(q) => Ok(LegacyView { stack: if q.stack.len() > 0 { q.stack.drop_last() } else { q.stack }, ..q }),
        Err(e) => Err(e),
    }
}

pub open spec fn legacy_step(p: LegacyView, ev: XmlEventView) -> Result<LegacyView, GenError> {
    match ev {
        XmlEventView::Start(t) => legacy_start(p, t),
        XmlEventView::Empty(t) => legacy_empty(p, t),
        XmlEventView::Text(s) => legacy_text(p, s),
        XmlEventView::End(n) => legacy_end(p, n),
        XmlEventView::Other => Ok(p),
    }
}

pub open spec fn legacy_run(p: LegacyView, evs: Seq<XmlEventView>) -> Result<LegacyView, GenError>
    decreases evs.len(),
{
    if evs.len() == 0 {
        Ok(p)
    } else {
        match legacy_step(p, evs[0]) {
            Ok(q) => legacy_run(q, evs.drop_first()),
            Err(e) => Err(e),
        }
    }
}

pub open spec fn legacy_initial() -> LegacyView {
    let d = DeclaratorView {
        name: Seq::empty(),
        type_text: Seq::empty(),
        ptr: false,
        ptr_ptr: false,
        is_const: false,
        array: false,
        array_size: Seq::empty(),
    };
    LegacyView {
        stack: Seq::empty(),
        function_name: Seq::empty(),
        return_value: Seq::empty(),
        enum_type_bitmask: false,
        param: d,
        parameters: Seq::empty(),
        struct_name: Seq::empty(),
        member: d,
        struct_members: Seq::empty(),
        enum_name: Seq::empty(),
        enum_members: Seq::empty(),
        matching_api_constants: false,
        type_category: Seq::empty(),
        tname: Seq::empty(),
        registry: LegacyRegistryView {
            api_constants: Seq::empty(),
            commands: Seq::empty(),
            types: Seq::empty(),
            bitmask_types: Seq::empty(),
            handle_types: Seq::empty(),
            enums: Seq::empty(),
            bitflags: Seq::empty(),
            structs: Seq::empty(),
        },
    }
}

// ---- output -----------------------------------------------------------------

pub open spec fn legacy_constant_f() -> spec_fn((Seq<char>, Seq<char>)) -> Seq<char> {
    |c: (Seq<char>, Seq<char>)|
        "const "@ + c.0 + ": "@ + spec_guess_type_from_name(c.0) + " = "@ + spec_translate_values(c.1) + ";\n"@
}

pub open spec fn alias_f(target: Seq<char>) -> spec_fn(Seq<char>) -> Seq<char> {
    |t: Seq<char>| "type "@ + t + " = "@ + target + ";\n"@
}

pub open spec fn legacy_enum_f() -> spec_fn((Seq<char>, Seq<char>)) -> Seq<char> {
    |e: (Seq<char>, Seq<char>)| "#[repr(i32)]\nenum "@ + e.0 + " {\n"@ + e.1 + "\n"@ + "}\n\n"@
}

pub open spec fn legacy_bitflags_f() -> spec_fn((Seq<char>, Seq<char>)) -> Seq<char> {
    |b: (Seq<char>, Seq<char>)| "bitflags! {\n\tstruct "@ + b.0 + ": u32 {\n"@ + b.1 + "\n"@ + "\t}\n}\n\n"@
}

pub open spec fn legacy_struct_f() -> spec_fn((Seq<char>, Seq<char>)) -> Seq<char> {
    |s: (Seq<char>, Seq<char>)| "#[repr(C)]\nstruct "@ + s.0 + " {\n"@ + s.1 + "\n}\n"@
}

pub open spec fn legacy_command_f() -> spec_fn((Seq<char>, Seq<char>, Seq<char>)) -> Seq<char> {
    |c: (Seq<char>, Seq<char>, Seq<char>)| "\tfn "@ + c.0 + "("@ + c.1 + ") -> "@ + c.2 + ";\n"@
}

/// The Rust source that the first generator writes for a registry.
pub open spec fn legacy_render(r: LegacyRegistryView) -> Seq<char> {
    LEGACY_FLUFF@ + "\n"@ + concat_map(r.api_constants, legacy_constant_f()) + concat_map(r.types, alias_f("i64"@))
        + concat_map(r.bitmask_types, alias_f("i32"@)) + concat_map(r.handle_types, alias_f("i64"@)) + concat_map(
        r.enums,
        legacy_enum_f(),
    ) + concat_map(r.bitflags, legacy_bitflags_f()) + concat_map(r.structs, legacy_struct_f())
        + "#[link(name = \"vulkan\")]\n"@ + "extern {\n"@ + concat_map(r.commands, legacy_command_f()) + "}\n"@
}

/// What the first generator gives for a registry's events.
pub open spec fn spec_legacy_generate(events: Seq<XmlEventView>) -> Result<Seq<char>, GenError> {
    match legacy_run(legacy_initial(), events) {
        Err(e) => Err(e),
        Ok(q) => Ok(legacy_render(q.registry)),
    }
}

impl LegacyParser {
    /// A reader before the first event.
    pub fn new() -> (r: Self)
        ensures
            r@ == legacy_initial(),
    {
        let r = LegacyParser {
            matching_what: Vec::new(),
            function_name: String::new(),
            return_value: String::new(),
            enum_type_bitmask: false,
            param: Declarator::new(),
            parameters: String::new(),
            struct_name: String::new(),
            member: Declarator::new(),
            struct_members: String::new(),
            enum_name: String::new(),
            enum_members: String::new(),
            matching_api_constants: false,
            type_category: String::new(),
            tname: String::new(),
            registry: LegacyRegistry {
                api_constants: Vec::new(),
                commands: Vec::new(),
                types: Vec::new(),
                bitmask_types: Vec::new(),
                handle_types: Vec::new(),
                enums: Vec::new(),
                bitflags: Vec::new(),
                structs: Vec::new(),
            },
        };
        assert(r@.stack =~= Seq::<Seq<char>>::empty());
        assert(r@.registry.api_constants =~= Seq::<(Seq<char>, Seq<char>)>::empty());
        assert(r@.registry.commands =~= Seq::<(Seq<char>, Seq<char>, Seq<char>)>::empty());
        assert(r@.registry.types =~= Seq::<Seq<char>>::empty());
        assert(r@.registry.bitmask_types =~= Seq::<Seq<char>>::empty());
        assert(r@.registry.handle_types =~= Seq::<Seq<char>>::empty());
        assert(r@.registry.enums =~= Seq::<(Seq<char>, Seq<char>)>::empty());
        assert(r@.registry.bitflags =~= Seq::<(Seq<char>, Seq<char>)>::empty());
        assert(r@.registry.structs =~= Seq::<(Seq<char>, Seq<char>)>::empty());
        r
    }

    fn top_is(&self, lit: &str) -> (r: bool)
        requires
            self.matching_what@.len() > 0,
        ensures
            r == (ltop(self@) == lit@),
    {
        let n = self.matching_what.len();
        same_text(self.matching_what[n - 1].as_str(), lit)
    }

    fn second_is(&self, lit: &str) -> (r: bool)
        requires
            self.matching_what@.len() >= 2,
        ensures
            r == (lsecond(self@) == lit@),
    {
        let n = self.matching_what.len();
        same_text(self.matching_what[n - 2].as_str(), lit)
    }

    /// An opening tag.
    pub fn start_element(&mut self, t: &XmlTag) -> (r: Result<(), GenError>)
        ensures
            match legacy_start(old(self)@, t@) {
                Ok(q) => r is Ok && final(self)@ == q,
                Err(e) => r == Err::<(), GenError>(e),
            },
    {
        let n = &t.name;
        let is_enums = same_text(n.as_str(), "enums");
        let is_member = same_text(n.as_str(), "member");
        let is_type = same_text(n.as_str(), "type");
        if is_enums || is_member || is_type {
            if self.matching_what.len() == 0 {
                return Err(GenError::EmptyElementStack);
            }
            if is_enums {
                if self.top_is("registry") {
                    let name = attribute_or_empty(t, "name");
                    let etype = attribute_or_empty(t, "type");
                    self.enum_name = name;
                    if same_text(etype.as_str(), "enum") {
                        self.enum_type_bitmask = false;
                    } else if same_text(etype.as_str(), "bitmask") {
                        self.enum_type_bitmask = true;
                    } else if same_text(self.enum_name.as_str(), "API Constants") {
                        self.matching_api_constants = true;
                    }
                }
            } else if is_member {
                if self.top_is("type") {
                    self.member.is_const = false;
                    self.member.ptr = false;
                    self.member.array = false;
                    self.member.array_size = String::new();
                }
            } else {
                if self.top_is("types") {
                    let category = attribute_or_empty(t, "category");
                    if same_text(category.as_str(), "struct") {
                        self.struct_name = attribute_or_empty(t, "name");
                    }
                    self.type_category = category;
                }
            }
        }
        let ghost before = self@;
        self.matching_what.push(t.name.clone());
        assert(self@.stack =~= before.stack.push(t.name@));
        Ok(())
    }

    /// An `<enum/>` in `<enums>`.
    fn empty_enum_exec(&mut self, t: &XmlTag) -> (r: Result<(), GenError>)
        ensures
            match legacy_empty_enum(old(self)@, t@.attributes) {
                Ok(q) => r is Ok && final(self)@ == q,
                Err(e) => r == Err::<(), GenError>(e),
            },
    {
        let name = attribute_or_empty(t, "name");
        let value = attribute_or_empty(t, "value");
        let bitpos = attribute_or_empty(t, "bitpos");
        if self.matching_api_constants {
            let ghost old_c = pairs_view(self.registry.api_constants@);
            let ghost item = (name@, value@);
            self.registry.api_constants.push((name, value));
            assert(pairs_view(self.registry.api_constants@) =~= old_c.push(item));
            Ok(())
        } else if self.enum_type_bitmask {
            if !bitpos.as_str().is_empty() {
                let bits = chars_of(bitpos.as_str());
                match parse_i32(&bits) {
                    None => Err(GenError::BadNumber),
                    Some(b) => {
                        let ghost before = self.enum_members@;
                        append(&mut self.enum_members, "\t\tconst ");
                        append(&mut self.enum_members, name.as_str());
                        append(&mut self.enum_members, " = 0b");
                        let mut digits = String::new();
                        let mut x: i32 = 31;
                        while x >= 0
                            invariant
                                -1 <= x <= 31,
                                digits@ == legacy_bit_digits(b).take(31 - x),
                            decreases x + 1,
                        {
                            if x == b {
                                push_char(&mut digits, '1');
                            } else {
                                push_char(&mut digits, '0');
                            }
                            x = x - 1;
                            assert(digits@ =~= legacy_bit_digits(b).take(31 - x));
                        }
                        assert(legacy_bit_digits(b).take(32) =~= legacy_bit_digits(b));
                        append(&mut self.enum_members, digits.as_str());
                        append(&mut self.enum_members, ";\n");
                        assert(self.enum_members@ =~= before + "\t\tconst "@ + name@ + " = 0b"@ + legacy_bit_digits(b)
                            + ";\n"@);
                        Ok(())
                    },
                }
            } else {
                let ghost before = self.enum_members@;
                append(&mut self.enum_members, "\t\tconst ");
                append(&mut self.enum_members, name.as_str());
                append(&mut self.enum_members, " = ");
                append(&mut self.enum_members, value.as_str());
                append(&mut self.enum_members, ";\n");
                assert(self.enum_members@ =~= before + "\t\tconst "@ + name@ + " = "@ + value@ + ";\n"@);
                Ok(())
            }
        } else {
            let ghost before = self.enum_members@;
            append(&mut self.enum_members, "\t");
            append(&mut self.enum_members, name.as_str());
            append(&mut self.enum_members, " = ");
            append(&mut self.enum_members, value.as_str());
            append(&mut self.enum_members, ",\n");
            assert(self.enum_members@ =~= before + "\t"@ + name@ + " = "@ + value@ + ",\n"@);
            Ok(())
        }
    }

    /// An empty element.
    pub fn empty_element(&mut self, t: &XmlTag) -> (r: Result<(), GenError>)
        ensures
            match legacy_empty(old(self)@, t@) {
                Ok(q) => r is Ok && final(self)@ == q,
                Err(e) => r == Err::<(), GenError>(e),
            },
    {
        let is_enum = same_text(t.name.as_str(), "enum");
        let is_type = same_text(t.name.as_str(), "type");
        if !(is_enum || is_type) {
            return Ok(());
        }
        if self.matching_what.len() == 0 {
            return Err(GenError::EmptyElementStack);
        }
        if is_enum {
            if self.top_is("enums") {
                self.empty_enum_exec(t)
            } else {
                Ok(())
            }
        } else {
            let requires_text = attribute_or_empty(t, "requires");
            if self.top_is("types") && !requires_text.as_str().is_empty() {
                let name = attribute_or_empty(t, "name");
                let ghost old_t = texts_view(self.registry.types@);
                self.registry.types.push(name);
                assert(texts_view(self.registry.types@) =~= old_t.push(name@));
            }
            Ok(())
        }
    }

    fn text_nested(&mut self, text: &String, in_name: bool, in_type: bool)
        requires
            old(self).matching_what@.len() >= 2,
            in_name == (ltop(old(self)@) == "name"@),
            in_type == (ltop(old(self)@) == "type"@),
            in_name || in_type || ltop(old(self)@) == "enum"@,
        ensures
            Ok::<LegacyView, GenError>(final(self)@) == legacy_text(old(self)@, text@),
    {
        if in_name {
            if self.second_is("proto") {
                self.function_name = text.clone();
            } else if self.second_is("param") {
                self.param.name = translate_parameter_name(text.clone());
            } else if self.second_is("member") {
                self.member.name = translate_member_name(text.clone());
            } else if self.second_is("type") {
                self.tname = text.clone();
            }
        } else if in_type {
            if self.second_is("proto") {
                self.return_value = translate_types(text.clone());
            } else if self.second_is("param") {
                self.param.type_text = translate_types(text.clone());
            } else if self.second_is("member") {
                self.member.type_text = translate_types(text.clone());
            }
        } else {
            if self.second_is("member") {
                self.member.array_size = text.clone();
            } else if self.second_is("param") {
                self.param.array_size = text.clone();
            }
        }
    }

    /// Text in an element.
    pub fn text(&mut self, text: &String) -> (r: Result<(), GenError>)
        ensures
            match legacy_text(old(self)@, text@) {
                Ok(q) => r is Ok && final(self)@ == q,
                Err(e) => r == Err::<(), GenError>(e),
            },
    {
        if self.matching_what.len() == 0 {
            return Err(GenError::EmptyElementStack);
        }
        let in_name = self.top_is("name");
        let in_type = self.top_is("type");
        let in_enum = self.top_is("enum");
        if in_name || in_type || in_enum {
            if self.matching_what.len() < 2 {
                return Err(GenError::EmptyElementStack);
            }
            self.text_nested(text, in_name, in_type);
        } else if self.top_is("member") {
            legacy_scan_exec(&mut self.member, text);
        } else if self.top_is("param") {
            legacy_scan_exec(&mut self.param, text);
        }
        Ok(())
    }

    /// `</enums>` and `</type>` in `<types>`.
    fn end_enums_exec(&mut self)
        ensures
            final(self)@ == legacy_end_enums(old(self)@),
    {
        if self.matching_api_constants {
            self.matching_api_constants = false;
        } else if !self.enum_members.as_str().is_empty() {
            let ghost item = (self.enum_name@, self.enum_members@);
            if self.enum_type_bitmask {
                let ghost old_b = pairs_view(self.registry.bitflags@);
                self.registry.bitflags.push((self.enum_name.clone(), self.enum_members.clone()));
                assert(pairs_view(self.registry.bitflags@) =~= old_b.push(item));
            } else {
                let ghost old_e = pairs_view(self.registry.enums@);
                self.registry.enums.push((self.enum_name.clone(), self.enum_members.clone()));
                assert(pairs_view(self.registry.enums@) =~= old_e.push(item));
            }
            self.enum_members = String::new();
        }
    }

    fn end_type_exec(&mut self)
        ensures
            final(self)@ == legacy_end_type(old(self)@),
    {
        if same_text(self.type_category.as_str(), "bitmask") {
            let ghost old_b = texts_view(self.registry.bitmask_types@);
            self.registry.bitmask_types.push(self.tname.clone());
            assert(texts_view(self.registry.bitmask_types@) =~= old_b.push(self.tname@));
        } else if same_text(self.type_category.as_str(), "handle") {
            let ghost old_h = texts_view(self.registry.handle_types@);
            self.registry.handle_types.push(self.tname.clone());
            assert(texts_view(self.registry.handle_types@) =~= old_h.push(self.tname@));
        } else if same_text(self.type_category.as_str(), "struct") && !self.struct_members.as_str().is_empty() {
            let ghost old_s = pairs_view(self.registry.structs@);
            let ghost item = (self.struct_name@, self.struct_members@);
            self.registry.structs.push((self.struct_name.clone(), self.struct_members.clone()));
            assert(pairs_view(self.registry.structs@) =~= old_s.push(item));
            self.struct_members = String::new();
        }
    }

    /// A closing tag.
    pub fn end_element(&mut self, n: &String) -> (r: Result<(), GenError>)
        ensures
            match legacy_end(old(self)@, n@) {
                Ok(q) => r is Ok && final(self)@ == q,
                Err(e) => r == Err::<(), GenError>(e),
            },
    {
        let is_member = same_text(n.as_str(), "member");
        let is_command = same_text(n.as_str(), "command");
        let is_param = same_text(n.as_str(), "param");
        let is_type = same_text(n.as_str(), "type");
        if same_text(n.as_str(), "enums") {
            self.end_enums_exec();
        } else if is_member || is_command || is_param || is_type {
            if self.matching_what.len() == 0 {
                return Err(GenError::EmptyElementStack);
            }
            if !self.top_is(n.as_str()) {
            } else if is_member {
                let ghost before = self.struct_members@;
                append(&mut self.struct_members, "\t");
                append(&mut self.struct_members, self.member.name.as_str());
                append(&mut self.struct_members, ": ");
                crate::vkgen_parse::push_declared_type(&mut self.struct_members, &self.member);
                append(&mut self.struct_members, ",\n");
                assert(self.struct_members@ =~= before + legacy_member_line(self.member@));
            } else if is_command {
                let ghost old_c = triples_view(self.registry.commands@);
                let ghost item = (self.function_name@, self.parameters@, self.return_value@);
                self.registry.commands.push(
                    (self.function_name.clone(), self.parameters.clone(), self.return_value.clone()),
                );
                assert(triples_view(self.registry.commands@) =~= old_c.push(item));
                self.parameters = String::new();
            } else if is_param {
                let ghost before = self.parameters@;
                append(&mut self.parameters, self.param.name.as_str());
                append(&mut self.parameters, ": ");
                crate::vkgen_parse::push_declared_type(&mut self.parameters, &self.param);
                append(&mut self.parameters, ", ");
                assert(self.parameters@ =~= before + parameter_text(self.param@));
                self.param.ptr = false;
                self.param.is_const = false;
                self.param.array = false;
                self.param.array_size = String::new();
            } else if self.matching_what.len() < 2 {
                return Err(GenError::EmptyElementStack);
            } else if self.second_is("types") {
                self.end_type_exec();
            }
        }
        let ghost before = self@;
        if self.matching_what.len() > 0 {
            self.matching_what.pop();
            assert(self@.stack =~= before.stack.drop_last());
        }
        Ok(())
    }

    /// One event.
    pub fn handle_event(&mut self, ev: &XmlEvent) -> (r: Result<(), GenError>)
        ensures
            match legacy_step(old(self)@, ev@) {
                Ok(q) => r is Ok && final(self)@ == q,
                Err(e) => r == Err::<(), GenError>(e),
            },
    {
        match ev {
            XmlEvent::Start(t) => self.start_element(t),
            XmlEvent::Empty(t) => self.empty_element(t),
            XmlEvent::Text(s) => self.text(s),
            XmlEvent::End(n) => self.end_element(n),
            XmlEvent::Other => Ok(()),
        }
    }
}

/// A declarator after text of its element (executable).
fn legacy_scan_exec(d: &mut Declarator, text: &String)
    ensures
        final(d)@ == legacy_scan(old(d)@, text@),
{
    let cs = chars_of(text.as_str());
    let const_pat = chars_of("const");
    let star_pat = chars_of("*");
    let bracket_pat = chars_of("[");
    if contains(&cs, &const_pat) {
        d.is_const = true;
    }
    if contains(&cs, &star_pat) {
        d.ptr = true;
    }
    if contains(&cs, &bracket_pat) {
        d.array = true;
        match last_array_size_exec(text.as_str()) {
            Some(c) => {
                let mut size = String::new();
                push_char(&mut size, c);
                assert(size@ =~= seq![c]);
                d.array_size = size;
            },
            None => {},
        }
    }
}

/// Reads the registry from its XML events, as the first generator does.
pub fn legacy_read_registry(events: &Vec<XmlEvent>) -> (r: Result<LegacyRegistry, GenError>)
    ensures
        match legacy_run(legacy_initial(), events_view(events@)) {
            Ok(q) => r matches Ok(reg) && reg@ == q.registry,
            Err(e) => r == Err::<LegacyRegistry, GenError>(e),
        },
{
    let mut parser = LegacyParser::new();
    let ghost all = events_view(events@);
    let mut i: usize = 0;
    assert(all.skip(0) =~= all);
    while i < events.len()
        invariant
            i <= events@.len(),
            all == events_view(events@),
            legacy_run(parser@, all.skip(i as int)) == legacy_run(legacy_initial(), all),
        decreases events@.len() - i,
    {
        let ghost rest = all.skip(i as int);
        assert(rest[0] == events@[i as int]@);
        assert(rest.drop_first() =~= all.skip(i + 1));
        let r = parser.handle_event(&events[i]);
        if r.is_err() {
            return match r {
                Err(e) => Err(e),
                Ok(_) => Err(GenError::EmptyElementStack),
            };
        }
        i = i + 1;
    }
    assert(all.skip(i as int) =~= Seq::<XmlEventView>::empty());
    Ok(parser.registry)
}

/// Appends the API constants.
fn push_legacy_constants(out: &mut String, items: &Vec<(String, String)>)
    ensures
        final(out)@ == old(out)@ + concat_map(pairs_view(items@), legacy_constant_f()),
{
    let ghost v = pairs_view(items@);
    let ghost before = out@;
    let mut i: usize = 0;
    assert(v.take(0) =~= Seq::<(Seq<char>, Seq<char>)>::empty());
    while i < items.len()
        invariant
            i <= items@.len(),
            v == pairs_view(items@),
            out@ == before + concat_map(v.take(i as int), legacy_constant_f()),
        decreases items@.len() - i,
    {
        proof {
            lemma_concat_map_take(v, legacy_constant_f(), i as int);
        }
        let ghost b2 = out@;
        append(out, "const ");
        append(out, items[i].0.as_str());
        append(out, ": ");
        let ty = guess_type_from_name(&items[i].0);
        append(out, ty.as_str());
        append(out, " = ");
        let val = translate_values(items[i].1.clone());
        append(out, val.as_str());
        append(out, ";\n");
        assert(out@ =~= b2 + (legacy_constant_f())(v[i as int]));
        i = i + 1;
    }
    proof {
        lemma_take_all(v);
    }
}

/// Appends 64-bit type aliases.
fn push_aliases_i64(out: &mut String, items: &Vec<String>)
    ensures
        final(out)@ == old(out)@ + concat_map(texts_view(items@), alias_f("i64"@)),
{
    let ghost v = texts_view(items@);
    let ghost before = out@;
    let mut i: usize = 0;
    assert(v.take(0) =~= Seq::<Seq<char>>::empty());
    while i < items.len()
        invariant
            i <= items@.len(),
            v == texts_view(items@),
            out@ == before + concat_map(v.take(i as int), alias_f("i64"@)),
        decreases items@.len() - i,
    {
        proof {
            lemma_concat_map_take(v, alias_f("i64"@), i as int);
        }
        let ghost b2 = out@;
        append(out, "type ");
        append(out, items[i].as_str());
        append(out, " = ");
        append(out, "i64");
        append(out, ";\n");
        assert(out@ =~= b2 + (alias_f("i64"@))(v[i as int]));
        i = i + 1;
    }
    proof {
        lemma_take_all(v);
    }
}

/// Appends 32-bit type aliases.
fn push_aliases_i32(out: &mut String, items: &Vec<String>)
    ensures
        final(out)@ == old(out)@ + concat_map(texts_view(items@), alias_f("i32"@)),
{
    let ghost v = texts_view(items@);
    let ghost before = out@;
    let mut i: usize = 0;
    assert(v.take(0) =~= Seq::<Seq<char>>::empty());
    while i < items.len()
        invariant
            i <= items@.len(),
            v == texts_view(items@),
            out@ == before + concat_map(v.take(i as int), alias_f("i32"@)),
        decreases items@.len() - i,
    {
        proof {
            lemma_concat_map_take(v, alias_f("i32"@), i as int);
        }
        let ghost b2 = out@;
        append(out, "type ");
        append(out, items[i].as_str());
        append(out, " = ");
        append(out, "i32");
        append(out, ";\n");
        assert(out@ =~= b2 + (alias_f("i32"@))(v[i as int]));
        i = i + 1;
    }
    proof {
        lemma_take_all(v);
    }
}

/// Appends the enums.
fn push_legacy_enums(out: &mut String, items: &Vec<(String, String)>)
    ensures
        final(out)@ == old(out)@ + concat_map(pairs_view(items@), legacy_enum_f()),
{
    let ghost v = pairs_view(items@);
    let ghost before = out@;
    let mut i: usize = 0;
    assert(v.take(0) =~= Seq::<(Seq<char>, Seq<char>)>::empty());
    while i < items.len()
        invariant
            i <= items@.len(),
            v == pairs_view(items@),
            out@ == before + concat_map(v.take(i as int), legacy_enum_f()),
        decreases items@.len() - i,
    {
        proof {
            lemma_concat_map_take(v, legacy_enum_f(), i as int);
        }
        let ghost b2 = out@;
        append(out, "#[repr(i32)]\nenum ");
        append(out, items[i].0.as_str());
        append(out, " {\n");
        append(out, items[i].1.as_str());
        append(out, "\n");
        append(out, "}\n\n");
        assert(out@ =~= b2 + (legacy_enum_f())(v[i as int]));
        i = i + 1;
    }
    proof {
        lemma_take_all(v);
    }
}

/// Appends the flag sets.
fn push_legacy_bitflags(out: &mut String, items: &Vec<(String, String)>)
    ensures
        final(out)@ == old(out)@ + concat_map(pairs_view(items@), legacy_bitflags_f()),
{
    let ghost v = pairs_view(items@);
    let ghost before = out@;
    let mut i: usize = 0;
    assert(v.take(0) =~= Seq::<(Seq<char>, Seq<char>)>::empty());
    while i < items.len()
        invariant
            i <= items@.len(),
            v == pairs_view(items@),
            out@ == before + concat_map(v.take(i as int), legacy_bitflags_f()),
        decreases items@.len() - i,
    {
        proof {
            lemma_concat_map_take(v, legacy_bitflags_f(), i as int);
        }
        let ghost b2 = out@;
        append(out, "bitflags! {\n\tstruct ");
        append(out, items[i].0.as_str());
        append(out, ": u32 {\n");
        append(out, items[i].1.as_str());
        append(out, "\n");
        append(out, "\t}\n}\n\n");
        assert(out@ =~= b2 + (legacy_bitflags_f())(v[i as int]));
        i = i + 1;
    }
    proof {
        lemma_take_all(v);
    }
}

/// Appends the structs.
fn push_legacy_structs(out: &mut String, items: &Vec<(String, String)>)
    ensures
        final(out)@ == old(out)@ + concat_map(pairs_view(items@), legacy_struct_f()),
{
    let ghost v = pairs_view(items@);
    let ghost before = out@;
    let mut i: usize = 0;
    assert(v.take(0) =~= Seq::<(Seq<char>, Seq<char>)>::empty());
    while i < items.len()
        invariant
            i <= items@.len(),
            v == pairs_view(items@),
            out@ == before + concat_map(v.take(i as int), legacy_struct_f()),
        decreases items@.len() - i,
    {
        proof {
            lemma_concat_map_take(v, legacy_struct_f(), i as int);
        }
        let ghost b2 = out@;
        append(out, "#[repr(C)]\nstruct ");
        append(out, items[i].0.as_str());
        append(out, " {\n");
        append(out, items[i].1.as_str());
        append(out, "\n}\n");
        assert(out@ =~= b2 + (legacy_struct_f())(v[i as int]));
        i = i + 1;
    }
    proof {
        lemma_take_all(v);
    }
}

/// Appends the command declarations.
fn push_legacy_commands(out: &mut String, items: &Vec<(String, String, String)>)
    ensures
        final(out)@ == old(out)@ + concat_map(triples_view(items@), legacy_command_f()),
{
    let ghost v = triples_view(items@);
    let ghost before = out@;
    let mut i: usize = 0;
    assert(v.take(0) =~= Seq::<(Seq<char>, Seq<char>, Seq<char>)>::empty());
    while i < items.len()
        invariant
            i <= items@.len(),
            v == triples_view(items@),
            out@ == before + concat_map(v.take(i as int), legacy_command_f()),
        decreases items@.len() - i,
    {
        proof {
            lemma_concat_map_take(v, legacy_command_f(), i as int);
        }
        let ghost b2 = out@;
        append(out, "\tfn ");
        append(out, items[i].0.as_str());
        append(out, "(");
        append(out, items[i].1.as_str());
        append(out, ") -> ");
        append(out, items[i].2.as_str());
        append(out, ";\n");
        assert(out@ =~= b2 + (legacy_command_f())(v[i as int]));
        i = i + 1;
    }
    proof {
        lemma_take_all(v);
    }
}

/// Writes the Rust source that the first generator gives for a registry.
pub fn legacy_render_registry(r: &LegacyRegistry) -> (out: String)
    ensures
        out@ == legacy_render(r@),
{
    let mut out = String::new();
    append(&mut out, LEGACY_FLUFF);
    append(&mut out, "\n");
    push_legacy_constants(&mut out, &r.api_constants);
    push_aliases_i64(&mut out, &r.types);
    push_aliases_i32(&mut out, &r.bitmask_types);
    push_aliases_i64(&mut out, &r.handle_types);
    push_legacy_enums(&mut out, &r.enums);
    push_legacy_bitflags(&mut out, &r.bitflags);
    push_legacy_structs(&mut out, &r.structs);
    append(&mut out, "#[link(name = \"vulkan\")]\n");
    append(&mut out, "extern {\n");
    push_legacy_commands(&mut out, &r.commands);
    append(&mut out, "}\n");
    assert(out@ =~= legacy_render(r@));
    out
}

/// Generates the first generator's Rust binding from the events of `vk.xml`.
pub fn legacy_generate(events: &Vec<XmlEvent>) -> (r: Result<String, GenError>)
    ensures
        match spec_legacy_generate(events_view(events@)) {
            Ok(text) => r matches Ok(s) && s@ == text,
            Err(e) => r == Err::<String, GenError>(e),
        },
{
    let registry = legacy_read_registry(events)?;
    Ok(legacy_render_registry(&registry))
}

/// What the first generator gives for the text of `vk.xml`: the events are
/// read up to the end of the document or the first failure to read one, and
/// the generator stops at the first of its own errors among them, or else at
/// that failure, or else writes the registry out.
pub open spec fn spec_legacy_generate_from_text(b: Seq<u8>) -> Result<Seq<char>, SourceFailure> {
    match legacy_run(legacy_initial(), events_read(b)) {
        Err(g) => Err(SourceFailure::Gen(g)),
        Ok(q) => match read_failure(b) {
            Some(f) => Err(SourceFailure::Xml(f)),
            None => Ok(legacy_render(q.registry)),
        },
    }
}

/// Generates the first generator's Rust binding from the text of `vk.xml`.
pub fn legacy_generate_from_xml(text: &str) -> (r: Result<String, SourceError>)
    ensures
        match spec_legacy_generate_from_text(text.spec_bytes()) {
            Ok(s) => r matches Ok(o) && o@ == s,
            Err(f) => r matches Err(e) && e.failure() == f,
        },
{
    let (events, failure) = read_xml_events(text);
    assert(events_view(events@) =~= events_read(text.spec_bytes()));
    let registry = match legacy_read_registry(&events) {
        Ok(registry) => registry,
        Err(g) => return Err(SourceError::Gen(g)),
    };
    if let Some(e) = failure {
        return Err(SourceError::Xml(e));
    }
    Ok(legacy_render_registry(&registry))
}

} // verus!
