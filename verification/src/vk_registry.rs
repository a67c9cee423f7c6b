//! What the registry generator gathers from `vk.xml`, and the declarator
//! state it keeps for a struct member or a command parameter.

use vstd::prelude::*;
use crate::text::same_text;

verus! {

/// Where the generator gives up on its input.
#[derive(Debug, Clone, Copy, PartialEq, Eq, Structural)]
pub enum GenError {
    /// Text or an element came where the open-element stack is too shallow.
    EmptyElementStack,
    /// A number attribute (`bitpos`, `offset`, `number`, an enum `value`) is
    /// not a number of its type.
    BadNumber,
    /// An enum value, flag, feature item or extension item came before any
    /// enum, flag set, feature or extension it could belong to.
    NoOpenBlock,
    /// The registry holds no comment to head the output with.
    NoComment,
    /// An extension enum value does not fit in 32 bits.
    NumberOverflow,
    /// The header version define does not end with digits.
    NoHeaderVersionDigits,
}

/// The declarator of a struct member or command parameter being read.
#[derive(Debug, Clone, PartialEq, Eq)]
pub struct Declarator {
    pub name: String,
    pub type_text: String,
    pub ptr: bool,
    pub ptr_ptr: bool,
    pub is_const: bool,
    pub array: bool,
    pub array_size: String,
}

/// The mathematical value of a declarator.
#[verifier::ext_equal]
pub struct DeclaratorView {
    pub name: Seq<char>,
    pub type_text: Seq<char>,
    pub ptr: bool,
    pub ptr_ptr: bool,
    pub is_const: bool,
    pub array: bool,
    pub array_size: Seq<char>,
}

impl View for Declarator {
    type V = DeclaratorView;

    open spec fn view(&self) -> DeclaratorView {
        DeclaratorView {
            name: self.name@,
            type_text: self.type_text@,
            ptr: self.ptr,
            ptr_ptr: self.ptr_ptr,
            is_const: self.is_const,
            array: self.array,
            array_size: self.array_size@,
        }
    }
}

impl Declarator {
    /// A declarator with empty texts and no flags.
    pub fn new() -> (r: Self)
        ensures
            r@ == (DeclaratorView {
                name: Seq::empty(),
                type_text: Seq::empty(),
                ptr: false,
                ptr_ptr: false,
                is_const: false,
                array: false,
                array_size: Seq::empty(),
            }),
    {
        Declarator {
            name: String::new(),
            type_text: String::new(),
            ptr: false,
            ptr_ptr: false,
            is_const: false,
            array: false,
            array_size: String::new(),
        }
    }
}

/// An enum of the registry and its values.
#[derive(Debug, Clone, PartialEq, Eq)]
pub struct EnumDef {
    pub name: String,
    pub values: Vec<(String, i32)>,
}

/// The value of a flag: a bit position or a written value.
#[derive(Debug, Clone, PartialEq, Eq)]
pub enum BitflagsValueType {
    Bitpos(u32),
    Value(String),
}

/// A set of flags of the registry and its members.
#[derive(Debug, Clone, PartialEq, Eq)]
pub struct BitflagsDef {
    pub name: String,
    pub values: Vec<(String, BitflagsValueType)>,
}

/// An item that a core feature requires.
#[derive(Debug, Clone, PartialEq, Eq)]
pub enum FeatureContent {
    Command(String),
    Type(String),
    Enum(String),
}

/// A block of items that a core feature requires, with its comment.
#[derive(Debug, Clone, PartialEq, Eq)]
pub struct FeatureBlock {
    pub comment: String,
    pub contents: Vec<FeatureContent>,
}

/// An item that an extension adds.
#[derive(Debug, Clone, PartialEq, Eq)]
pub enum ExtensionNewType {
    EnumExtension { name: String, offset: u32, extends: String, comment: String, dir: String },
    BitflagsExtension { name: String, bitpos: u32, extends: String, comment: String },
    Command(String),
    Type(String),
}

/// An extension of the registry.
#[derive(Debug, Clone, PartialEq, Eq)]
pub struct Extension {
    pub name: String,
    pub number: u32,
    pub extension_type: String,
    pub author: String,
    pub contact: String,
    pub supported: String,
    pub types: Vec<ExtensionNewType>,
}

/// Everything the generator gathers from the registry.
#[derive(Debug, Clone, PartialEq, Eq)]
pub struct Registry {
    pub comments: Vec<String>,
    /// Name and value of each API constant.
    pub api_constants: Vec<(String, String)>,
    /// Name, then parameters and return type, of each command; a later
    /// command of the same name replaces an earlier one.
    pub commands: Vec<(String, (String, String))>,
    pub types: Vec<String>,
    /// Name and the type it requires, of each bitmask type.
    pub bitmask_types: Vec<(String, String)>,
    pub handle_types: Vec<String>,
    /// Name and text of each define.
    pub define_types: Vec<(String, String)>,
    pub enums: Vec<EnumDef>,
    pub bitflags: Vec<BitflagsDef>,
    /// Name, member lines and whether a member is an array, of each struct.
    pub structs: Vec<(String, String, bool)>,
    pub features: Vec<FeatureBlock>,
    pub extensions: Vec<Extension>,
}

#[verifier::ext_equal]
pub struct EnumDefView {
    pub name: Seq<char>,
    pub values: Seq<(Seq<char>, i32)>,
}

#[verifier::ext_equal]
pub enum BitflagsValueTypeView {
    Bitpos(u32),
    Value(Seq<char>),
}

#[verifier::ext_equal]
pub struct BitflagsDefView {
    pub name: Seq<char>,
    pub values: Seq<(Seq<char>, BitflagsValueTypeView)>,
}

#[verifier::ext_equal]
pub enum FeatureContentView {
    Command(Seq<char>),
    Type(Seq<char>),
    Enum(Seq<char>),
}

#[verifier::ext_equal]
pub struct FeatureBlockView {
    pub comment: Seq<char>,
    pub contents: Seq<FeatureContentView>,
}

#[verifier::ext_equal]
pub enum ExtensionNewTypeView {
    EnumExtension { name: Seq<char>, offset: u32, extends: Seq<char>, comment: Seq<char>, dir: Seq<char> },
    BitflagsExtension { name: Seq<char>, bitpos: u32, extends: Seq<char>, comment: Seq<char> },
    Command(Seq<char>),
    Type(Seq<char>),
}

#[verifier::ext_equal]
pub struct ExtensionView {
    pub name: Seq<char>,
    pub number: u32,
    pub extension_type: Seq<char>,
    pub author: Seq<char>,
    pub contact: Seq<char>,
    pub supported: Seq<char>,
    pub types: Seq<ExtensionNewTypeView>,
}

#[verifier::ext_equal]
pub struct RegistryView {
    pub comments: Seq<Seq<char>>,
    pub api_constants: Seq<(Seq<char>, Seq<char>)>,
    pub commands: Seq<(Seq<char>, (Seq<char>, Seq<char>))>,
    pub types: Seq<Seq<char>>,
    pub bitmask_types: Seq<(Seq<char>, Seq<char>)>,
    pub handle_types: Seq<Seq<char>>,
    pub define_types: Seq<(Seq<char>, Seq<char>)>,
    pub enums: Seq<EnumDefView>,
    pub bitflags: Seq<BitflagsDefView>,
    pub structs: Seq<(Seq<char>, Seq<char>, bool)>,
    pub features: Seq<FeatureBlockView>,
    pub extensions: Seq<ExtensionView>,
}

pub open spec fn texts_view(s: Seq<String>) -> Seq<Seq<char>> {
    s.map_values(|x: String| x@)
}

pub open spec fn pairs_view(s: Seq<(String, String)>) -> Seq<(Seq<char>, Seq<char>)> {
    s.map_values(|p: (String, String)| (p.0@, p.1@))
}

pub open spec fn commands_view(s: Seq<(String, (String, String))>) -> Seq<(Seq<char>, (Seq<char>, Seq<char>))> {
    s.map_values(|p: (String, (String, String))| (p.0@, (p.1.0@, p.1.1@)))
}

pub open spec fn structs_view(s: Seq<(String, String, bool)>) -> Seq<(Seq<char>, Seq<char>, bool)> {
    s.map_values(|p: (String, String, bool)| (p.0@, p.1@, p.2))
}

pub open spec fn enum_values_view(s: Seq<(String, i32)>) -> Seq<(Seq<char>, i32)> {
    s.map_values(|p: (String, i32)| (p.0@, p.1))
}

impl View for EnumDef {
    type V = EnumDefView;

    open spec fn view(&self) -> EnumDefView {
        EnumDefView { name: self.name@, values: enum_values_view(self.values@) }
    }
}

impl View for BitflagsValueType {
    type V = BitflagsValueTypeView;

    open spec fn view(&self) -> BitflagsValueTypeView {
        match self {
            BitflagsValueType::Bitpos(b) => BitflagsValueTypeView::Bitpos(*b),
            BitflagsValueType::Value(v) => BitflagsValueTypeView::Value(v@),
        }
    }
}

pub open spec fn flag_values_view(s: Seq<(String, BitflagsValueType)>) -> Seq<(Seq<char>, BitflagsValueTypeView)> {
    s.map_values(|p: (String, BitflagsValueType)| (p.0@, p.1@))
}

impl View for BitflagsDef {
    type V = BitflagsDefView;

    open spec fn view(&self) -> BitflagsDefView {
        BitflagsDefView { name: self.name@, values: flag_values_view(self.values@) }
    }
}

impl View for FeatureContent {
    type V = FeatureContentView;

    open spec fn view(&self) -> FeatureContentView {
        match self {
            FeatureContent::Command(s) => FeatureContentView::Command(s@),
            FeatureContent::Type(s) => FeatureContentView::Type(s@),
            FeatureContent::Enum(s) => FeatureContentView::Enum(s@),
        }
    }
}

pub open spec fn contents_view(s: Seq<FeatureContent>) -> Seq<FeatureContentView> {
    s.map_values(|c: FeatureContent| c@)
}

impl View for FeatureBlock {
    type V = FeatureBlockView;

    open spec fn view(&self) -> FeatureBlockView {
        FeatureBlockView { comment: self.comment@, contents: contents_view(self.contents@) }
    }
}

impl View for ExtensionNewType {
    type V = ExtensionNewTypeView;

    open spec fn view(&self) -> ExtensionNewTypeView {
        match self {
            ExtensionNewType::EnumExtension { name, offset, extends, comment, dir } => ExtensionNewTypeView::EnumExtension {
                name: name@,
                offset: *offset,
                extends: extends@,
                comment: comment@,
                dir: dir@,
            },
            ExtensionNewType::BitflagsExtension { name, bitpos, extends, comment } => ExtensionNewTypeView::BitflagsExtension {
                name: name@,
                bitpos: *bitpos,
                extends: extends@,
                comment: comment@,
            },
            ExtensionNewType::Command(s) => ExtensionNewTypeView::Command(s@),
            ExtensionNewType::Type(s) => ExtensionNewTypeView::Type(s@),
        }
    }
}

pub open spec fn ext_types_view(s: Seq<ExtensionNewType>) -> Seq<ExtensionNewTypeView> {
    s.map_values(|t: ExtensionNewType| t@)
}

impl View for Extension {
    type V = ExtensionView;

    open spec fn view(&self) -> ExtensionView {
        ExtensionView {
            name: self.name@,
            number: self.number,
            extension_type: self.extension_type@,
            author: self.author@,
            contact: self.contact@,
            supported: self.supported@,
            types: ext_types_view(self.types@),
        }
    }
}

pub open spec fn enums_view(s: Seq<EnumDef>) -> Seq<EnumDefView> {
    s.map_values(|e: EnumDef| e@)
}

pub open spec fn bitflags_view(s: Seq<BitflagsDef>) -> Seq<BitflagsDefView> {
    s.map_values(|e: BitflagsDef| e@)
}

pub open spec fn features_view(s: Seq<FeatureBlock>) -> Seq<FeatureBlockView> {
    s.map_values(|e: FeatureBlock| e@)
}

pub open spec fn extensions_view(s: Seq<Extension>) -> Seq<ExtensionView> {
    s.map_values(|e: Extension| e@)
}

impl View for Registry {
    type V = RegistryView;

    open spec fn view(&self) -> RegistryView {
        RegistryView {
            comments: texts_view(self.comments@),
            api_constants: pairs_view(self.api_constants@),
            commands: commands_view(self.commands@),
            types: texts_view(self.types@),
            bitmask_types: pairs_view(self.bitmask_types@),
            handle_types: texts_view(self.handle_types@),
            define_types: pairs_view(self.define_types@),
            enums: enums_view(self.enums@),
            bitflags: bitflags_view(self.bitflags@),
            structs: structs_view(self.structs@),
            features: features_view(self.features@),
            extensions: extensions_view(self.extensions@),
        }
    }
}

impl Registry {
    /// A registry with nothing gathered yet.
    pub fn new() -> (r: Self)
        ensures
            r@.comments.len() == 0,
            r@.api_constants.len() == 0,
            r@.commands.len() == 0,
            r@.types.len() == 0,
            r@.bitmask_types.len() == 0,
            r@.handle_types.len() == 0,
            r@.define_types.len() == 0,
            r@.enums.len() == 0,
            r@.bitflags.len() == 0,
            r@.structs.len() == 0,
            r@.features.len() == 0,
            r@.extensions.len() == 0,
    {
        Registry {
            comments: Vec::new(),
            api_constants: Vec::new(),
            commands: Vec::new(),
            types: Vec::new(),
            bitmask_types: Vec::new(),
            handle_types: Vec::new(),
            define_types: Vec::new(),
            enums: Vec::new(),
            bitflags: Vec::new(),
            structs: Vec::new(),
            features: Vec::new(),
            extensions: Vec::new(),
        }
    }
}

/// Position of the command named `k` at or after `i`, or the number of commands.
pub open spec fn command_position(s: Seq<(Seq<char>, (Seq<char>, Seq<char>))>, k: Seq<char>, i: int) -> int
    decreases s.len() - i,
{
    if i >= s.len() || i < 0 {
        s.len() as int
    } else if s[i].0 == k {
        i
    } else {
        command_position(s, k, i + 1)
    }
}

/// The command named `k`, if there is one.
pub open spec fn command_lookup(s: Seq<(Seq<char>, (Seq<char>, Seq<char>))>, k: Seq<char>) -> Option<
    (Seq<char>, Seq<char>),
> {
    let p = command_position(s, k, 0);
    if p < s.len() {
        Some(s[p].1)
    } else {
        None
    }
}

/// Setting command `k`: the command of that name gets the new parameters and
/// return type, or the command is added at the end.
pub open spec fn command_insert(s: Seq<(Seq<char>, (Seq<char>, Seq<char>))>, k: Seq<char>, v: (Seq<char>, Seq<char>)) -> Seq<
    (Seq<char>, (Seq<char>, Seq<char>)),
> {
    let p = command_position(s, k, 0);
    if p < s.len() {
        s.update(p, (k, v))
    } else {
        s.push((k, v))
    }
}

/// `command_position` finds the first command named `k` at or after `i`.
proof fn lemma_command_position(s: Seq<(Seq<char>, (Seq<char>, Seq<char>))>, k: Seq<char>, i: int)
    requires
        0 <= i <= s.len(),
    ensures
        i <= command_position(s, k, i) <= s.len(),
        command_position(s, k, i) < s.len() ==> s[command_position(s, k, i)].0 == k,
        forall|j: int| i <= j < command_position(s, k, i) ==> s[j].0 != k,
    decreases s.len() - i,
{
    if i < s.len() && s[i].0 != k {
        lemma_command_position(s, k, i + 1);
    }
}

/// The first command named `k` at or after `i` is at `j` when `j` has that
/// name and none between `i` and `j` has.
proof fn lemma_command_position_at(s: Seq<(Seq<char>, (Seq<char>, Seq<char>))>, k: Seq<char>, i: int, j: int)
    requires
        0 <= i <= j <= s.len(),
        j < s.len() ==> s[j].0 == k,
        forall|m: int| i <= m < j ==> s[m].0 != k,
    ensures
        command_position(s, k, i) == j,
    decreases j - i,
{
    if i < j {
        lemma_command_position_at(s, k, i + 1, j);
    }
}

/// Setting a command and then looking it up gives what was set, and every
/// other command is looked up as before.
pub proof fn lemma_command_insert_lookup(
    s: Seq<(Seq<char>, (Seq<char>, Seq<char>))>,
    k: Seq<char>,
    v: (Seq<char>, Seq<char>),
    k2: Seq<char>,
)
    ensures
        command_lookup(command_insert(s, k, v), k) == Some(v),
        k2 != k ==> command_lookup(command_insert(s, k, v), k2) == command_lookup(s, k2),
{
    lemma_command_position(s, k, 0);
    lemma_command_position(s, k2, 0);
    let t = command_insert(s, k, v);
    let p = command_position(s, k, 0);
    assert forall|m: int| 0 <= m < t.len() && m != p implies #[trigger] t[m] == s[m] by {}
    lemma_command_position_at(t, k, 0, p);
    if k2 != k {
        let q = command_position(s, k2, 0);
        assert(q < s.len() ==> t[q] == s[q]);
        if q < s.len() {
            lemma_command_position_at(t, k2, 0, q);
        } else {
            assert forall|m: int| 0 <= m < t.len() implies t[m].0 != k2 by {
                if m != p {
                    assert(t[m] == s[m]);
                }
            }
            lemma_command_position_at(t, k2, 0, t.len() as int);
        }
    }
}

/// Sets command `name` to its parameters and return type.
pub fn insert_command(commands: &mut Vec<(String, (String, String))>, name: String, value: (String, String))
    ensures
        commands_view(final(commands)@) == command_insert(commands_view(old(commands)@), name@, (value.0@, value.1@)),
{
    let ghost s = commands_view(commands@);
    let mut i: usize = 0;
    while i < commands.len() && !same_text(commands[i].0.as_str(), name.as_str())
        invariant
            i <= commands@.len(),
            s == commands_view(commands@),
            command_position(s, name@, 0) == command_position(s, name@, i as int),
        decreases commands@.len() - i,
    {
        i = i + 1;
    }
    let ghost k = name@;
    let ghost v = (value.0@, value.1@);
    if i < commands.len() {
        commands.set(i, (name, value));
        assert(commands_view(commands@) =~= s.update(i as int, (k, v)));
    } else {
        commands.push((name, value));
        assert(commands_view(commands@) =~= s.push((k, v)));
    }
}

/// The parameters and return type of command `name`, if there is one.
pub fn find_command<'a>(commands: &'a Vec<(String, (String, String))>, name: &String) -> (r: Option<&'a (String, String)>)
    ensures
        match command_lookup(commands_view(commands@), name@) {
            Some(v) => r matches Some(c) && c.0@ == v.0 && c.1@ == v.1,
            None => r is None,
        },
{
    let ghost s = commands_view(commands@);
    let mut i: usize = 0;
    while i < commands.len() && !same_text(commands[i].0.as_str(), name.as_str())
        invariant
            i <= commands@.len(),
            s == commands_view(commands@),
            command_position(s, name@, 0) == command_position(s, name@, i as int),
        decreases commands@.len() - i,
    {
        i = i + 1;
    }
    if i < commands.len() {
        Some(&commands[i].1)
    } else {
        None
    }
}

} // verus!
