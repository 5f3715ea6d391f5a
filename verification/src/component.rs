//! The parts of a WebAssembly component that the analysis reads.
//!
//! A component is its list of sections in order. Each section that defines an item adds it
//! to one of the component's index spaces (functions, types, instances, ...), and items are
//! referred to by their position in that space.
use vstd::prelude::*;
use vstd::string::StringExecFns;

use crate::text::{decimal, u32_to_decimal};

verus! {

#[derive(Debug, Clone, Copy, PartialEq, Eq, Structural)]
pub enum PrimitiveValueType {
    Bool,
    S8,
    U8,
    S16,
    U16,
    S32,
    U32,
    S64,
    U64,
    F32,
    F64,
    Chr,
    Str,
}

/// The kinds of items a component can import, export or alias; each names an index space.
#[derive(Debug, Clone, Copy, PartialEq, Eq, Structural)]
pub enum ComponentExternalKind {
    Module,
    Func,
    Value,
    Type,
    Instance,
    Component,
}

#[derive(Debug, Clone, Copy, PartialEq, Eq, Structural)]
pub enum OuterAliasKind {
    CoreModule,
    CoreType,
    Type,
    Component,
}

#[derive(Debug, Clone, Copy, PartialEq, Eq, Structural)]
pub enum ComponentValType {
    Primitive(PrimitiveValueType),
    Defined(u32),
}

#[derive(Debug, Clone, Copy, PartialEq, Eq, Structural)]
pub enum TypeBounds {
    Eq(u32),
    SubResource,
}

#[derive(Debug, Clone, Copy, PartialEq, Eq, Structural)]
pub enum ComponentTypeRef {
    Module(u32),
    Func(u32),
    Value(ComponentValType),
    Type(TypeBounds),
    Instance(u32),
    Component(u32),
}

#[derive(Debug)]
pub struct VariantCase {
    pub name: String,
    pub typ: Option<ComponentValType>,
    pub refines: Option<u32>,
}

#[derive(Debug)]
pub enum ComponentDefinedType {
    Primitive { typ: PrimitiveValueType },
    Record { fields: Vec<(String, ComponentValType)> },
    Variant { cases: Vec<VariantCase> },
    List { elem: ComponentValType },
    Tuple { elems: Vec<ComponentValType> },
    Flags { names: Vec<String> },
    Enum { names: Vec<String> },
    Option { typ: ComponentValType },
    Result { ok: Option<ComponentValType>, err: Option<ComponentValType> },
    Owned { type_idx: u32 },
    Borrowed { type_idx: u32 },
}

#[derive(Debug)]
pub enum ComponentFuncResult {
    Unnamed(ComponentValType),
    Named(Vec<(String, ComponentValType)>),
}

#[derive(Debug)]
pub struct ComponentFuncType {
    pub params: Vec<(String, ComponentValType)>,
    pub result: ComponentFuncResult,
}

/// A type definition. Component, instance and resource types are only told apart, not read.
#[derive(Debug)]
pub enum ComponentType {
    Defined(ComponentDefinedType),
    Func(ComponentFuncType),
    Component,
    Instance,
    Resource { dtor: Option<u32> },
}

#[derive(Debug)]
pub struct ComponentExport {
    pub name: String,
    pub kind: ComponentExternalKind,
    pub idx: u32,
}

#[derive(Debug)]
pub struct ComponentImport {
    pub name: String,
    pub desc: ComponentTypeRef,
}

#[derive(Debug)]
pub enum ComponentInstance {
    Instantiate { component_idx: u32 },
    FromExports { exports: Vec<ComponentExport> },
}

#[derive(Debug, Clone, Copy, PartialEq, Eq, Structural)]
pub struct AliasTarget {
    pub count: u32,
    pub index: u32,
}

#[derive(Debug)]
pub enum Alias {
    InstanceExport { kind: ComponentExternalKind, instance_idx: u32, name: String },
    CoreInstanceExport { instance_idx: u32, name: String },
    Outer { kind: OuterAliasKind, target: AliasTarget },
}

#[derive(Debug, Clone, Copy, PartialEq, Eq, Structural)]
pub enum Canon {
    Lift { core_func_idx: u32, function_type: u32 },
    Lower { func_idx: u32 },
    ResourceNew { type_idx: u32 },
    ResourceDrop { type_idx: u32 },
    ResourceRep { type_idx: u32 },
}

/// One section of a component. Core modules, core instances, core types and start
/// functions are only told apart, not read.
#[derive(Debug)]
pub enum ComponentSection {
    Module,
    CoreInstance,
    CoreType,
    Component(Component),
    Instance(ComponentInstance),
    Alias(Alias),
    Type(ComponentType),
    Canon(Canon),
    Start,
    Import(ComponentImport),
    Export(ComponentExport),
}

#[derive(Debug)]
pub struct Component {
    pub sections: Vec<ComponentSection>,
}

/// The value an optional reference points to.
pub open spec fn opt_deref<T>(o: Option<&T>) -> Option<T> {
    match o {
        Some(x) => Some(*x),
        None => None,
    }
}

/// The values that a list of references points to.
pub open spec fn deref_exports<'a>(v: Seq<&'a ComponentExport>) -> Seq<ComponentExport> {
    v.map_values(|e: &'a ComponentExport| *e)
}

/// The index space that a section adds an item to, if any.
pub open spec fn section_space(s: ComponentSection) -> Option<ComponentExternalKind> {
    match s {
        ComponentSection::Module => Some(ComponentExternalKind::Module),
        ComponentSection::Component(_) => Some(ComponentExternalKind::Component),
        ComponentSection::Instance(_) => Some(ComponentExternalKind::Instance),
        ComponentSection::Alias(Alias::InstanceExport { kind, .. }) => Some(kind),
        ComponentSection::Alias(Alias::CoreInstanceExport { .. }) => None,
        ComponentSection::Alias(Alias::Outer { kind, .. }) => match kind {
            OuterAliasKind::CoreModule => Some(ComponentExternalKind::Module),
            OuterAliasKind::CoreType => None,
            OuterAliasKind::Type => Some(ComponentExternalKind::Type),
            OuterAliasKind::Component => Some(ComponentExternalKind::Component),
        },
        ComponentSection::Type(_) => Some(ComponentExternalKind::Type),
        ComponentSection::Canon(Canon::Lift { .. }) => Some(ComponentExternalKind::Func),
        ComponentSection::Canon(_) => None,
        ComponentSection::Import(i) => Some(type_ref_kind(i.desc)),
        ComponentSection::Export(e) => Some(e.kind),
        ComponentSection::CoreInstance => None,
        ComponentSection::CoreType => None,
        ComponentSection::Start => None,
    }
}

/// The kind of item that an import with this description brings in.
pub open spec fn type_ref_kind(d: ComponentTypeRef) -> ComponentExternalKind {
    match d {
        ComponentTypeRef::Module(_) => ComponentExternalKind::Module,
        ComponentTypeRef::Func(_) => ComponentExternalKind::Func,
        ComponentTypeRef::Value(_) => ComponentExternalKind::Value,
        ComponentTypeRef::Type(_) => ComponentExternalKind::Type,
        ComponentTypeRef::Instance(_) => ComponentExternalKind::Instance,
        ComponentTypeRef::Component(_) => ComponentExternalKind::Component,
    }
}

/// The item at position `idx` of index space `kind`, among `sections` taken in order.
pub open spec fn nth_in_space(
    sections: Seq<ComponentSection>,
    kind: ComponentExternalKind,
    idx: nat,
) -> Option<ComponentSection>
    decreases sections.len(),
{
    if sections.len() == 0 {
        None
    } else if section_space(sections[0]) == Some(kind) {
        if idx == 0 {
            Some(sections[0])
        } else {
            nth_in_space(sections.drop_first(), kind, (idx - 1) as nat)
        }
    } else {
        nth_in_space(sections.drop_first(), kind, idx)
    }
}

/// The exports of a component: its export sections, in order.
pub open spec fn exports_of(sections: Seq<ComponentSection>) -> Seq<ComponentExport>
    decreases sections.len(),
{
    if sections.len() == 0 {
        Seq::empty()
    } else {
        let rest = exports_of(sections.drop_last());
        match sections.last() {
            ComponentSection::Export(e) => rest.push(e),
            _ => rest,
        }
    }
}

/// The name of a section's kind, used in error messages.
pub open spec fn section_kind_name(s: ComponentSection) -> Seq<char> {
    match s {
        ComponentSection::Module => "module"@,
        ComponentSection::CoreInstance => "core instance"@,
        ComponentSection::CoreType => "core type"@,
        ComponentSection::Component(_) => "component"@,
        ComponentSection::Instance(_) => "instance"@,
        ComponentSection::Alias(_) => "alias"@,
        ComponentSection::Type(_) => "type"@,
        ComponentSection::Canon(_) => "canonical function"@,
        ComponentSection::Start => "start"@,
        ComponentSection::Import(_) => "import"@,
        ComponentSection::Export(_) => "export"@,
    }
}

fn section_kind(s: &ComponentSection) -> (r: Option<ComponentExternalKind>)
    ensures
        r == section_space(*s),
{
    match s {
        ComponentSection::Module => Some(ComponentExternalKind::Module),
        ComponentSection::Component(_) => Some(ComponentExternalKind::Component),
        ComponentSection::Instance(_) => Some(ComponentExternalKind::Instance),
        ComponentSection::Alias(Alias::InstanceExport { kind, .. }) => Some(*kind),
        ComponentSection::Alias(Alias::CoreInstanceExport { .. }) => None,
        ComponentSection::Alias(Alias::Outer { kind, .. }) => match kind {
            OuterAliasKind::CoreModule => Some(ComponentExternalKind::Module),
            OuterAliasKind::CoreType => None,
            OuterAliasKind::Type => Some(ComponentExternalKind::Type),
            OuterAliasKind::Component => Some(ComponentExternalKind::Component),
        },
        ComponentSection::Type(_) => Some(ComponentExternalKind::Type),
        ComponentSection::Canon(Canon::Lift { .. }) => Some(ComponentExternalKind::Func),
        ComponentSection::Canon(_) => None,
        ComponentSection::Import(i) => Some(
            match i.desc {
                ComponentTypeRef::Module(_) => ComponentExternalKind::Module,
                ComponentTypeRef::Func(_) => ComponentExternalKind::Func,
                ComponentTypeRef::Value(_) => ComponentExternalKind::Value,
                ComponentTypeRef::Type(_) => ComponentExternalKind::Type,
                ComponentTypeRef::Instance(_) => ComponentExternalKind::Instance,
                ComponentTypeRef::Component(_) => ComponentExternalKind::Component,
            },
        ),
        ComponentSection::Export(e) => Some(e.kind),
        ComponentSection::CoreInstance => None,
        ComponentSection::CoreType => None,
        ComponentSection::Start => None,
    }
}

pub fn same_kind(a: ComponentExternalKind, b: ComponentExternalKind) -> (r: bool)
    ensures
        r == (a == b),
{
    a == b
}

impl ComponentSection {
    /// The name of this section's kind.
    pub fn kind_name(&self) -> (r: &'static str)
        ensures
            r@ == section_kind_name(*self),
    {
        match self {
            ComponentSection::Module => "module",
            ComponentSection::CoreInstance => "core instance",
            ComponentSection::CoreType => "core type",
            ComponentSection::Component(_) => "component",
            ComponentSection::Instance(_) => "instance",
            ComponentSection::Alias(_) => "alias",
            ComponentSection::Type(_) => "type",
            ComponentSection::Canon(_) => "canonical function",
            ComponentSection::Start => "start",
            ComponentSection::Import(_) => "import",
            ComponentSection::Export(_) => "export",
        }
    }
}

impl Component {
    /// The item at position `idx` of index space `kind`.
    pub fn get_in_space(&self, kind: ComponentExternalKind, idx: u32) -> (r: Option<&ComponentSection>)
        ensures
            opt_deref(r) == nth_in_space(self.sections@, kind, idx as nat),
    {
        let n = self.sections.len();
        let mut i: usize = 0;
        let mut remaining: u32 = idx;
        assert(self.sections@.skip(0) =~= self.sections@);
        while i < n
            invariant
                n == self.sections@.len(),
                i <= n,
                nth_in_space(self.sections@, kind, idx as nat)
                    == nth_in_space(self.sections@.skip(i as int), kind, remaining as nat),
            decreases n - i,
        {
            let s = &self.sections[i];
            proof {
                assert(self.sections@.skip(i as int).drop_first() =~= self.sections@.skip(i + 1));
                assert(self.sections@.skip(i as int)[0] == *s);
            }
            match section_kind(s) {
                Some(k) => {
                    if same_kind(k, kind) {
                        if remaining == 0 {
                            return Some(s);
                        }
                        remaining = remaining - 1;
                    }
                },
                None => {},
            }
            i = i + 1;
        }
        proof {
            assert(self.sections@.skip(i as int).len() == 0);
        }
        None
    }

    pub fn get_module(&self, idx: u32) -> (r: Option<&ComponentSection>)
        ensures
            opt_deref(r) == nth_in_space(self.sections@, ComponentExternalKind::Module, idx as nat),
    {
        self.get_in_space(ComponentExternalKind::Module, idx)
    }

    pub fn get_component_func(&self, idx: u32) -> (r: Option<&ComponentSection>)
        ensures
            opt_deref(r) == nth_in_space(self.sections@, ComponentExternalKind::Func, idx as nat),
    {
        self.get_in_space(ComponentExternalKind::Func, idx)
    }

    pub fn get_value(&self, idx: u32) -> (r: Option<&ComponentSection>)
        ensures
            opt_deref(r) == nth_in_space(self.sections@, ComponentExternalKind::Value, idx as nat),
    {
        self.get_in_space(ComponentExternalKind::Value, idx)
    }

    pub fn get_component_type(&self, idx: u32) -> (r: Option<&ComponentSection>)
        ensures
            opt_deref(r) == nth_in_space(self.sections@, ComponentExternalKind::Type, idx as nat),
    {
        self.get_in_space(ComponentExternalKind::Type, idx)
    }

    pub fn get_instance_wrapped(&self, idx: u32) -> (r: Option<&ComponentSection>)
        ensures
            opt_deref(r) == nth_in_space(self.sections@, ComponentExternalKind::Instance, idx as nat),
    {
        self.get_in_space(ComponentExternalKind::Instance, idx)
    }

    pub fn get_component(&self, idx: u32) -> (r: Option<&ComponentSection>)
        ensures
            opt_deref(r) == nth_in_space(self.sections@, ComponentExternalKind::Component, idx as nat),
    {
        self.get_in_space(ComponentExternalKind::Component, idx)
    }

    /// The component's exports, in the order of their sections.
    pub fn exports(&self) -> (r: Vec<&ComponentExport>)
        ensures
            deref_exports(r@) == exports_of(self.sections@),
            r@.len() == exports_of(self.sections@).len(),
            forall|i: int| 0 <= i < r@.len() ==> *r@[i] == exports_of(self.sections@)[i],
    {
        let n = self.sections.len();
        let mut out: Vec<&ComponentExport> = Vec::new();
        let mut i: usize = 0;
        while i < n
            invariant
                n == self.sections@.len(),
                i <= n,
                out@.len() == exports_of(self.sections@.take(i as int)).len(),
                forall|j: int| 0 <= j < out@.len() ==> *out@[j] == exports_of(self.sections@.take(i as int))[j],
            decreases n - i,
        {
            proof {
                assert(self.sections@.take(i + 1).drop_last() =~= self.sections@.take(i as int));
            }
            match &self.sections[i] {
                ComponentSection::Export(e) => {
                    out.push(e);
                },
                _ => {},
            }
            i = i + 1;
        }
        proof {
            assert(self.sections@.take(n as int) =~= self.sections@);
            assert(deref_exports(out@) =~= exports_of(self.sections@));
        }
        out
    }
}

/// The name of a primitive value type, as its derived `Debug` writes it.
pub open spec fn primitive_debug(p: PrimitiveValueType) -> Seq<char> {
    match p {
        PrimitiveValueType::Bool => "Bool"@,
        PrimitiveValueType::S8 => "S8"@,
        PrimitiveValueType::U8 => "U8"@,
        PrimitiveValueType::S16 => "S16"@,
        PrimitiveValueType::U16 => "U16"@,
        PrimitiveValueType::S32 => "S32"@,
        PrimitiveValueType::U32 => "U32"@,
        PrimitiveValueType::S64 => "S64"@,
        PrimitiveValueType::U64 => "U64"@,
        PrimitiveValueType::F32 => "F32"@,
        PrimitiveValueType::F64 => "F64"@,
        PrimitiveValueType::Chr => "Chr"@,
        PrimitiveValueType::Str => "Str"@,
    }
}

/// A value type, as its derived `Debug` writes it.
pub open spec fn val_type_debug(v: ComponentValType) -> Seq<char> {
    match v {
        ComponentValType::Primitive(p) => "Primitive("@ + primitive_debug(p) + ")"@,
        ComponentValType::Defined(i) => "Defined("@ + decimal(i as nat) + ")"@,
    }
}

/// An import description, as its derived `Debug` writes it.
pub open spec fn type_ref_debug(d: ComponentTypeRef) -> Seq<char> {
    match d {
        ComponentTypeRef::Module(i) => "Module("@ + decimal(i as nat) + ")"@,
        ComponentTypeRef::Func(i) => "Func("@ + decimal(i as nat) + ")"@,
        ComponentTypeRef::Value(v) => "Value("@ + val_type_debug(v) + ")"@,
        ComponentTypeRef::Type(TypeBounds::Eq(i)) => "Type(Eq("@ + decimal(i as nat) + "))"@,
        ComponentTypeRef::Type(TypeBounds::SubResource) => "Type(SubResource)"@,
        ComponentTypeRef::Instance(i) => "Instance("@ + decimal(i as nat) + ")"@,
        ComponentTypeRef::Component(i) => "Component("@ + decimal(i as nat) + ")"@,
    }
}

fn primitive_name(p: PrimitiveValueType) -> (r: &'static str)
    ensures
        r@ == primitive_debug(p),
{
    match p {
        PrimitiveValueType::Bool => "Bool",
        PrimitiveValueType::S8 => "S8",
        PrimitiveValueType::U8 => "U8",
        PrimitiveValueType::S16 => "S16",
        PrimitiveValueType::U16 => "U16",
        PrimitiveValueType::S32 => "S32",
        PrimitiveValueType::U32 => "U32",
        PrimitiveValueType::S64 => "S64",
        PrimitiveValueType::U64 => "U64",
        PrimitiveValueType::F32 => "F32",
        PrimitiveValueType::F64 => "F64",
        PrimitiveValueType::Chr => "Chr",
        PrimitiveValueType::Str => "Str",
    }
}

/// `open`, the number `n`, then `close`.
fn wrap_number(open: &str, n: u32, close: &str) -> (r: String)
    ensures
        r@ == open@ + decimal(n as nat) + close@,
{
    let mut s = String::from_str(open);
    let d = u32_to_decimal(n);
    s.append(d.as_str());
    s.append(close);
    s
}

/// `open`, then `inner`, then `close`.
fn wrap_text(open: &str, inner: &str, close: &str) -> (r: String)
    ensures
        r@ == open@ + inner@ + close@,
{
    let mut s = String::from_str(open);
    s.append(inner);
    s.append(close);
    s
}

impl ComponentValType {
    /// This value type as its derived `Debug` writes it.
    pub fn debug_text(&self) -> (r: String)
        ensures
            r@ == val_type_debug(*self),
    {
        match self {
            ComponentValType::Primitive(p) => wrap_text("Primitive(", primitive_name(*p), ")"),
            ComponentValType::Defined(i) => wrap_number("Defined(", *i, ")"),
        }
    }
}

impl ComponentTypeRef {
    /// This import description as its derived `Debug` writes it.
    pub fn debug_text(&self) -> (r: String)
        ensures
            r@ == type_ref_debug(*self),
    {
        match self {
            ComponentTypeRef::Module(i) => wrap_number("Module(", *i, ")"),
            ComponentTypeRef::Func(i) => wrap_number("Func(", *i, ")"),
            ComponentTypeRef::Value(v) => {
                let inner = v.debug_text();
                wrap_text("Value(", inner.as_str(), ")")
            },
            ComponentTypeRef::Type(TypeBounds::Eq(i)) => wrap_number("Type(Eq(", *i, "))"),
            ComponentTypeRef::Type(TypeBounds::SubResource) => String::from_str("Type(SubResource)"),
            ComponentTypeRef::Instance(i) => wrap_number("Instance(", *i, ")"),
            ComponentTypeRef::Component(i) => wrap_number("Component(", *i, ")"),
        }
    }
}

} // verus!
