//! Following references between components: exports, aliases and type imports are
//! chased until they reach the section that defines the item.
//!
//! Resolution works on a stack of components: the component being read is the last one,
//! and the components that enclose it come before it. Outer aliases look up the stack.
//!
//! The specifications carry a fuel argument: a result of `None` means that, with this much
//! fuel, resolution does not come back with a value, because it needs more steps or because
//! the input makes it fail without an answer (it would chase references forever, or reach
//! past the bottom of the stack).
use vstd::prelude::*;

use crate::component::{
    Alias, Component, ComponentExport, ComponentExternalKind, ComponentImport, ComponentInstance,
    ComponentSection, ComponentTypeRef, OuterAliasKind, TypeBounds, exports_of, nth_in_space,
    opt_deref, section_kind_name,
};
use crate::failure::{AnalysisFailure, missing_message};
use crate::text::{concat2, concat3, decimal, label_number, usize_to_decimal};

verus! {

/// One component on the stack, with its index in the component that encloses it (none
/// for the component the analysis started from).
#[derive(Debug, Clone, Copy)]
pub struct ComponentStackItem<'a> {
    pub component: &'a Component,
    pub component_idx: Option<u32>,
}

/// The value of a stack entry.
pub struct FrameModel {
    pub component: Component,
    pub component_idx: Option<u32>,
}

impl<'a> ComponentStackItem<'a> {
    pub open spec fn frame(self) -> FrameModel {
        FrameModel { component: *self.component, component_idx: self.component_idx }
    }
}

/// The values of the stack entries.
pub open spec fn frames<'a>(s: Seq<ComponentStackItem<'a>>) -> Seq<FrameModel> {
    s.map_values(|it: ComponentStackItem<'a>| it.frame())
}

/// The sections of the component at the top of the stack.
pub open spec fn top_sections(stack: Seq<FrameModel>) -> Seq<ComponentSection> {
    stack.last().component.sections@
}

/// A resolved item with the stack to read it in, or the message of a failure.
pub type Resolution = Result<(ComponentSection, Seq<FrameModel>), Seq<char>>;

/// The word for an item of kind `k` in failure messages.
pub open spec fn kind_label(k: ComponentExternalKind) -> Seq<char> {
    match k {
        ComponentExternalKind::Module => "module"@,
        ComponentExternalKind::Func => "function"@,
        ComponentExternalKind::Value => "value"@,
        ComponentExternalKind::Type => "type"@,
        ComponentExternalKind::Instance => "instance"@,
        ComponentExternalKind::Component => "component"@,
    }
}

/// The message of a failure on finding a section of the wrong kind: `lead` says what was
/// expected.
pub open spec fn unexpected_message(lead: Seq<char>, found: ComponentSection) -> Seq<char> {
    lead + section_kind_name(found) + " instead"@
}

/// The message when an outer alias reaches below the stack.
pub open spec fn underflow_message(count: u32, size: nat) -> Seq<char> {
    "Component stack underflow (count="@ + decimal(count as nat) + ", size="@ + decimal(size)
}

/// The first export in `exports` with the given name.
pub open spec fn first_export_named(exports: Seq<ComponentExport>, name: Seq<char>) -> Option<
    ComponentExport,
>
    decreases exports.len(),
{
    if exports.len() == 0 {
        None
    } else if exports[0].name@ == name {
        Some(exports[0])
    } else {
        first_export_named(exports.drop_first(), name)
    }
}

/// Looks up item `idx` of space `kind` in the top component, failing with a message that
/// names the item as `label` followed by `idx`, and follows it to its definition.
pub open spec fn resolve_final(
    stack: Seq<FrameModel>,
    kind: ComponentExternalKind,
    idx: u32,
    label: Seq<char>,
    fuel: nat,
) -> Option<Resolution>
    decreases fuel,
{
    if fuel == 0 {
        None
    } else {
        match nth_in_space(top_sections(stack), kind, idx as nat) {
            None => Some(Err(missing_message(label + decimal(idx as nat)))),
            Some(section) => resolve_follow(stack, section, (fuel - 1) as nat),
        }
    }
}

/// The definition that an exported item of kind `kind` and index `idx` stands for.
pub open spec fn resolve_follow_export(
    stack: Seq<FrameModel>,
    kind: ComponentExternalKind,
    idx: u32,
    fuel: nat,
) -> Option<Resolution>
    decreases fuel,
{
    if fuel == 0 {
        None
    } else {
        match nth_in_space(top_sections(stack), kind, idx as nat) {
            None => Some(Err(missing_message(kind_label(kind) + " "@ + decimal(idx as nat)))),
            Some(next) => resolve_follow(stack, next, (fuel - 1) as nat),
        }
    }
}

/// The definition that a section stands for: exports and aliases are followed, an import
/// of a type equal to another type gives that type, and any other section is its own
/// definition.
pub open spec fn resolve_follow(stack: Seq<FrameModel>, section: ComponentSection, fuel: nat) -> Option<
    Resolution,
>
    decreases fuel,
{
    if fuel == 0 {
        None
    } else {
        let f = (fuel - 1) as nat;
        match section {
            ComponentSection::Export(e) => resolve_follow_export(stack, e.kind, e.idx, f),
            ComponentSection::Alias(Alias::InstanceExport { instance_idx, name, .. }) => {
                match resolve_final(stack, ComponentExternalKind::Instance, instance_idx, "instance "@, f) {
                    None => None,
                    Some(Err(m)) => Some(Err(m)),
                    Some(Ok((instance_section, next))) => match instance_section {
                        ComponentSection::Instance(instance) => match resolve_find_export(
                            next,
                            instance,
                            name@,
                            f,
                        ) {
                            None => None,
                            Some(Err(m)) => Some(Err(m)),
                            Some(Ok((maybe_export, next2))) => match maybe_export {
                                None => Some(
                                    Err(
                                        missing_message(
                                            "missing aliased instance export "@ + name@
                                                + " from instance "@ + decimal(instance_idx as nat),
                                        ),
                                    ),
                                ),
                                Some(export) => resolve_follow_export(next2, export.kind, export.idx, f),
                            },
                        },
                        _ => Some(Err(unexpected_message("Expected instance, but got "@, instance_section))),
                    },
                }
            },
            ComponentSection::Import(ComponentImport { desc: ComponentTypeRef::Type(TypeBounds::Eq(idx)), .. }) => {
                match nth_in_space(top_sections(stack), ComponentExternalKind::Type, idx as nat) {
                    None => Some(Err(missing_message("type "@ + decimal(idx as nat)))),
                    Some(t) => Some(Ok((t, stack))),
                }
            },
            ComponentSection::Alias(Alias::Outer { kind, target }) => {
                if target.count > stack.len() {
                    None
                } else {
                    let referenced = stack.take(stack.len() - target.count);
                    if referenced.len() == 0 {
                        Some(Err(underflow_message(target.count, stack.len())))
                    } else {
                        let sections = referenced[0].component.sections@;
                        match kind {
                            OuterAliasKind::CoreModule => Some(Err("Core module aliases are not supported"@)),
                            OuterAliasKind::CoreType => Some(Err("Core type aliases are not supported"@)),
                            OuterAliasKind::Type => match nth_in_space(
                                sections,
                                ComponentExternalKind::Type,
                                target.index as nat,
                            ) {
                                None => Some(Err(missing_message("type "@ + decimal(target.index as nat)))),
                                Some(t) => resolve_follow(referenced, t, f),
                            },
                            OuterAliasKind::Component => match nth_in_space(
                                sections,
                                ComponentExternalKind::Component,
                                target.index as nat,
                            ) {
                                None => Some(
                                    Err(missing_message("component "@ + decimal(target.index as nat))),
                                ),
                                Some(c) => resolve_follow(referenced, c, f),
                            },
                        }
                    }
                }
            },
            _ => Some(Ok((section, stack))),
        }
    }
}

/// The export of an instance with the given name, if there is one, with the stack to read
/// it in: an instantiated component is pushed on the stack.
pub open spec fn resolve_find_export(
    stack: Seq<FrameModel>,
    instance: ComponentInstance,
    name: Seq<char>,
    fuel: nat,
) -> Option<Result<(Option<ComponentExport>, Seq<FrameModel>), Seq<char>>>
    decreases fuel,
{
    if fuel == 0 {
        None
    } else {
        match instance {
            ComponentInstance::Instantiate { component_idx } => match resolve_final(
                stack,
                ComponentExternalKind::Component,
                component_idx,
                "component "@,
                (fuel - 1) as nat,
            ) {
                None => None,
                Some(Err(m)) => Some(Err(m)),
                Some(Ok((section, next))) => match section {
                    ComponentSection::Component(c) => Some(
                        Ok(
                            (
                                first_export_named(exports_of(c.sections@), name),
                                next.push(FrameModel { component: c, component_idx: Some(component_idx) }),
                            ),
                        ),
                    ),
                    _ => None,
                },
            },
            ComponentInstance::FromExports { exports } => Some(
                Ok((first_export_named(exports@, name), stack)),
            ),
        }
    }
}

/// The executable result `r` is the resolution `s`.
pub open spec fn resolved_as<'a>(
    r: Result<(&'a ComponentSection, Vec<ComponentStackItem<'a>>), AnalysisFailure>,
    s: Resolution,
) -> bool {
    match (r, s) {
        (Ok((section, stack)), Ok((s_section, s_stack))) => *section == s_section && frames(stack@)
            == s_stack && stack@.len() > 0,
        (Err(e), Err(m)) => e.message() == m,
        _ => false,
    }
}

/// A copy of the first `n` entries of a stack.
pub fn stack_prefix<'a>(stack: &Vec<ComponentStackItem<'a>>, n: usize) -> (r: Vec<ComponentStackItem<'a>>)
    requires
        n <= stack@.len(),
    ensures
        r@ == stack@.take(n as int),
        frames(r@) == frames(stack@).take(n as int),
{
    let mut out: Vec<ComponentStackItem<'a>> = Vec::new();
    let mut i: usize = 0;
    while i < n
        invariant
            n <= stack@.len(),
            i <= n,
            out@ == stack@.take(i as int),
        decreases n - i,
    {
        out.push(stack[i]);
        i = i + 1;
        proof {
            assert(out@ =~= stack@.take(i as int));
        }
    }
    proof {
        assert(frames(out@) =~= frames(stack@).take(n as int));
    }
    out
}

/// The stack with one more component on top.
pub fn push_component<'a>(
    stack: &Vec<ComponentStackItem<'a>>,
    component: &'a Component,
    component_idx: u32,
) -> (r: Vec<ComponentStackItem<'a>>)
    ensures
        frames(r@) == frames(stack@).push(FrameModel { component: *component, component_idx: Some(component_idx) }),
        r@.len() == stack@.len() + 1,
{
    let mut out = stack_prefix(stack, stack.len());
    proof {
        assert(stack@.take(stack@.len() as int) =~= stack@);
    }
    out.push(ComponentStackItem { component, component_idx: Some(component_idx) });
    proof {
        assert(frames(out@) =~= frames(stack@).push(FrameModel { component: *component, component_idx: Some(component_idx) }));
    }
    out
}

/// The first export in `exports` with the given name.
fn find_export_named<'a>(exports: &Vec<&'a ComponentExport>, name: &String) -> (r: Option<&'a ComponentExport>)
    ensures
        opt_deref(r) == first_export_named(exports@.map_values(|e: &'a ComponentExport| *e), name@),
{
    let ghost all = exports@.map_values(|e: &'a ComponentExport| *e);
    let mut i: usize = 0;
    assert(all.skip(0) =~= all);
    while i < exports.len()
        invariant
            i <= exports@.len(),
            all == exports@.map_values(|e: &'a ComponentExport| *e),
            first_export_named(all, name@) == first_export_named(all.skip(i as int), name@),
        decreases exports@.len() - i,
    {
        proof {
            assert(all.skip(i as int).drop_first() =~= all.skip(i + 1));
        }
        if exports[i].name == *name {
            return Some(exports[i]);
        }
        i = i + 1;
    }
    None
}

/// The first export in `exports` with the given name.
fn find_owned_export_named<'a>(exports: &'a Vec<ComponentExport>, name: &String) -> (r: Option<&'a ComponentExport>)
    ensures
        opt_deref(r) == first_export_named(exports@, name@),
{
    let mut i: usize = 0;
    assert(exports@.skip(0) =~= exports@);
    while i < exports.len()
        invariant
            i <= exports@.len(),
            first_export_named(exports@, name@) == first_export_named(exports@.skip(i as int), name@),
        decreases exports@.len() - i,
    {
        proof {
            assert(exports@.skip(i as int).drop_first() =~= exports@.skip(i + 1));
        }
        if exports[i].name == *name {
            return Some(&exports[i]);
        }
        i = i + 1;
    }
    None
}

/// Looks up item `idx` of space `kind` in the top component and follows it to its
/// definition.
pub fn get_final_referenced<'a>(
    stack: &Vec<ComponentStackItem<'a>>,
    kind: ComponentExternalKind,
    idx: u32,
    label: &str,
    Ghost(fuel): Ghost<nat>,
) -> (r: Result<(&'a ComponentSection, Vec<ComponentStackItem<'a>>), AnalysisFailure>)
    requires
        stack@.len() > 0,
        resolve_final(frames(stack@), kind, idx, label@, fuel) is Some,
    ensures
        resolved_as(r, resolve_final(frames(stack@), kind, idx, label@, fuel).unwrap()),
    decreases fuel,
{
    let component = stack[stack.len() - 1].component;
    proof {
        assert(top_sections(frames(stack@)) == component.sections@);
    }
    match component.get_in_space(kind, idx) {
        None => {
            let d = label_number(label, idx);
            Err(AnalysisFailure::Failed(concat2("Missing ", d.as_str())))
        },
        Some(section) => follow_redirects(stack, section, Ghost((fuel - 1) as nat)),
    }
}

fn follow_export<'a>(
    stack: &Vec<ComponentStackItem<'a>>,
    kind: ComponentExternalKind,
    idx: u32,
    Ghost(fuel): Ghost<nat>,
) -> (r: Result<(&'a ComponentSection, Vec<ComponentStackItem<'a>>), AnalysisFailure>)
    requires
        stack@.len() > 0,
        resolve_follow_export(frames(stack@), kind, idx, fuel) is Some,
    ensures
        resolved_as(r, resolve_follow_export(frames(stack@), kind, idx, fuel).unwrap()),
    decreases fuel,
{
    let component = stack[stack.len() - 1].component;
    proof {
        assert(top_sections(frames(stack@)) == component.sections@);
    }
    match component.get_in_space(kind, idx) {
        None => {
            let label = match kind {
                ComponentExternalKind::Module => "module ",
                ComponentExternalKind::Func => "function ",
                ComponentExternalKind::Value => "value ",
                ComponentExternalKind::Type => "type ",
                ComponentExternalKind::Instance => "instance ",
                ComponentExternalKind::Component => "component ",
            };
            proof {
                reveal_strlit("module ");
                reveal_strlit("function ");
                reveal_strlit("value ");
                reveal_strlit("type ");
                reveal_strlit("instance ");
                reveal_strlit("component ");
                reveal_strlit("module");
                reveal_strlit("function");
                reveal_strlit("value");
                reveal_strlit("type");
                reveal_strlit("instance");
                reveal_strlit("component");
                reveal_strlit(" ");
                assert(label@ =~= kind_label(kind) + " "@);
            }
            let d = label_number(label, idx);
            Err(AnalysisFailure::Failed(concat2("Missing ", d.as_str())))
        },
        Some(next) => follow_redirects(stack, next, Ghost((fuel - 1) as nat)),
    }
}

/// Follows a section to its definition.
pub fn follow_redirects<'a>(
    stack: &Vec<ComponentStackItem<'a>>,
    section: &'a ComponentSection,
    Ghost(fuel): Ghost<nat>,
) -> (r: Result<(&'a ComponentSection, Vec<ComponentStackItem<'a>>), AnalysisFailure>)
    requires
        stack@.len() > 0,
        resolve_follow(frames(stack@), *section, fuel) is Some,
    ensures
        resolved_as(r, resolve_follow(frames(stack@), *section, fuel).unwrap()),
    decreases fuel,
{
    let ghost f = (fuel - 1) as nat;
    let component = stack[stack.len() - 1].component;
    proof {
        assert(top_sections(frames(stack@)) == component.sections@);
    }
    match section {
        ComponentSection::Export(e) => follow_export(stack, e.kind, e.idx, Ghost(f)),
        ComponentSection::Alias(Alias::InstanceExport { instance_idx, name, .. }) => {
            match get_final_referenced(stack, ComponentExternalKind::Instance, *instance_idx, "instance ", Ghost(f)) {
                Err(e) => Err(e),
                Ok((instance_section, next_ctx)) => match instance_section {
                    ComponentSection::Instance(instance) => {
                        match find_export_by_name(&next_ctx, instance, name, Ghost(f)) {
                            Err(e) => Err(e),
                            Ok((maybe_export, next_ctx2)) => match maybe_export {
                                None => {
                                    let a = concat3("missing aliased instance export ", name.as_str(), " from instance ");
                                    let b = label_number(a.as_str(), *instance_idx);
                                    Err(AnalysisFailure::Failed(concat2("Missing ", b.as_str())))
                                },
                                Some(export) => follow_export(&next_ctx2, export.kind, export.idx, Ghost(f)),
                            },
                        }
                    },
                    _ => {
                        let m = concat3("Expected instance, but got ", instance_section.kind_name(), " instead");
                        Err(AnalysisFailure::Failed(m))
                    },
                },
            }
        },
        ComponentSection::Import(ComponentImport { desc: ComponentTypeRef::Type(TypeBounds::Eq(idx)), .. }) => {
            match component.get_component_type(*idx) {
                None => {
                    let d = label_number("type ", *idx);
                    Err(AnalysisFailure::Failed(concat2("Missing ", d.as_str())))
                },
                Some(t) => {
                    let copy = stack_prefix(stack, stack.len());
                    proof {
                        assert(stack@.take(stack@.len() as int) =~= stack@);
                    }
                    Ok((t, copy))
                },
            }
        },
        ComponentSection::Alias(Alias::Outer { kind, target }) => {
            let size = stack.len();
            let count = target.count as usize;
            let referenced = stack_prefix(stack, size - count);
            if referenced.len() == 0 {
                let a = label_number("Component stack underflow (count=", target.count);
                let b = usize_to_decimal(size);
                Err(AnalysisFailure::Failed(concat3(a.as_str(), ", size=", b.as_str())))
            } else {
                let referenced_component = referenced[0].component;
                proof {
                    assert(frames(referenced@)[0].component == *referenced_component);
                }
                match kind {
                    OuterAliasKind::CoreModule => Err(AnalysisFailure::failed("Core module aliases are not supported")),
                    OuterAliasKind::CoreType => Err(AnalysisFailure::failed("Core type aliases are not supported")),
                    OuterAliasKind::Type => match referenced_component.get_component_type(target.index) {
                        None => {
                            let d = label_number("type ", target.index);
                            Err(AnalysisFailure::Failed(concat2("Missing ", d.as_str())))
                        },
                        Some(t) => follow_redirects(&referenced, t, Ghost(f)),
                    },
                    OuterAliasKind::Component => match referenced_component.get_component(target.index) {
                        None => {
                            let d = label_number("component ", target.index);
                            Err(AnalysisFailure::Failed(concat2("Missing ", d.as_str())))
                        },
                        Some(c) => follow_redirects(&referenced, c, Ghost(f)),
                    },
                }
            }
        },
        _ => {
            let copy = stack_prefix(stack, stack.len());
            proof {
                assert(stack@.take(stack@.len() as int) =~= stack@);
            }
            Ok((section, copy))
        },
    }
}

/// Finds an export of an instance by name, with the stack to read it in.
pub fn find_export_by_name<'a>(
    stack: &Vec<ComponentStackItem<'a>>,
    instance: &'a ComponentInstance,
    name: &String,
    Ghost(fuel): Ghost<nat>,
) -> (r: Result<(Option<&'a ComponentExport>, Vec<ComponentStackItem<'a>>), AnalysisFailure>)
    requires
        stack@.len() > 0,
        resolve_find_export(frames(stack@), *instance, name@, fuel) is Some,
    ensures
        match (r, resolve_find_export(frames(stack@), *instance, name@, fuel).unwrap()) {
            (Ok((e, s)), Ok((se, ss))) => opt_deref(e) == se && frames(s@) == ss && s@.len() > 0,
            (Err(e), Err(m)) => e.message() == m,
            _ => false,
        },
    decreases fuel,
{
    match instance {
        ComponentInstance::Instantiate { component_idx } => {
            match get_final_referenced(
                stack,
                ComponentExternalKind::Component,
                *component_idx,
                "component ",
                Ghost((fuel - 1) as nat),
            ) {
                Err(e) => Err(e),
                Ok((section, next_ctx)) => match section {
                    ComponentSection::Component(c) => {
                        let exports = c.exports();
                        proof {
                            assert(exports@.map_values(|e: &'a ComponentExport| *e) =~= exports_of(c.sections@));
                        }
                        let export = find_export_named(&exports, name);
                        Ok((export, push_component(&next_ctx, c, *component_idx)))
                    },
                    _ => {
                        proof {
                            assert(false);
                        }
                        Err(AnalysisFailure::failed("not a component"))
                    },
                },
            }
        },
        ComponentInstance::FromExports { exports } => {
            let export = find_owned_export_named(exports, name);
            let copy = stack_prefix(stack, stack.len());
            proof {
                assert(stack@.take(stack@.len() as int) =~= stack@);
            }
            Ok((export, copy))
        },
    }
}

} // verus!
