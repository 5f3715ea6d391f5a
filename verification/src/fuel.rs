//! Fuel only bounds how far resolution and analysis may go: once a step comes back with an
//! answer, more fuel gives the same answer.
use vstd::prelude::*;

use crate::component::{
    Alias, ComponentDefinedType, ComponentExport, ComponentExternalKind, ComponentFuncResult,
    ComponentFuncType, ComponentInstance, ComponentSection, ComponentType,
    ComponentTypeRef, ComponentValType, OuterAliasKind, TypeBounds, VariantCase, exports_of,
    nth_in_space,
};
use crate::analysed::AnalysedResourceMode;
use crate::context::{
    StateModel, cases_outcome, component_funcs_outcome, defined_outcome, exports_outcome,
    func_export_outcome, func_type_outcome, function_type_section, instance_export_outcome,
    named_outcome, opt_val_type_outcome, top_level_outcome, type_idx_outcome, val_type_outcome,
    val_types_outcome,
};
use crate::resolve::{
    FrameModel, resolve_final, resolve_find_export, resolve_follow, resolve_follow_export,
    top_sections,
};

verus! {

pub proof fn lemma_final_fuel(
    stack: Seq<FrameModel>,
    kind: ComponentExternalKind,
    idx: u32,
    label: Seq<char>,
    f1: nat,
    f2: nat,
)
    requires
        f1 <= f2,
        resolve_final(stack, kind, idx, label, f1) is Some,
    ensures
        resolve_final(stack, kind, idx, label, f2) == resolve_final(stack, kind, idx, label, f1),
    decreases f1,
{
    if let Some(section) = nth_in_space(top_sections(stack), kind, idx as nat) {
        lemma_follow_fuel(stack, section, (f1 - 1) as nat, (f2 - 1) as nat);
    }
}

pub proof fn lemma_follow_export_fuel(
    stack: Seq<FrameModel>,
    kind: ComponentExternalKind,
    idx: u32,
    f1: nat,
    f2: nat,
)
    requires
        f1 <= f2,
        resolve_follow_export(stack, kind, idx, f1) is Some,
    ensures
        resolve_follow_export(stack, kind, idx, f2) == resolve_follow_export(stack, kind, idx, f1),
    decreases f1,
{
    if let Some(next) = nth_in_space(top_sections(stack), kind, idx as nat) {
        lemma_follow_fuel(stack, next, (f1 - 1) as nat, (f2 - 1) as nat);
    }
}

pub proof fn lemma_follow_fuel(stack: Seq<FrameModel>, section: ComponentSection, f1: nat, f2: nat)
    requires
        f1 <= f2,
        resolve_follow(stack, section, f1) is Some,
    ensures
        resolve_follow(stack, section, f2) == resolve_follow(stack, section, f1),
    decreases f1,
{
    let g1 = (f1 - 1) as nat;
    let g2 = (f2 - 1) as nat;
    match section {
        ComponentSection::Export(e) => {
            lemma_follow_export_fuel(stack, e.kind, e.idx, g1, g2);
        },
        ComponentSection::Alias(Alias::InstanceExport { instance_idx, name, .. }) => {
            lemma_final_fuel(stack, ComponentExternalKind::Instance, instance_idx, "instance "@, g1, g2);
            if let Some(Ok((instance_section, next))) = resolve_final(
                stack,
                ComponentExternalKind::Instance,
                instance_idx,
                "instance "@,
                g1,
            ) {
                if let ComponentSection::Instance(instance) = instance_section {
                    lemma_find_export_fuel(next, instance, name@, g1, g2);
                    if let Some(Ok((Some(export), next2))) = resolve_find_export(next, instance, name@, g1) {
                        lemma_follow_export_fuel(next2, export.kind, export.idx, g1, g2);
                    }
                }
            }
        },
        ComponentSection::Alias(Alias::Outer { kind, target }) => {
            if target.count <= stack.len() {
                let referenced = stack.take(stack.len() - target.count);
                if referenced.len() > 0 {
                    let sections = referenced[0].component.sections@;
                    match kind {
                        OuterAliasKind::Type => {
                            if let Some(t) = nth_in_space(sections, ComponentExternalKind::Type, target.index as nat) {
                                lemma_follow_fuel(referenced, t, g1, g2);
                            }
                        },
                        OuterAliasKind::Component => {
                            if let Some(c) = nth_in_space(
                                sections,
                                ComponentExternalKind::Component,
                                target.index as nat,
                            ) {
                                lemma_follow_fuel(referenced, c, g1, g2);
                            }
                        },
                        _ => {},
                    }
                }
            }
        },
        _ => {},
    }
}

pub proof fn lemma_find_export_fuel(
    stack: Seq<FrameModel>,
    instance: ComponentInstance,
    name: Seq<char>,
    f1: nat,
    f2: nat,
)
    requires
        f1 <= f2,
        resolve_find_export(stack, instance, name, f1) is Some,
    ensures
        resolve_find_export(stack, instance, name, f2) == resolve_find_export(stack, instance, name, f1),
    decreases f1,
{
    if let ComponentInstance::Instantiate { component_idx } = instance {
        lemma_final_fuel(
            stack,
            ComponentExternalKind::Component,
            component_idx,
            "component "@,
            (f1 - 1) as nat,
            (f2 - 1) as nat,
        );
    }
}

pub proof fn lemma_val_type_fuel(
    stack: Seq<FrameModel>,
    vt: ComponentValType,
    st: StateModel,
    f1: nat,
    f2: nat,
)
    requires
        f1 <= f2,
        val_type_outcome(stack, vt, st, f1) is Some,
    ensures
        val_type_outcome(stack, vt, st, f2) == val_type_outcome(stack, vt, st, f1),
    decreases f1, 0nat,
{
    if let ComponentValType::Defined(idx) = vt {
        lemma_type_idx_fuel(stack, idx, None, st, (f1 - 1) as nat, (f2 - 1) as nat);
    }
}

pub proof fn lemma_opt_val_type_fuel(
    stack: Seq<FrameModel>,
    vt: Option<ComponentValType>,
    st: StateModel,
    f1: nat,
    f2: nat,
)
    requires
        f1 <= f2,
        opt_val_type_outcome(stack, vt, st, f1) is Some,
    ensures
        opt_val_type_outcome(stack, vt, st, f2) == opt_val_type_outcome(stack, vt, st, f1),
    decreases f1, 1nat,
{
    if let Some(t) = vt {
        lemma_val_type_fuel(stack, t, st, f1, f2);
    }
}

pub proof fn lemma_type_idx_fuel(
    stack: Seq<FrameModel>,
    idx: u32,
    mode: Option<AnalysedResourceMode>,
    st: StateModel,
    f1: nat,
    f2: nat,
)
    requires
        f1 <= f2,
        type_idx_outcome(stack, idx, mode, st, f1) is Some,
    ensures
        type_idx_outcome(stack, idx, mode, st, f2) == type_idx_outcome(stack, idx, mode, st, f1),
    decreases f1, 0nat,
{
    let g1 = (f1 - 1) as nat;
    let g2 = (f2 - 1) as nat;
    lemma_final_fuel(stack, ComponentExternalKind::Type, idx, "component type "@, g1, g2);
    if let Some(Ok((section, next))) = resolve_final(stack, ComponentExternalKind::Type, idx, "component type "@, g1) {
        match section {
            ComponentSection::Type(ComponentType::Defined(dt)) => {
                lemma_defined_fuel(next, dt, st, g1, g2);
            },
            ComponentSection::Import(import) => {
                if let ComponentTypeRef::Type(TypeBounds::Eq(inner)) = import.desc {
                    lemma_type_idx_fuel(stack, inner, mode, st, g1, g2);
                }
            },
            _ => {},
        }
    }
}

pub proof fn lemma_defined_fuel(
    stack: Seq<FrameModel>,
    dt: ComponentDefinedType,
    st: StateModel,
    f1: nat,
    f2: nat,
)
    requires
        f1 <= f2,
        defined_outcome(stack, dt, st, f1) is Some,
    ensures
        defined_outcome(stack, dt, st, f2) == defined_outcome(stack, dt, st, f1),
    decreases f1, 0nat,
{
    let g1 = (f1 - 1) as nat;
    let g2 = (f2 - 1) as nat;
    match dt {
        ComponentDefinedType::Record { fields } => {
            lemma_named_fuel(stack, fields@, st, g1, g2);
        },
        ComponentDefinedType::Variant { cases } => {
            lemma_cases_fuel(stack, cases@, st, g1, g2);
        },
        ComponentDefinedType::List { elem } => {
            lemma_val_type_fuel(stack, elem, st, g1, g2);
        },
        ComponentDefinedType::Tuple { elems } => {
            lemma_val_types_fuel(stack, elems@, st, g1, g2);
        },
        ComponentDefinedType::Option { typ } => {
            lemma_val_type_fuel(stack, typ, st, g1, g2);
        },
        ComponentDefinedType::Result { ok, err } => {
            lemma_opt_val_type_fuel(stack, ok, st, g1, g2);
            if let Some((Ok(_), s1)) = opt_val_type_outcome(stack, ok, st, g1) {
                lemma_opt_val_type_fuel(stack, err, s1, g1, g2);
            }
        },
        ComponentDefinedType::Owned { type_idx } => {
            lemma_type_idx_fuel(stack, type_idx, Some(AnalysedResourceMode::Owned), st, g1, g2);
        },
        ComponentDefinedType::Borrowed { type_idx } => {
            lemma_type_idx_fuel(stack, type_idx, Some(AnalysedResourceMode::Borrowed), st, g1, g2);
        },
        _ => {},
    }
}

pub proof fn lemma_val_types_fuel(
    stack: Seq<FrameModel>,
    ts: Seq<ComponentValType>,
    st: StateModel,
    f1: nat,
    f2: nat,
)
    requires
        f1 <= f2,
        val_types_outcome(stack, ts, st, f1) is Some,
    ensures
        val_types_outcome(stack, ts, st, f2) == val_types_outcome(stack, ts, st, f1),
    decreases f1, ts.len() + 2,
{
    if ts.len() > 0 {
        lemma_val_types_fuel(stack, ts.drop_last(), st, f1, f2);
        if let Some((Ok(_), s)) = val_types_outcome(stack, ts.drop_last(), st, f1) {
            lemma_val_type_fuel(stack, ts.last(), s, f1, f2);
        }
    }
}

pub proof fn lemma_named_fuel(
    stack: Seq<FrameModel>,
    fs: Seq<(String, ComponentValType)>,
    st: StateModel,
    f1: nat,
    f2: nat,
)
    requires
        f1 <= f2,
        named_outcome(stack, fs, st, f1) is Some,
    ensures
        named_outcome(stack, fs, st, f2) == named_outcome(stack, fs, st, f1),
    decreases f1, fs.len() + 2,
{
    if fs.len() > 0 {
        lemma_named_fuel(stack, fs.drop_last(), st, f1, f2);
        if let Some((Ok(_), s)) = named_outcome(stack, fs.drop_last(), st, f1) {
            lemma_val_type_fuel(stack, fs.last().1, s, f1, f2);
        }
    }
}

pub proof fn lemma_cases_fuel(
    stack: Seq<FrameModel>,
    cs: Seq<VariantCase>,
    st: StateModel,
    f1: nat,
    f2: nat,
)
    requires
        f1 <= f2,
        cases_outcome(stack, cs, st, f1) is Some,
    ensures
        cases_outcome(stack, cs, st, f2) == cases_outcome(stack, cs, st, f1),
    decreases f1, cs.len() + 2,
{
    if cs.len() > 0 {
        lemma_cases_fuel(stack, cs.drop_last(), st, f1, f2);
        if let Some((Ok(_), s)) = cases_outcome(stack, cs.drop_last(), st, f1) {
            lemma_opt_val_type_fuel(stack, cs.last().typ, s, f1, f2);
        }
    }
}

pub proof fn lemma_func_type_fuel(
    stack: Seq<FrameModel>,
    name: String,
    ft: ComponentFuncType,
    st: StateModel,
    f1: nat,
    f2: nat,
)
    requires
        f1 <= f2,
        func_type_outcome(stack, name, ft, st, f1) is Some,
    ensures
        func_type_outcome(stack, name, ft, st, f2) == func_type_outcome(stack, name, ft, st, f1),
{
    lemma_named_fuel(stack, ft.params@, st, f1, f2);
    if let Some((Ok(_), s1)) = named_outcome(stack, ft.params@, st, f1) {
        match ft.result {
            ComponentFuncResult::Unnamed(t) => {
                lemma_val_type_fuel(stack, t, s1, f1, f2);
            },
            ComponentFuncResult::Named(ps) => {
                if ps@.len() > 0 {
                    lemma_named_fuel(stack, ps@, s1, f1, f2);
                }
            },
        }
    }
}

pub proof fn lemma_function_type_section_fuel(
    stack: Seq<FrameModel>,
    section: ComponentSection,
    f1: nat,
    f2: nat,
)
    requires
        f1 <= f2,
        function_type_section(stack, section, f1) is Some,
    ensures
        function_type_section(stack, section, f2) == function_type_section(stack, section, f1),
{
    match section {
        ComponentSection::Canon(crate::component::Canon::Lift { function_type, .. }) => {
            lemma_final_fuel(stack, ComponentExternalKind::Type, function_type, "component function type "@, f1, f2);
        },
        ComponentSection::Import(import) => {
            if let ComponentTypeRef::Func(i) = import.desc {
                lemma_final_fuel(stack, ComponentExternalKind::Type, i, "component function type "@, f1, f2);
            }
        },
        _ => {},
    }
}

pub proof fn lemma_func_export_fuel(
    stack: Seq<FrameModel>,
    name: String,
    idx: u32,
    st: StateModel,
    f1: nat,
    f2: nat,
)
    requires
        f1 <= f2,
        func_export_outcome(stack, name, idx, st, f1) is Some,
    ensures
        func_export_outcome(stack, name, idx, st, f2) == func_export_outcome(stack, name, idx, st, f1),
{
    let g1 = (f1 - 1) as nat;
    let g2 = (f2 - 1) as nat;
    lemma_final_fuel(stack, ComponentExternalKind::Func, idx, "component function "@, g1, g2);
    if let Some(Ok((function_section, next))) = resolve_final(
        stack,
        ComponentExternalKind::Func,
        idx,
        "component function "@,
        g1,
    ) {
        lemma_function_type_section_fuel(next, function_section, g1, g2);
        if let Some(Ok((type_section, next2))) = function_type_section(next, function_section, g1) {
            if let ComponentSection::Type(ComponentType::Func(ft)) = type_section {
                lemma_func_type_fuel(next2, name, ft, st, g1, g2);
            }
        }
    }
}

pub proof fn lemma_component_funcs_fuel(
    stack: Seq<FrameModel>,
    exports: Seq<ComponentExport>,
    st: StateModel,
    f1: nat,
    f2: nat,
)
    requires
        f1 <= f2,
        component_funcs_outcome(stack, exports, st, f1) is Some,
    ensures
        component_funcs_outcome(stack, exports, st, f2) == component_funcs_outcome(stack, exports, st, f1),
    decreases exports.len(),
{
    if exports.len() > 0 {
        lemma_component_funcs_fuel(stack, exports.drop_last(), st, f1, f2);
        if let Some((Ok(_), s)) = component_funcs_outcome(stack, exports.drop_last(), st, f1) {
            let e = exports.last();
            if e.kind == ComponentExternalKind::Func {
                lemma_func_export_fuel(stack, e.name, e.idx, s, f1, f2);
            }
        }
    }
}

pub proof fn lemma_instance_export_fuel(
    stack: Seq<FrameModel>,
    name: String,
    idx: u32,
    st: StateModel,
    f1: nat,
    f2: nat,
)
    requires
        f1 <= f2,
        instance_export_outcome(stack, name, idx, st, f1) is Some,
    ensures
        instance_export_outcome(stack, name, idx, st, f2) == instance_export_outcome(stack, name, idx, st, f1),
{
    let g1 = (f1 - 1) as nat;
    let g2 = (f2 - 1) as nat;
    lemma_final_fuel(stack, ComponentExternalKind::Instance, idx, "instance "@, g1, g2);
    if let Some(Ok((instance_section, next))) = resolve_final(
        stack,
        ComponentExternalKind::Instance,
        idx,
        "instance "@,
        g1,
    ) {
        if let ComponentSection::Instance(ComponentInstance::Instantiate { component_idx }) = instance_section {
            lemma_final_fuel(next, ComponentExternalKind::Component, component_idx, "component "@, g1, g2);
            if let Some(Ok((component_section, next2))) = resolve_final(
                next,
                ComponentExternalKind::Component,
                component_idx,
                "component "@,
                g1,
            ) {
                if let ComponentSection::Component(c) = component_section {
                    let inner = next2.push(FrameModel { component: c, component_idx: Some(component_idx) });
                    lemma_component_funcs_fuel(inner, exports_of(c.sections@), st, g1, g2);
                }
            }
        }
    }
}

pub proof fn lemma_exports_fuel(
    stack: Seq<FrameModel>,
    exports: Seq<ComponentExport>,
    st: StateModel,
    f1: nat,
    f2: nat,
)
    requires
        f1 <= f2,
        exports_outcome(stack, exports, st, f1) is Some,
    ensures
        exports_outcome(stack, exports, st, f2) == exports_outcome(stack, exports, st, f1),
    decreases exports.len(),
{
    if exports.len() > 0 {
        lemma_exports_fuel(stack, exports.drop_last(), st, f1, f2);
        if let Some((Ok(_), s)) = exports_outcome(stack, exports.drop_last(), st, f1) {
            let e = exports.last();
            if e.kind == ComponentExternalKind::Func {
                lemma_func_export_fuel(stack, e.name, e.idx, s, f1, f2);
            } else if e.kind == ComponentExternalKind::Instance {
                lemma_instance_export_fuel(stack, e.name, e.idx, s, f1, f2);
            }
        }
    }
}

/// The analysis of a component's exports does not depend on the fuel it was given, as
/// long as it comes back with an answer.
pub proof fn law_analysis_independent_of_fuel(stack: Seq<FrameModel>, st: StateModel, f1: nat, f2: nat)
    requires
        top_level_outcome(stack, st, f1) is Some,
        top_level_outcome(stack, st, f2) is Some,
    ensures
        top_level_outcome(stack, st, f1) == top_level_outcome(stack, st, f2),
{
    let exports = exports_of(top_sections(stack));
    if f1 <= f2 {
        lemma_exports_fuel(stack, exports, st, f1, f2);
    } else {
        lemma_exports_fuel(stack, exports, st, f2, f1);
    }
}

} // verus!
