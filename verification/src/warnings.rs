//! Which analysis steps warn: reading types and functions never does; an instance warns
//! once for each export of its component that is not a function, in order.
use vstd::prelude::*;

use crate::analysed::AnalysedResourceMode;
use crate::component::{
    ComponentDefinedType, ComponentExport, ComponentExternalKind, ComponentFuncResult, ComponentFuncType,
    ComponentSection, ComponentType, ComponentTypeRef, ComponentValType, TypeBounds,
    VariantCase, exports_of,
};
use crate::context::{
    StateModel, cases_outcome, component_funcs_outcome, defined_outcome, func_export_outcome, func_type_outcome,
    function_type_section, named_outcome, opt_val_type_outcome, type_idx_outcome,
    val_type_outcome, val_types_outcome,
};
use crate::failure::AnalysisWarning;
use crate::resolve::{FrameModel, resolve_final};

verus! {

/// Step `o` from `st`, where it ends, ends with the warnings of `st`.
pub open spec fn quiet<T>(st: StateModel, o: Option<(Result<T, Seq<char>>, StateModel)>) -> bool {
    o matches Some((_, s2)) ==> s2.warnings == st.warnings
}

pub proof fn lemma_val_type_quiet(stack: Seq<FrameModel>, vt: ComponentValType, st: StateModel, f: nat)
    ensures
        quiet(st, val_type_outcome(stack, vt, st, f)),
    decreases f, 0nat,
{
    if let ComponentValType::Defined(idx) = vt {
        if f > 0 {
            lemma_type_idx_quiet(stack, idx, None, st, (f - 1) as nat);
        }
    }
}

pub proof fn lemma_opt_val_type_quiet(stack: Seq<FrameModel>, vt: Option<ComponentValType>, st: StateModel, f: nat)
    ensures
        quiet(st, opt_val_type_outcome(stack, vt, st, f)),
    decreases f, 1nat,
{
    if let Some(t) = vt {
        lemma_val_type_quiet(stack, t, st, f);
    }
}

pub proof fn lemma_type_idx_quiet(
    stack: Seq<FrameModel>,
    idx: u32,
    mode: Option<AnalysedResourceMode>,
    st: StateModel,
    f: nat,
)
    ensures
        quiet(st, type_idx_outcome(stack, idx, mode, st, f)),
    decreases f, 0nat,
{
    if f > 0 {
        let g = (f - 1) as nat;
        if let Some(Ok((section, next))) = resolve_final(stack, ComponentExternalKind::Type, idx, "component type "@, g) {
            match section {
                ComponentSection::Type(ComponentType::Defined(dt)) => {
                    lemma_defined_quiet(next, dt, st, g);
                },
                ComponentSection::Import(import) => {
                    if let ComponentTypeRef::Type(TypeBounds::Eq(inner)) = import.desc {
                        lemma_type_idx_quiet(stack, inner, mode, st, g);
                    }
                },
                _ => {},
            }
        }
    }
}

pub proof fn lemma_defined_quiet(stack: Seq<FrameModel>, dt: ComponentDefinedType, st: StateModel, f: nat)
    ensures
        quiet(st, defined_outcome(stack, dt, st, f)),
    decreases f, 0nat,
{
    if f > 0 {
        let g = (f - 1) as nat;
        match dt {
            ComponentDefinedType::Record { fields } => lemma_named_quiet(stack, fields@, st, g),
            ComponentDefinedType::Variant { cases } => lemma_cases_quiet(stack, cases@, st, g),
            ComponentDefinedType::List { elem } => lemma_val_type_quiet(stack, elem, st, g),
            ComponentDefinedType::Tuple { elems } => lemma_val_types_quiet(stack, elems@, st, g),
            ComponentDefinedType::Option { typ } => lemma_val_type_quiet(stack, typ, st, g),
            ComponentDefinedType::Result { ok, err } => {
                lemma_opt_val_type_quiet(stack, ok, st, g);
                if let Some((Ok(_), s1)) = opt_val_type_outcome(stack, ok, st, g) {
                    lemma_opt_val_type_quiet(stack, err, s1, g);
                }
            },
            ComponentDefinedType::Owned { type_idx } => {
                lemma_type_idx_quiet(stack, type_idx, Some(AnalysedResourceMode::Owned), st, g);
            },
            ComponentDefinedType::Borrowed { type_idx } => {
                lemma_type_idx_quiet(stack, type_idx, Some(AnalysedResourceMode::Borrowed), st, g);
            },
            _ => {},
        }
    }
}

pub proof fn lemma_val_types_quiet(stack: Seq<FrameModel>, ts: Seq<ComponentValType>, st: StateModel, f: nat)
    ensures
        quiet(st, val_types_outcome(stack, ts, st, f)),
    decreases f, ts.len() + 2,
{
    if ts.len() > 0 {
        lemma_val_types_quiet(stack, ts.drop_last(), st, f);
        if let Some((Ok(_), s)) = val_types_outcome(stack, ts.drop_last(), st, f) {
            lemma_val_type_quiet(stack, ts.last(), s, f);
        }
    }
}

pub proof fn lemma_named_quiet(stack: Seq<FrameModel>, fs: Seq<(String, ComponentValType)>, st: StateModel, f: nat)
    ensures
        quiet(st, named_outcome(stack, fs, st, f)),
    decreases f, fs.len() + 2,
{
    if fs.len() > 0 {
        lemma_named_quiet(stack, fs.drop_last(), st, f);
        if let Some((Ok(_), s)) = named_outcome(stack, fs.drop_last(), st, f) {
            lemma_val_type_quiet(stack, fs.last().1, s, f);
        }
    }
}

pub proof fn lemma_cases_quiet(stack: Seq<FrameModel>, cs: Seq<VariantCase>, st: StateModel, f: nat)
    ensures
        quiet(st, cases_outcome(stack, cs, st, f)),
    decreases f, cs.len() + 2,
{
    if cs.len() > 0 {
        lemma_cases_quiet(stack, cs.drop_last(), st, f);
        if let Some((Ok(_), s)) = cases_outcome(stack, cs.drop_last(), st, f) {
            lemma_opt_val_type_quiet(stack, cs.last().typ, s, f);
        }
    }
}

pub proof fn lemma_func_type_quiet(stack: Seq<FrameModel>, name: String, ft: ComponentFuncType, st: StateModel, f: nat)
    ensures
        quiet(st, func_type_outcome(stack, name, ft, st, f)),
{
    lemma_named_quiet(stack, ft.params@, st, f);
    if let Some((Ok(_), s1)) = named_outcome(stack, ft.params@, st, f) {
        match ft.result {
            ComponentFuncResult::Unnamed(t) => lemma_val_type_quiet(stack, t, s1, f),
            ComponentFuncResult::Named(ps) => lemma_named_quiet(stack, ps@, s1, f),
        }
    }
}

/// Analysing an exported function adds no warning.
pub proof fn lemma_func_export_quiet(stack: Seq<FrameModel>, name: String, idx: u32, st: StateModel, f: nat)
    ensures
        quiet(st, func_export_outcome(stack, name, idx, st, f)),
{
    if f > 0 {
        let g = (f - 1) as nat;
        if let Some(Ok((function_section, next))) = resolve_final(
            stack,
            ComponentExternalKind::Func,
            idx,
            "component function "@,
            g,
        ) {
            if let Some(Ok((type_section, next2))) = function_type_section(next, function_section, g) {
                if let ComponentSection::Type(ComponentType::Func(ft)) = type_section {
                    lemma_func_type_quiet(next2, name, ft, st, g);
                }
            }
        }
    }
}

/// The warnings for the exports among `es` that are not functions, in order.
pub open spec fn skipped_exports(es: Seq<ComponentExport>) -> Seq<AnalysisWarning> {
    es.filter(|e: ComponentExport| e.kind != ComponentExternalKind::Func).map_values(
        |e: ComponentExport| AnalysisWarning::UnsupportedExport { kind: e.kind, name: e.name },
    )
}

/// Analysing the functions of an instantiated component adds one warning for each of its
/// exports that is not a function, naming its kind and name, in the order of the exports,
/// and no other warning.
pub proof fn law_instance_warnings(stack: Seq<FrameModel>, es: Seq<ComponentExport>, st: StateModel, fuel: nat)
    ensures
        component_funcs_outcome(stack, es, st, fuel) matches Some((Ok(_), s)) ==> s.warnings == st.warnings
            + skipped_exports(es),
    decreases es.len(),
{
    reveal(Seq::filter);
    if es.len() == 0 {
        assert(skipped_exports(es) =~= Seq::<AnalysisWarning>::empty());
    } else {
        law_instance_warnings(stack, es.drop_last(), st, fuel);
        let e = es.last();
        if let Some((Ok(_), s)) = component_funcs_outcome(stack, es.drop_last(), st, fuel) {
            lemma_func_export_quiet(stack, e.name, e.idx, s, fuel);
            if let Some((Ok(_), s2)) = component_funcs_outcome(stack, es, st, fuel) {
                if e.kind == ComponentExternalKind::Func {
                    assert(skipped_exports(es) =~= skipped_exports(es.drop_last()));
                } else {
                    assert(skipped_exports(es) =~= skipped_exports(es.drop_last()).push(
                        AnalysisWarning::UnsupportedExport { kind: e.kind, name: e.name },
                    ));
                    assert(s2.warnings =~= st.warnings + skipped_exports(es));
                }
            }
        }
    }
}

} // verus!
