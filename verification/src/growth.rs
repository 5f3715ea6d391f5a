//! The analysis only appends to its state: warnings and resource types already recorded
//! stay, in place, and no resource type is ever recorded twice.
use vstd::prelude::*;

use crate::analysed::AnalysedResourceMode;
use crate::component::{
    ComponentDefinedType, ComponentExport, ComponentExternalKind, ComponentFuncResult,
    ComponentFuncType, ComponentInstance, ComponentSection, ComponentType, ComponentTypeRef,
    ComponentValType, TypeBounds, VariantCase, exports_of,
};
use crate::context::{
    StateModel, cases_outcome, component_funcs_outcome, defined_outcome, exports_outcome,
    func_export_outcome, func_type_outcome, function_type_section, instance_export_outcome,
    named_outcome, opt_val_type_outcome, position_of, resource_id_step, stack_path,
    top_level_outcome, type_idx_outcome, val_type_outcome, val_types_outcome, with_warning,
};
use crate::laws::lemma_position_of;
use crate::resolve::{FrameModel, resolve_final, top_sections};

verus! {

/// `st2` extends `st`: the warnings and the resource types of `st` are the first ones of
/// `st2`, and if `st` records no resource type twice, neither does `st2`.
pub open spec fn extends(st: StateModel, st2: StateModel) -> bool {
    &&& st.warnings.is_prefix_of(st2.warnings)
    &&& st.ids.is_prefix_of(st2.ids)
    &&& st.ids.no_duplicates() ==> st2.ids.no_duplicates()
}

/// The state after step `o` from `st`, when it has one, extends `st`.
pub open spec fn grows<T>(st: StateModel, o: Option<(Result<T, Seq<char>>, StateModel)>) -> bool {
    o matches Some((_, st2)) ==> extends(st, st2)
}

pub proof fn lemma_extends_trans(a: StateModel, b: StateModel, c: StateModel)
    requires
        extends(a, b),
        extends(b, c),
    ensures
        extends(a, c),
{
    assert(a.warnings.is_prefix_of(c.warnings)) by {
        assert forall|i: int| 0 <= i < a.warnings.len() implies a.warnings[i] == c.warnings[i] by {
            assert(a.warnings[i] == b.warnings[i]);
        }
        assert(c.warnings.subrange(0, a.warnings.len() as int) =~= a.warnings);
    }
    assert(a.ids.is_prefix_of(c.ids)) by {
        assert forall|i: int| 0 <= i < a.ids.len() implies a.ids[i] == c.ids[i] by {
            assert(a.ids[i] == b.ids[i]);
        }
        assert(c.ids.subrange(0, a.ids.len() as int) =~= a.ids);
    }
}

pub proof fn lemma_extends_refl(a: StateModel)
    ensures
        extends(a, a),
{
    assert(a.warnings.subrange(0, a.warnings.len() as int) =~= a.warnings);
    assert(a.ids.subrange(0, a.ids.len() as int) =~= a.ids);
}

pub proof fn lemma_warning_extends(st: StateModel, kind: ComponentExternalKind, name: String)
    ensures
        extends(st, with_warning(st, kind, name)),
{
    let st2 = with_warning(st, kind, name);
    assert(st2.warnings.subrange(0, st.warnings.len() as int) =~= st.warnings);
    assert(st2.ids.subrange(0, st.ids.len() as int) =~= st.ids);
}

pub proof fn lemma_resource_id_extends(stack: Seq<FrameModel>, type_idx: u32, st: StateModel)
    ensures
        extends(st, resource_id_step(stack, type_idx, st).1),
{
    let key = (stack_path(stack), type_idx);
    let st2 = resource_id_step(stack, type_idx, st).1;
    lemma_position_of(st.ids, key);
    if position_of(st.ids, key) is None {
        assert(st2.warnings.subrange(0, st.warnings.len() as int) =~= st.warnings);
        assert(st2.ids.subrange(0, st.ids.len() as int) =~= st.ids);
        if st.ids.no_duplicates() {
            assert forall|x: int, y: int| 0 <= x < st2.ids.len() && 0 <= y < st2.ids.len() && x != y implies st2.ids[x]
                != st2.ids[y] by {
                if x < st.ids.len() && y < st.ids.len() {
                } else if x == st.ids.len() {
                    assert(st.ids[y] == st2.ids[y]);
                    assert(st.ids.contains(st2.ids[y]));
                } else {
                    assert(st.ids[x] == st2.ids[x]);
                    assert(st.ids.contains(st2.ids[x]));
                }
            }
        }
    } else {
        lemma_extends_refl(st);
    }
}
pub proof fn lemma_val_type_grows(stack: Seq<FrameModel>, vt: ComponentValType, st: StateModel, f: nat)
    ensures
        grows(st, val_type_outcome(stack, vt, st, f)),
    decreases f, 0nat,
{
    match vt {
        ComponentValType::Primitive(_) => lemma_extends_refl(st),
        ComponentValType::Defined(idx) => if f > 0 {
            lemma_type_idx_grows(stack, idx, None, st, (f - 1) as nat);
        },
    }
}

pub proof fn lemma_opt_val_type_grows(
    stack: Seq<FrameModel>,
    vt: Option<ComponentValType>,
    st: StateModel,
    f: nat,
)
    ensures
        grows(st, opt_val_type_outcome(stack, vt, st, f)),
    decreases f, 1nat,
{
    match vt {
        None => lemma_extends_refl(st),
        Some(t) => lemma_val_type_grows(stack, t, st, f),
    }
}

pub proof fn lemma_type_idx_grows(
    stack: Seq<FrameModel>,
    idx: u32,
    mode: Option<AnalysedResourceMode>,
    st: StateModel,
    f: nat,
)
    ensures
        grows(st, type_idx_outcome(stack, idx, mode, st, f)),
    decreases f, 0nat,
{
    lemma_extends_refl(st);
    if f > 0 {
        let g = (f - 1) as nat;
        if let Some(Ok((section, next))) = resolve_final(stack, ComponentExternalKind::Type, idx, "component type "@, g) {
            match section {
                ComponentSection::Type(ComponentType::Defined(dt)) => {
                    lemma_defined_grows(next, dt, st, g);
                },
                ComponentSection::Import(import) => {
                    match import.desc {
                        ComponentTypeRef::Type(TypeBounds::Eq(inner)) => {
                            lemma_type_idx_grows(stack, inner, mode, st, g);
                        },
                        ComponentTypeRef::Type(TypeBounds::SubResource) => {
                            lemma_resource_id_extends(next, idx, st);
                        },
                        _ => {},
                    }
                },
                _ => {},
            }
        }
    }
}

pub proof fn lemma_defined_grows(stack: Seq<FrameModel>, dt: ComponentDefinedType, st: StateModel, f: nat)
    ensures
        grows(st, defined_outcome(stack, dt, st, f)),
    decreases f, 0nat,
{
    lemma_extends_refl(st);
    if f > 0 {
        let g = (f - 1) as nat;
        match dt {
            ComponentDefinedType::Record { fields } => {
                lemma_named_grows(stack, fields@, st, g);
            },
            ComponentDefinedType::Variant { cases } => {
                lemma_cases_grows(stack, cases@, st, g);
            },
            ComponentDefinedType::List { elem } => {
                lemma_val_type_grows(stack, elem, st, g);
            },
            ComponentDefinedType::Tuple { elems } => {
                lemma_val_types_grows(stack, elems@, st, g);
            },
            ComponentDefinedType::Option { typ } => {
                lemma_val_type_grows(stack, typ, st, g);
            },
            ComponentDefinedType::Result { ok, err } => {
                lemma_opt_val_type_grows(stack, ok, st, g);
                if let Some((Ok(_), s1)) = opt_val_type_outcome(stack, ok, st, g) {
                    lemma_opt_val_type_grows(stack, err, s1, g);
                    if let Some((_, s2)) = opt_val_type_outcome(stack, err, s1, g) {
                        lemma_extends_trans(st, s1, s2);
                    }
                }
            },
            ComponentDefinedType::Owned { type_idx } => {
                lemma_type_idx_grows(stack, type_idx, Some(AnalysedResourceMode::Owned), st, g);
            },
            ComponentDefinedType::Borrowed { type_idx } => {
                lemma_type_idx_grows(stack, type_idx, Some(AnalysedResourceMode::Borrowed), st, g);
            },
            _ => {},
        }
    }
}

pub proof fn lemma_val_types_grows(stack: Seq<FrameModel>, ts: Seq<ComponentValType>, st: StateModel, f: nat)
    ensures
        grows(st, val_types_outcome(stack, ts, st, f)),
    decreases f, ts.len() + 2,
{
    lemma_extends_refl(st);
    if ts.len() > 0 {
        lemma_val_types_grows(stack, ts.drop_last(), st, f);
        if let Some((Ok(_), s)) = val_types_outcome(stack, ts.drop_last(), st, f) {
            lemma_val_type_grows(stack, ts.last(), s, f);
            if let Some((_, s2)) = val_type_outcome(stack, ts.last(), s, f) {
                lemma_extends_trans(st, s, s2);
            }
        }
    }
}

pub proof fn lemma_named_grows(
    stack: Seq<FrameModel>,
    fs: Seq<(String, ComponentValType)>,
    st: StateModel,
    f: nat,
)
    ensures
        grows(st, named_outcome(stack, fs, st, f)),
    decreases f, fs.len() + 2,
{
    lemma_extends_refl(st);
    if fs.len() > 0 {
        lemma_named_grows(stack, fs.drop_last(), st, f);
        if let Some((Ok(_), s)) = named_outcome(stack, fs.drop_last(), st, f) {
            lemma_val_type_grows(stack, fs.last().1, s, f);
            if let Some((_, s2)) = val_type_outcome(stack, fs.last().1, s, f) {
                lemma_extends_trans(st, s, s2);
            }
        }
    }
}

pub proof fn lemma_cases_grows(stack: Seq<FrameModel>, cs: Seq<VariantCase>, st: StateModel, f: nat)
    ensures
        grows(st, cases_outcome(stack, cs, st, f)),
    decreases f, cs.len() + 2,
{
    lemma_extends_refl(st);
    if cs.len() > 0 {
        lemma_cases_grows(stack, cs.drop_last(), st, f);
        if let Some((Ok(_), s)) = cases_outcome(stack, cs.drop_last(), st, f) {
            lemma_opt_val_type_grows(stack, cs.last().typ, s, f);
            if let Some((_, s2)) = opt_val_type_outcome(stack, cs.last().typ, s, f) {
                lemma_extends_trans(st, s, s2);
            }
        }
    }
}

pub proof fn lemma_func_type_grows(
    stack: Seq<FrameModel>,
    name: String,
    ft: ComponentFuncType,
    st: StateModel,
    f: nat,
)
    ensures
        grows(st, func_type_outcome(stack, name, ft, st, f)),
{
    lemma_named_grows(stack, ft.params@, st, f);
    if let Some((Ok(_), s1)) = named_outcome(stack, ft.params@, st, f) {
        lemma_extends_refl(s1);
        match ft.result {
            ComponentFuncResult::Unnamed(t) => {
                lemma_val_type_grows(stack, t, s1, f);
                if let Some((_, s2)) = val_type_outcome(stack, t, s1, f) {
                    lemma_extends_trans(st, s1, s2);
                }
            },
            ComponentFuncResult::Named(ps) => {
                if ps@.len() > 0 {
                    lemma_named_grows(stack, ps@, s1, f);
                    if let Some((_, s2)) = named_outcome(stack, ps@, s1, f) {
                        lemma_extends_trans(st, s1, s2);
                    }
                }
            },
        }
    }
}

pub proof fn lemma_func_export_grows(stack: Seq<FrameModel>, name: String, idx: u32, st: StateModel, f: nat)
    ensures
        grows(st, func_export_outcome(stack, name, idx, st, f)),
{
    lemma_extends_refl(st);
    if f > 0 {
        let g = (f - 1) as nat;
        if let Some(Ok((function_section, next))) = resolve_final(
            stack,
            ComponentExternalKind::Func,
            idx,
            "component function "@,
            g,
        ) {
            if let Some(Ok((type_section, next2))) = function_type_section(next, function_section, g) {
                if let ComponentSection::Type(ComponentType::Func(ft)) = type_section {
                    lemma_func_type_grows(next2, name, ft, st, g);
                }
            }
        }
    }
}

pub proof fn lemma_component_funcs_grows(
    stack: Seq<FrameModel>,
    exports: Seq<ComponentExport>,
    st: StateModel,
    f: nat,
)
    ensures
        grows(st, component_funcs_outcome(stack, exports, st, f)),
    decreases exports.len(),
{
    lemma_extends_refl(st);
    if exports.len() > 0 {
        lemma_component_funcs_grows(stack, exports.drop_last(), st, f);
        if let Some((Ok(_), s)) = component_funcs_outcome(stack, exports.drop_last(), st, f) {
            let e = exports.last();
            if e.kind == ComponentExternalKind::Func {
                lemma_func_export_grows(stack, e.name, e.idx, s, f);
                if let Some((_, s2)) = func_export_outcome(stack, e.name, e.idx, s, f) {
                    lemma_extends_trans(st, s, s2);
                }
            } else {
                lemma_warning_extends(s, e.kind, e.name);
                lemma_extends_trans(st, s, with_warning(s, e.kind, e.name));
            }
        }
    }
}

pub proof fn lemma_instance_export_grows(stack: Seq<FrameModel>, name: String, idx: u32, st: StateModel, f: nat)
    ensures
        grows(st, instance_export_outcome(stack, name, idx, st, f)),
{
    lemma_extends_refl(st);
    if f > 0 {
        let g = (f - 1) as nat;
        if let Some(Ok((instance_section, next))) = resolve_final(
            stack,
            ComponentExternalKind::Instance,
            idx,
            "instance "@,
            g,
        ) {
            if let ComponentSection::Instance(ComponentInstance::Instantiate { component_idx }) = instance_section {
                if let Some(Ok((component_section, next2))) = resolve_final(
                    next,
                    ComponentExternalKind::Component,
                    component_idx,
                    "component "@,
                    g,
                ) {
                    if let ComponentSection::Component(c) = component_section {
                        let inner = next2.push(FrameModel { component: c, component_idx: Some(component_idx) });
                        lemma_component_funcs_grows(inner, exports_of(c.sections@), st, g);
                    }
                }
            }
        }
    }
}

pub proof fn lemma_exports_grows(stack: Seq<FrameModel>, exports: Seq<ComponentExport>, st: StateModel, f: nat)
    ensures
        grows(st, exports_outcome(stack, exports, st, f)),
    decreases exports.len(),
{
    lemma_extends_refl(st);
    if exports.len() > 0 {
        lemma_exports_grows(stack, exports.drop_last(), st, f);
        if let Some((Ok(_), s)) = exports_outcome(stack, exports.drop_last(), st, f) {
            let e = exports.last();
            if e.kind == ComponentExternalKind::Func {
                lemma_func_export_grows(stack, e.name, e.idx, s, f);
                if let Some((_, s2)) = func_export_outcome(stack, e.name, e.idx, s, f) {
                    lemma_extends_trans(st, s, s2);
                }
            } else if e.kind == ComponentExternalKind::Instance {
                lemma_instance_export_grows(stack, e.name, e.idx, s, f);
                if let Some((_, s2)) = instance_export_outcome(stack, e.name, e.idx, s, f) {
                    lemma_extends_trans(st, s, s2);
                }
            } else {
                lemma_warning_extends(s, e.kind, e.name);
                lemma_extends_trans(st, s, with_warning(s, e.kind, e.name));
            }
        }
    }
}

/// Analysing the exports of a component only appends to the state: the warnings and
/// resource types recorded before stay, in place, and when no resource type was recorded
/// twice before, none is after, so the identifiers handed out stay distinct.
pub proof fn law_analysis_only_appends(stack: Seq<FrameModel>, st: StateModel, fuel: nat)
    ensures
        grows(st, top_level_outcome(stack, st, fuel)),
{
    lemma_exports_grows(stack, exports_of(top_sections(stack)), st, fuel);
}

} // verus!
