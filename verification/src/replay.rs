//! Running an analysis step again, from a state that already holds every resource type the
//! first run recorded, gives the same result: each resource type is found with the
//! identifier it got the first time, no resource type is added, and the warnings of the
//! first run are recorded once more.
use vstd::prelude::*;

use crate::analysed::AnalysedResourceMode;
use crate::component::{
    ComponentDefinedType, ComponentExport, ComponentExternalKind, ComponentFuncResult,
    ComponentFuncType, ComponentInstance, ComponentSection, ComponentType, ComponentTypeRef,
    ComponentValType, TypeBounds, VariantCase, exports_of,
};
use crate::context::{
    StateModel, cases_outcome, component_funcs_outcome, defined_outcome, exports_outcome,
    func_export_outcome, func_type_outcome, function_type_section, instance_export_outcome,
    named_outcome, opt_val_type_outcome, position_of, resource_id_step, stack_path,
    top_level_outcome, type_idx_outcome, val_type_outcome, val_types_outcome, with_warning,
};
use crate::growth::{
    extends, lemma_cases_grows, lemma_component_funcs_grows, lemma_exports_grows,
    lemma_func_export_grows, lemma_named_grows, lemma_opt_val_type_grows, lemma_val_type_grows,
    lemma_val_types_grows,
};
use crate::resolve::{FrameModel, resolve_final, top_sections};

verus! {

/// The state after running again, from `t`, a step that went from `st` to `s_end`: the
/// resource types of `t`, and the warnings of `t` followed by those the step added.
pub open spec fn replayed(st: StateModel, s_end: StateModel, t: StateModel) -> StateModel {
    StateModel { warnings: t.warnings + s_end.warnings.skip(st.warnings.len() as int), ids: t.ids }
}

/// Step `o` went from `st`; run again from `t`, which holds all the resource types that `o`
/// ended with, it gives `o2`: the same result, in state `replayed`.
pub open spec fn replays<T>(st: StateModel, o: Option<(Result<T, Seq<char>>, StateModel)>, t: StateModel, o2: Option<(Result<T, Seq<char>>, StateModel)>) -> bool {
    match o {
        Some((r, s_end)) => s_end.ids.is_prefix_of(t.ids) ==> o2 == Some((r, replayed(st, s_end, t))),
        None => true,
    }
}

pub proof fn lemma_prefix_trans<A>(a: Seq<A>, b: Seq<A>, c: Seq<A>)
    requires
        a.is_prefix_of(b),
        b.is_prefix_of(c),
    ensures
        a.is_prefix_of(c),
{
    assert forall|i: int| 0 <= i < a.len() implies a[i] == c[i] by {
        assert(a[i] == b[i]);
    }
    assert(c.subrange(0, a.len() as int) =~= a);
}

pub proof fn lemma_replayed_same(st: StateModel, t: StateModel)
    ensures
        replayed(st, st, t) == t,
{
    assert(st.warnings.skip(st.warnings.len() as int) =~= Seq::<crate::failure::AnalysisWarning>::empty());
    assert(replayed(st, st, t).warnings =~= t.warnings);
    assert(replayed(st, st, t) =~= t);
}

pub proof fn lemma_replayed_compose(st: StateModel, s1: StateModel, s2: StateModel, t: StateModel)
    requires
        extends(st, s1),
        extends(s1, s2),
    ensures
        replayed(s1, s2, replayed(st, s1, t)) == replayed(st, s2, t),
{
    let a = st.warnings.len() as int;
    let b = s1.warnings.len() as int;
    assert(s2.warnings.skip(a) =~= s1.warnings.skip(a) + s2.warnings.skip(b)) by {
        assert forall|i: int| 0 <= i < s2.warnings.len() - a implies s2.warnings.skip(a)[i] == (s1.warnings.skip(a)
            + s2.warnings.skip(b))[i] by {
            if i < b - a {
                assert(s1.warnings[a + i] == s2.warnings[a + i]);
            }
        }
    }
    assert(replayed(s1, s2, replayed(st, s1, t)).warnings =~= replayed(st, s2, t).warnings);
    assert(replayed(s1, s2, replayed(st, s1, t)) =~= replayed(st, s2, t));
}

/// A key found in a list of resource types is found at the same place in any longer list
/// that starts with it.
pub proof fn lemma_position_of_extend(ids: Seq<(Seq<u32>, u32)>, ids2: Seq<(Seq<u32>, u32)>, key: (Seq<u32>, u32))
    requires
        position_of(ids, key) is Some,
        ids.is_prefix_of(ids2),
    ensures
        position_of(ids2, key) == position_of(ids, key),
    decreases ids2.len(),
{
    if ids2.len() == ids.len() {
        assert(ids2 =~= ids);
    } else {
        assert(ids.is_prefix_of(ids2.drop_last())) by {
            assert(ids2.drop_last().subrange(0, ids.len() as int) =~= ids);
        }
        lemma_position_of_extend(ids, ids2.drop_last(), key);
    }
}

/// Asking for the identifier of a resource type again, from a state that holds all the
/// resource types the first request ended with, gives the same identifier and changes
/// nothing.
pub proof fn lemma_resource_id_replay(stack: Seq<FrameModel>, type_idx: u32, s: StateModel, t: StateModel)
    requires
        resource_id_step(stack, type_idx, s).1.ids.is_prefix_of(t.ids),
    ensures
        resource_id_step(stack, type_idx, t) == (resource_id_step(stack, type_idx, s).0, t),
        replayed(s, resource_id_step(stack, type_idx, s).1, t) == t,
{
    let key = (stack_path(stack), type_idx);
    let s2 = resource_id_step(stack, type_idx, s).1;
    assert(s2.warnings == s.warnings);
    lemma_replayed_same(s, t);
    match position_of(s.ids, key) {
        Some(p) => {
            lemma_position_of_extend(s.ids, t.ids, key);
        },
        None => {
            let ids2 = s.ids.push(key);
            assert(ids2.drop_last() =~= s.ids);
            assert(position_of(ids2, key) == Some(s.ids.len()));
            lemma_position_of_extend(ids2, t.ids, key);
        },
    }
}

pub proof fn lemma_val_type_replay(stack: Seq<FrameModel>, vt: ComponentValType, st: StateModel, t: StateModel, f: nat)
    ensures
        replays(st, val_type_outcome(stack, vt, st, f), t, val_type_outcome(stack, vt, t, f)),
    decreases f, 0nat,
{
    lemma_replayed_same(st, t);
    if let ComponentValType::Defined(idx) = vt {
        if f > 0 {
            lemma_type_idx_replay(stack, idx, None, st, t, (f - 1) as nat);
        }
    }
}

pub proof fn lemma_opt_val_type_replay(
    stack: Seq<FrameModel>,
    vt: Option<ComponentValType>,
    st: StateModel,
    t: StateModel,
    f: nat,
)
    ensures
        replays(st, opt_val_type_outcome(stack, vt, st, f), t, opt_val_type_outcome(stack, vt, t, f)),
    decreases f, 1nat,
{
    lemma_replayed_same(st, t);
    if let Some(x) = vt {
        lemma_val_type_replay(stack, x, st, t, f);
    }
}

pub proof fn lemma_type_idx_replay(
    stack: Seq<FrameModel>,
    idx: u32,
    mode: Option<AnalysedResourceMode>,
    st: StateModel,
    t: StateModel,
    f: nat,
)
    ensures
        replays(st, type_idx_outcome(stack, idx, mode, st, f), t, type_idx_outcome(stack, idx, mode, t, f)),
    decreases f, 0nat,
{
    lemma_replayed_same(st, t);
    if f > 0 {
        let g = (f - 1) as nat;
        if let Some(Ok((section, next))) = resolve_final(stack, ComponentExternalKind::Type, idx, "component type "@, g) {
            match section {
                ComponentSection::Type(ComponentType::Defined(dt)) => {
                    lemma_defined_replay(next, dt, st, t, g);
                },
                ComponentSection::Import(import) => {
                    match import.desc {
                        ComponentTypeRef::Type(TypeBounds::Eq(inner)) => {
                            lemma_type_idx_replay(stack, inner, mode, st, t, g);
                        },
                        ComponentTypeRef::Type(TypeBounds::SubResource) => {
                            if mode is Some && resource_id_step(next, idx, st).1.ids.is_prefix_of(t.ids) {
                                lemma_resource_id_replay(next, idx, st, t);
                            }
                        },
                        _ => {},
                    }
                },
                _ => {},
            }
        }
    }
}

pub proof fn lemma_defined_replay(stack: Seq<FrameModel>, dt: ComponentDefinedType, st: StateModel, t: StateModel, f: nat)
    ensures
        replays(st, defined_outcome(stack, dt, st, f), t, defined_outcome(stack, dt, t, f)),
    decreases f, 0nat,
{
    lemma_replayed_same(st, t);
    if f > 0 {
        let g = (f - 1) as nat;
        match dt {
            ComponentDefinedType::Record { fields } => {
                lemma_named_replay(stack, fields@, st, t, g);
            },
            ComponentDefinedType::Variant { cases } => {
                lemma_cases_replay(stack, cases@, st, t, g);
            },
            ComponentDefinedType::List { elem } => {
                lemma_val_type_replay(stack, elem, st, t, g);
            },
            ComponentDefinedType::Tuple { elems } => {
                lemma_val_types_replay(stack, elems@, st, t, g);
            },
            ComponentDefinedType::Option { typ } => {
                lemma_val_type_replay(stack, typ, st, t, g);
            },
            ComponentDefinedType::Result { ok, err } => {
                lemma_opt_val_type_replay(stack, ok, st, t, g);
                if let Some((Ok(_), s1)) = opt_val_type_outcome(stack, ok, st, g) {
                    if let Some((_, s2)) = opt_val_type_outcome(stack, err, s1, g) {
                        lemma_opt_val_type_grows(stack, ok, st, g);
                        lemma_opt_val_type_grows(stack, err, s1, g);
                        if s2.ids.is_prefix_of(t.ids) {
                            lemma_prefix_trans(s1.ids, s2.ids, t.ids);
                            lemma_opt_val_type_replay(stack, err, s1, replayed(st, s1, t), g);
                            lemma_replayed_compose(st, s1, s2, t);
                        }
                    }
                }
            },
            ComponentDefinedType::Owned { type_idx } => {
                lemma_type_idx_replay(stack, type_idx, Some(AnalysedResourceMode::Owned), st, t, g);
            },
            ComponentDefinedType::Borrowed { type_idx } => {
                lemma_type_idx_replay(stack, type_idx, Some(AnalysedResourceMode::Borrowed), st, t, g);
            },
            _ => {},
        }
    }
}

pub proof fn lemma_val_types_replay(stack: Seq<FrameModel>, ts: Seq<ComponentValType>, st: StateModel, t: StateModel, f: nat)
    ensures
        replays(st, val_types_outcome(stack, ts, st, f), t, val_types_outcome(stack, ts, t, f)),
    decreases f, ts.len() + 2,
{
    lemma_replayed_same(st, t);
    if ts.len() > 0 {
        lemma_val_types_replay(stack, ts.drop_last(), st, t, f);
        if let Some((Ok(_), s)) = val_types_outcome(stack, ts.drop_last(), st, f) {
            if let Some((_, s2)) = val_type_outcome(stack, ts.last(), s, f) {
                lemma_val_types_grows(stack, ts.drop_last(), st, f);
                lemma_val_type_grows(stack, ts.last(), s, f);
                if s2.ids.is_prefix_of(t.ids) {
                    lemma_prefix_trans(s.ids, s2.ids, t.ids);
                    lemma_val_type_replay(stack, ts.last(), s, replayed(st, s, t), f);
                    lemma_replayed_compose(st, s, s2, t);
                }
            }
        }
    }
}

pub proof fn lemma_named_replay(
    stack: Seq<FrameModel>,
    fs: Seq<(String, ComponentValType)>,
    st: StateModel,
    t: StateModel,
    f: nat,
)
    ensures
        replays(st, named_outcome(stack, fs, st, f), t, named_outcome(stack, fs, t, f)),
    decreases f, fs.len() + 2,
{
    lemma_replayed_same(st, t);
    if fs.len() > 0 {
        lemma_named_replay(stack, fs.drop_last(), st, t, f);
        if let Some((Ok(_), s)) = named_outcome(stack, fs.drop_last(), st, f) {
            if let Some((_, s2)) = val_type_outcome(stack, fs.last().1, s, f) {
                lemma_named_grows(stack, fs.drop_last(), st, f);
                lemma_val_type_grows(stack, fs.last().1, s, f);
                if s2.ids.is_prefix_of(t.ids) {
                    lemma_prefix_trans(s.ids, s2.ids, t.ids);
                    lemma_val_type_replay(stack, fs.last().1, s, replayed(st, s, t), f);
                    lemma_replayed_compose(st, s, s2, t);
                }
            }
        }
    }
}

pub proof fn lemma_cases_replay(stack: Seq<FrameModel>, cs: Seq<VariantCase>, st: StateModel, t: StateModel, f: nat)
    ensures
        replays(st, cases_outcome(stack, cs, st, f), t, cases_outcome(stack, cs, t, f)),
    decreases f, cs.len() + 2,
{
    lemma_replayed_same(st, t);
    if cs.len() > 0 {
        lemma_cases_replay(stack, cs.drop_last(), st, t, f);
        if let Some((Ok(_), s)) = cases_outcome(stack, cs.drop_last(), st, f) {
            if let Some((_, s2)) = opt_val_type_outcome(stack, cs.last().typ, s, f) {
                lemma_cases_grows(stack, cs.drop_last(), st, f);
                lemma_opt_val_type_grows(stack, cs.last().typ, s, f);
                if s2.ids.is_prefix_of(t.ids) {
                    lemma_prefix_trans(s.ids, s2.ids, t.ids);
                    lemma_opt_val_type_replay(stack, cs.last().typ, s, replayed(st, s, t), f);
                    lemma_replayed_compose(st, s, s2, t);
                }
            }
        }
    }
}

pub proof fn lemma_func_type_replay(
    stack: Seq<FrameModel>,
    name: String,
    ft: ComponentFuncType,
    st: StateModel,
    t: StateModel,
    f: nat,
)
    ensures
        replays(st, func_type_outcome(stack, name, ft, st, f), t, func_type_outcome(stack, name, ft, t, f)),
{
    lemma_named_replay(stack, ft.params@, st, t, f);
    if let Some((Ok(_), s1)) = named_outcome(stack, ft.params@, st, f) {
        lemma_named_grows(stack, ft.params@, st, f);
        let t1 = replayed(st, s1, t);
        match ft.result {
            ComponentFuncResult::Unnamed(x) => {
                if let Some((_, s2)) = val_type_outcome(stack, x, s1, f) {
                    lemma_val_type_grows(stack, x, s1, f);
                    if s2.ids.is_prefix_of(t.ids) {
                        lemma_prefix_trans(s1.ids, s2.ids, t.ids);
                        lemma_val_type_replay(stack, x, s1, t1, f);
                        lemma_replayed_compose(st, s1, s2, t);
                    }
                }
            },
            ComponentFuncResult::Named(ps) => {
                if ps@.len() > 0 {
                    if let Some((_, s2)) = named_outcome(stack, ps@, s1, f) {
                        lemma_named_grows(stack, ps@, s1, f);
                        if s2.ids.is_prefix_of(t.ids) {
                            lemma_prefix_trans(s1.ids, s2.ids, t.ids);
                            lemma_named_replay(stack, ps@, s1, t1, f);
                            lemma_replayed_compose(st, s1, s2, t);
                        }
                    }
                }
            },
        }
    }
}

pub proof fn lemma_func_export_replay(stack: Seq<FrameModel>, name: String, idx: u32, st: StateModel, t: StateModel, f: nat)
    ensures
        replays(st, func_export_outcome(stack, name, idx, st, f), t, func_export_outcome(stack, name, idx, t, f)),
{
    lemma_replayed_same(st, t);
    if f > 0 {
        let g = (f - 1) as nat;
        if let Some(Ok((function_section, next))) = resolve_final(
            stack,
            ComponentExternalKind::Func,
            idx,
            "component function "@,
            g,
        ) {
            if let Some(Ok((type_section, next2))) = function_type_section(next, function_section, g) {
                if let ComponentSection::Type(ComponentType::Func(ft)) = type_section {
                    lemma_func_type_replay(next2, name, ft, st, t, g);
                }
            }
        }
    }
}

pub proof fn lemma_component_funcs_replay(
    stack: Seq<FrameModel>,
    exports: Seq<ComponentExport>,
    st: StateModel,
    t: StateModel,
    f: nat,
)
    ensures
        replays(st, component_funcs_outcome(stack, exports, st, f), t, component_funcs_outcome(stack, exports, t, f)),
    decreases exports.len(),
{
    lemma_replayed_same(st, t);
    if exports.len() > 0 {
        lemma_component_funcs_replay(stack, exports.drop_last(), st, t, f);
        if let Some((Ok(_), s)) = component_funcs_outcome(stack, exports.drop_last(), st, f) {
            lemma_component_funcs_grows(stack, exports.drop_last(), st, f);
            let e = exports.last();
            if e.kind == ComponentExternalKind::Func {
                if let Some((_, s2)) = func_export_outcome(stack, e.name, e.idx, s, f) {
                    lemma_func_export_grows(stack, e.name, e.idx, s, f);
                    if s2.ids.is_prefix_of(t.ids) {
                        lemma_prefix_trans(s.ids, s2.ids, t.ids);
                        lemma_func_export_replay(stack, e.name, e.idx, s, replayed(st, s, t), f);
                        lemma_replayed_compose(st, s, s2, t);
                    }
                }
            } else {
                lemma_warning_replay(st, s, t, e.kind, e.name);
            }
        }
    }
}

/// Recording a warning after a replayed step is replaying the step and the warning.
pub proof fn lemma_warning_replay(st: StateModel, s: StateModel, t: StateModel, kind: ComponentExternalKind, name: String)
    requires
        extends(st, s),
    ensures
        with_warning(replayed(st, s, t), kind, name) == replayed(st, with_warning(s, kind, name), t),
{
    let a = st.warnings.len() as int;
    let w = crate::failure::AnalysisWarning::UnsupportedExport { kind, name };
    assert(s.warnings.push(w).skip(a) =~= s.warnings.skip(a).push(w));
    assert(with_warning(replayed(st, s, t), kind, name).warnings =~= replayed(st, with_warning(s, kind, name), t).warnings);
    assert(with_warning(replayed(st, s, t), kind, name) =~= replayed(st, with_warning(s, kind, name), t));
}

pub proof fn lemma_instance_export_replay(stack: Seq<FrameModel>, name: String, idx: u32, st: StateModel, t: StateModel, f: nat)
    ensures
        replays(st, instance_export_outcome(stack, name, idx, st, f), t, instance_export_outcome(stack, name, idx, t, f)),
{
    lemma_replayed_same(st, t);
    if f > 0 {
        let g = (f - 1) as nat;
        if let Some(Ok((instance_section, next))) = resolve_final(
            stack,
            ComponentExternalKind::Instance,
            idx,
            "instance "@,
            g,
        ) {
            if let ComponentSection::Instance(ComponentInstance::Instantiate { component_idx }) = instance_section {
                if let Some(Ok((component_section, next2))) = resolve_final(
                    next,
                    ComponentExternalKind::Component,
                    component_idx,
                    "component "@,
                    g,
                ) {
                    if let ComponentSection::Component(c) = component_section {
                        let inner = next2.push(FrameModel { component: c, component_idx: Some(component_idx) });
                        lemma_component_funcs_replay(inner, exports_of(c.sections@), st, t, g);
                    }
                }
            }
        }
    }
}

pub proof fn lemma_exports_replay(stack: Seq<FrameModel>, exports: Seq<ComponentExport>, st: StateModel, t: StateModel, f: nat)
    ensures
        replays(st, exports_outcome(stack, exports, st, f), t, exports_outcome(stack, exports, t, f)),
    decreases exports.len(),
{
    lemma_replayed_same(st, t);
    if exports.len() > 0 {
        lemma_exports_replay(stack, exports.drop_last(), st, t, f);
        if let Some((Ok(_), s)) = exports_outcome(stack, exports.drop_last(), st, f) {
            lemma_exports_grows(stack, exports.drop_last(), st, f);
            let e = exports.last();
            if e.kind == ComponentExternalKind::Func {
                if let Some((_, s2)) = func_export_outcome(stack, e.name, e.idx, s, f) {
                    lemma_func_export_grows(stack, e.name, e.idx, s, f);
                    if s2.ids.is_prefix_of(t.ids) {
                        lemma_prefix_trans(s.ids, s2.ids, t.ids);
                        lemma_func_export_replay(stack, e.name, e.idx, s, replayed(st, s, t), f);
                        lemma_replayed_compose(st, s, s2, t);
                    }
                }
            } else if e.kind == ComponentExternalKind::Instance {
                if let Some((_, s2)) = instance_export_outcome(stack, e.name, e.idx, s, f) {
                    crate::growth::lemma_instance_export_grows(stack, e.name, e.idx, s, f);
                    if s2.ids.is_prefix_of(t.ids) {
                        lemma_prefix_trans(s.ids, s2.ids, t.ids);
                        lemma_instance_export_replay(stack, e.name, e.idx, s, replayed(st, s, t), f);
                        lemma_replayed_compose(st, s, s2, t);
                    }
                }
            } else {
                lemma_warning_replay(st, s, t, e.kind, e.name);
            }
        }
    }
}

/// Analysing the exports of a component a second time, from the state the first analysis
/// ended in, gives the same result (the same exports, with the same resource
/// identifiers, or the same failure), records no new resource type, and records the
/// warnings of the first analysis a second time.
pub proof fn law_analysis_repeats(stack: Seq<FrameModel>, st: StateModel, fuel: nat)
    ensures
        top_level_outcome(stack, st, fuel) matches Some((r, s1)) ==> top_level_outcome(stack, s1, fuel) == Some(
            (r, StateModel { warnings: s1.warnings + s1.warnings.skip(st.warnings.len() as int), ids: s1.ids }),
        ),
{
    let exports = exports_of(top_sections(stack));
    lemma_exports_replay(stack, exports, st, top_level_outcome(stack, st, fuel).unwrap().1, fuel);
    if let Some((r, s1)) = top_level_outcome(stack, st, fuel) {
        assert(s1.ids.is_prefix_of(s1.ids)) by {
            assert(s1.ids.subrange(0, s1.ids.len() as int) =~= s1.ids);
        }
    }
}

/// The identifier of a resource type stays the same across any later steps: from any state
/// that still holds the resource types recorded when it was handed out, the same resource
/// type, read in any stack with the same component path, gets the same identifier and
/// nothing changes.
pub proof fn law_resource_id_stable_later(
    stack: Seq<FrameModel>,
    later_stack: Seq<FrameModel>,
    type_idx: u32,
    st: StateModel,
    later: StateModel,
)
    requires
        stack_path(later_stack) == stack_path(stack),
        resource_id_step(stack, type_idx, st).1.ids.is_prefix_of(later.ids),
    ensures
        resource_id_step(later_stack, type_idx, later) == (resource_id_step(stack, type_idx, st).0, later),
{
    lemma_resource_id_replay(stack, type_idx, st, later);
}

} // verus!
