//! The executable analysis, each function proved to give what its counterpart in
//! `context` specifies.
use vstd::prelude::*;

use crate::analysed::{
    AnalysedExport, AnalysedInstance, functions_model, exports_model, AnalysedFunction, AnalysedFunctionResults, AnalysedResourceId,
    AnalysedResourceMode, AnalysedType, cases_model, named_types_model,
    opt_type_model, types_model,
};
use crate::component::{
    Canon, ComponentExport, ComponentInstance, ComponentDefinedType, deref_exports, same_kind, ComponentExternalKind, ComponentFuncResult, ComponentFuncType,
    ComponentSection, ComponentType, ComponentTypeRef, ComponentValType, TypeBounds, VariantCase,
};
use crate::context::{
    AnalysisState, StateModel, cases_outcome, component_funcs_outcome, exports_outcome, instance_export_outcome, with_warning, func_type_outcome, function_type_section, func_export_outcome, defined_outcome, named_outcome, opt_val_type_outcome,
    outcome_is, position_of, resource_id_step, stack_path, type_idx_outcome, val_type_outcome,
    val_types_outcome,
};
use crate::failure::{AnalysisFailure, AnalysisResult, AnalysisWarning};
use crate::resolve::{ComponentStackItem, FrameModel, frames, get_final_referenced, push_component, resolved_as};
use crate::text::concat3;

verus! {

/// The component indices on the stack, from the bottom up.
fn component_path<'a>(stack: &Vec<ComponentStackItem<'a>>) -> (r: Vec<u32>)
    ensures
        r@ == stack_path(frames(stack@)),
{
    let mut out: Vec<u32> = Vec::new();
    let mut i: usize = 0;
    proof {
        assert(frames(stack@).take(0) =~= Seq::<FrameModel>::empty());
    }
    while i < stack.len()
        invariant
            i <= stack@.len(),
            out@ == stack_path(frames(stack@).take(i as int)),
        decreases stack@.len() - i,
    {
        proof {
            assert(frames(stack@).take(i + 1).drop_last() =~= frames(stack@).take(i as int));
        }
        match stack[i].component_idx {
            Some(idx) => out.push(idx),
            None => {},
        }
        i = i + 1;
    }
    proof {
        assert(frames(stack@).take(stack@.len() as int) =~= frames(stack@));
    }
    out
}

fn same_path(a: &Vec<u32>, b: &Vec<u32>) -> (r: bool)
    ensures
        r == (a@ == b@),
{
    if a.len() != b.len() {
        return false;
    }
    let mut i: usize = 0;
    while i < a.len()
        invariant
            a@.len() == b@.len(),
            i <= a@.len(),
            forall|j: int| 0 <= j < i ==> a@[j] == b@[j],
        decreases a@.len() - i,
    {
        if a[i] != b[i] {
            return false;
        }
        i = i + 1;
    }
    proof {
        assert(a@ =~= b@);
    }
    true
}

/// A position found in a prefix of `ids` is the position in `ids`.
proof fn lemma_position_of_prefix(ids: Seq<(Seq<u32>, u32)>, key: (Seq<u32>, u32), i: int, j: int)
    requires
        0 <= i <= j <= ids.len(),
        position_of(ids.take(i), key) is Some,
    ensures
        position_of(ids.take(j), key) == position_of(ids.take(i), key),
    decreases j - i,
{
    if i < j {
        lemma_position_of_prefix(ids, key, i, j - 1);
        assert(ids.take(j).drop_last() =~= ids.take(j - 1));
    }
}

/// The identifier of a resource type: the one it already has, or the next one.
pub fn get_resource_id<'a>(
    stack: &Vec<ComponentStackItem<'a>>,
    type_idx: u32,
    state: &mut AnalysisState,
) -> (id: AnalysedResourceId)
    ensures
        (id, final(state).model()) == resource_id_step(frames(stack@), type_idx, old(state).model()),
{
    let path = component_path(stack);
    let ghost key = (path@, type_idx);
    let ghost ids = old(state).model().ids;
    let n = state.resource_ids.len();
    let mut i: usize = 0;
    proof {
        assert(ids.take(0) =~= Seq::<(Seq<u32>, u32)>::empty());
    }
    while i < n
        invariant
            n == state.resource_ids@.len(),
            *state == *old(state),
            key == (path@, type_idx),
            path@ == stack_path(frames(stack@)),
            ids == old(state).model().ids,
            ids == state.model().ids,
            ids.len() == n,
            i <= n,
            position_of(ids.take(i as int), key) is None,
        decreases n - i,
    {
        proof {
            assert(ids.take(i + 1).drop_last() =~= ids.take(i as int));
        }
        let k = &state.resource_ids[i];
        if k.type_idx == type_idx && same_path(&k.path, &path) {
            proof {
                assert(ids[i as int] == (state.resource_ids@[i as int].path@, state.resource_ids@[i as int].type_idx));
                assert(ids[i as int] == key);
                assert(position_of(ids.take(i + 1), key) == Some(i as nat));
                lemma_position_of_prefix(ids, key, i + 1, n as int);
                assert(ids.take(n as int) =~= ids);
            }
            return AnalysedResourceId { value: i as u64 };
        }
        i = i + 1;
    }
    proof {
        assert(ids.take(n as int) =~= ids);
    }
    state.resource_ids.push(crate::context::ResourceKey { path, type_idx });
    proof {
        assert(state.model().ids =~= ids.push(key));
        assert(state.model() =~= StateModel { warnings: old(state).model().warnings, ids: ids.push(key) });
    }
    AnalysedResourceId { value: n as u64 }
}

proof fn lemma_val_types_prefix(
    stack: Seq<FrameModel>,
    ts: Seq<ComponentValType>,
    st: StateModel,
    fuel: nat,
    i: int,
    j: int,
)
    requires
        0 <= i <= j <= ts.len(),
    ensures
        val_types_outcome(stack, ts.take(j), st, fuel) is Some ==> val_types_outcome(stack, ts.take(i), st, fuel) is Some,
        !(val_types_outcome(stack, ts.take(i), st, fuel) matches Some((Ok(_), _)))
            ==> val_types_outcome(stack, ts.take(j), st, fuel) == val_types_outcome(stack, ts.take(i), st, fuel),
    decreases j - i,
{
    if i < j {
        lemma_val_types_prefix(stack, ts, st, fuel, i, j - 1);
        assert(ts.take(j).drop_last() =~= ts.take(j - 1));
    }
}

proof fn lemma_named_prefix(
    stack: Seq<FrameModel>,
    fs: Seq<(String, ComponentValType)>,
    st: StateModel,
    fuel: nat,
    i: int,
    j: int,
)
    requires
        0 <= i <= j <= fs.len(),
    ensures
        named_outcome(stack, fs.take(j), st, fuel) is Some ==> named_outcome(stack, fs.take(i), st, fuel) is Some,
        !(named_outcome(stack, fs.take(i), st, fuel) matches Some((Ok(_), _)))
            ==> named_outcome(stack, fs.take(j), st, fuel) == named_outcome(stack, fs.take(i), st, fuel),
    decreases j - i,
{
    if i < j {
        lemma_named_prefix(stack, fs, st, fuel, i, j - 1);
        assert(fs.take(j).drop_last() =~= fs.take(j - 1));
    }
}

proof fn lemma_cases_prefix(
    stack: Seq<FrameModel>,
    cs: Seq<VariantCase>,
    st: StateModel,
    fuel: nat,
    i: int,
    j: int,
)
    requires
        0 <= i <= j <= cs.len(),
    ensures
        cases_outcome(stack, cs.take(j), st, fuel) is Some ==> cases_outcome(stack, cs.take(i), st, fuel) is Some,
        !(cases_outcome(stack, cs.take(i), st, fuel) matches Some((Ok(_), _)))
            ==> cases_outcome(stack, cs.take(j), st, fuel) == cases_outcome(stack, cs.take(i), st, fuel),
    decreases j - i,
{
    if i < j {
        lemma_cases_prefix(stack, cs, st, fuel, i, j - 1);
        assert(cs.take(j).drop_last() =~= cs.take(j - 1));
    }
}

/// The type that a value type stands for.
pub fn analyse_component_val_type<'a>(
    stack: &Vec<ComponentStackItem<'a>>,
    tpe: &ComponentValType,
    state: &mut AnalysisState,
    Ghost(fuel): Ghost<nat>,
) -> (r: AnalysisResult<AnalysedType>)
    requires
        stack@.len() > 0,
        val_type_outcome(frames(stack@), *tpe, old(state).model(), fuel) is Some,
    ensures
        outcome_is(
            r,
            final(state).model(),
            val_type_outcome(frames(stack@), *tpe, old(state).model(), fuel),
            |t: AnalysedType| t.model(),
        ),
    decreases fuel, 0nat,
{
    match tpe {
        ComponentValType::Primitive(p) => Ok(AnalysedType::from(p)),
        ComponentValType::Defined(idx) => analyse_component_type_idx(
            stack,
            *idx,
            None,
            state,
            Ghost((fuel - 1) as nat),
        ),
    }
}

/// The type that an optional value type stands for.
fn analyse_opt_val_type<'a>(
    stack: &Vec<ComponentStackItem<'a>>,
    tpe: &Option<ComponentValType>,
    state: &mut AnalysisState,
    Ghost(fuel): Ghost<nat>,
) -> (r: AnalysisResult<Option<AnalysedType>>)
    requires
        stack@.len() > 0,
        opt_val_type_outcome(frames(stack@), *tpe, old(state).model(), fuel) is Some,
    ensures
        outcome_is(
            r,
            final(state).model(),
            opt_val_type_outcome(frames(stack@), *tpe, old(state).model(), fuel),
            |t: Option<AnalysedType>| opt_type_model(t),
        ),
    decreases fuel, 1nat,
{
    match tpe {
        None => Ok(None),
        Some(t) => match analyse_component_val_type(stack, t, state, Ghost(fuel)) {
            Err(e) => Err(e),
            Ok(t) => Ok(Some(t)),
        },
    }
}

/// The type with index `component_type_idx`, reached through a handle of mode
/// `analysed_resource_mode` if any.
pub fn analyse_component_type_idx<'a>(
    stack: &Vec<ComponentStackItem<'a>>,
    component_type_idx: u32,
    analysed_resource_mode: Option<AnalysedResourceMode>,
    state: &mut AnalysisState,
    Ghost(fuel): Ghost<nat>,
) -> (r: AnalysisResult<AnalysedType>)
    requires
        stack@.len() > 0,
        type_idx_outcome(frames(stack@), component_type_idx, analysed_resource_mode, old(state).model(), fuel) is Some,
    ensures
        outcome_is(
            r,
            final(state).model(),
            type_idx_outcome(frames(stack@), component_type_idx, analysed_resource_mode, old(state).model(), fuel),
            |t: AnalysedType| t.model(),
        ),
    decreases fuel, 0nat,
{
    let ghost f = (fuel - 1) as nat;
    match get_final_referenced(stack, ComponentExternalKind::Type, component_type_idx, "component type ", Ghost(f)) {
        Err(e) => Err(e),
        Ok((section, next_ctx)) => match section {
            ComponentSection::Type(ComponentType::Defined(defined)) => analyse_component_defined_type(
                &next_ctx,
                defined,
                state,
                Ghost(f),
            ),
            ComponentSection::Type(ComponentType::Func(_)) => Err(
                AnalysisFailure::failed("Passing functions in exported functions is not supported"),
            ),
            ComponentSection::Type(ComponentType::Component) => Err(
                AnalysisFailure::failed("Passing components in exported functions is not supported"),
            ),
            ComponentSection::Type(ComponentType::Instance) => Err(
                AnalysisFailure::failed("Passing instances in exported functions is not supported"),
            ),
            ComponentSection::Type(ComponentType::Resource { .. }) => Err(
                AnalysisFailure::failed("Passing resources in exported functions is not supported"),
            ),
            ComponentSection::Import(import) => match &import.desc {
                ComponentTypeRef::Type(TypeBounds::Eq(inner)) => analyse_component_type_idx(
                    stack,
                    *inner,
                    analysed_resource_mode,
                    state,
                    Ghost(f),
                ),
                ComponentTypeRef::Type(TypeBounds::SubResource) => match analysed_resource_mode {
                    Some(resource_mode) => {
                        let id = get_resource_id(&next_ctx, component_type_idx, state);
                        Ok(AnalysedType::Resource { id, resource_mode })
                    },
                    None => Err(
                        AnalysisFailure::failed(
                            "Reached a sub-resource type bound without a surrounding borrowed/owned resource type",
                        ),
                    ),
                },
                desc => {
                    let d = desc.debug_text();
                    Err(AnalysisFailure::Failed(concat3("Imports ", d.as_str(), " is not supported as a defined type")))
                },
            },
            _ => Err(AnalysisFailure::Failed(concat3("Expected component type, but got ", section.kind_name(), " instead"))),
        },
    }
}

/// The type that a defined type stands for.
pub fn analyse_component_defined_type<'a>(
    stack: &Vec<ComponentStackItem<'a>>,
    defined_type: &ComponentDefinedType,
    state: &mut AnalysisState,
    Ghost(fuel): Ghost<nat>,
) -> (r: AnalysisResult<AnalysedType>)
    requires
        stack@.len() > 0,
        defined_outcome(frames(stack@), *defined_type, old(state).model(), fuel) is Some,
    ensures
        outcome_is(
            r,
            final(state).model(),
            defined_outcome(frames(stack@), *defined_type, old(state).model(), fuel),
            |t: AnalysedType| t.model(),
        ),
    decreases fuel, 0nat,
{
    let ghost f = (fuel - 1) as nat;
    match defined_type {
        ComponentDefinedType::Primitive { typ } => Ok(AnalysedType::from(typ)),
        ComponentDefinedType::Record { fields } => match analyse_named_types(stack, fields, state, Ghost(f)) {
            Err(e) => Err(e),
            Ok(result) => {
                proof {
                    crate::analysed::lemma_record_model(result);
                }
                Ok(AnalysedType::Record(result))
            },
        },
        ComponentDefinedType::Variant { cases } => match analyse_cases(stack, cases, state, Ghost(f)) {
            Err(e) => Err(e),
            Ok(result) => {
                proof {
                    crate::analysed::lemma_variant_model(result);
                }
                Ok(AnalysedType::Variant(result))
            },
        },
        ComponentDefinedType::List { elem } => match analyse_component_val_type(stack, elem, state, Ghost(f)) {
            Err(e) => Err(e),
            Ok(t) => Ok(AnalysedType::List(Box::new(t))),
        },
        ComponentDefinedType::Tuple { elems } => match analyse_val_types(stack, elems, state, Ghost(f)) {
            Err(e) => Err(e),
            Ok(result) => {
                proof {
                    crate::analysed::lemma_tuple_model(result);
                }
                Ok(AnalysedType::Tuple(result))
            },
        },
        ComponentDefinedType::Flags { names } => Ok(AnalysedType::Flags(crate::analysed::clone_strings(names))),
        ComponentDefinedType::Enum { names } => Ok(AnalysedType::Enum(crate::analysed::clone_strings(names))),
        ComponentDefinedType::Option { typ } => match analyse_component_val_type(stack, typ, state, Ghost(f)) {
            Err(e) => Err(e),
            Ok(t) => Ok(AnalysedType::Option(Box::new(t))),
        },
        ComponentDefinedType::Result { ok, err } => match analyse_opt_val_type(stack, ok, state, Ghost(f)) {
            Err(e) => Err(e),
            Ok(ok_type) => match analyse_opt_val_type(stack, err, state, Ghost(f)) {
                Err(e) => Err(e),
                Ok(err_type) => {
                    let ok_boxed = match ok_type {
                        Some(t) => Some(Box::new(t)),
                        None => None,
                    };
                    let err_boxed = match err_type {
                        Some(t) => Some(Box::new(t)),
                        None => None,
                    };
                    Ok(AnalysedType::Result { ok: ok_boxed, error: err_boxed })
                },
            },
        },
        ComponentDefinedType::Owned { type_idx } => analyse_component_type_idx(
            stack,
            *type_idx,
            Some(AnalysedResourceMode::Owned),
            state,
            Ghost(f),
        ),
        ComponentDefinedType::Borrowed { type_idx } => analyse_component_type_idx(
            stack,
            *type_idx,
            Some(AnalysedResourceMode::Borrowed),
            state,
            Ghost(f),
        ),
    }
}

/// The types of a list of value types, from first to last.
fn analyse_val_types<'a>(
    stack: &Vec<ComponentStackItem<'a>>,
    elems: &Vec<ComponentValType>,
    state: &mut AnalysisState,
    Ghost(fuel): Ghost<nat>,
) -> (r: AnalysisResult<Vec<AnalysedType>>)
    requires
        stack@.len() > 0,
        val_types_outcome(frames(stack@), elems@, old(state).model(), fuel) is Some,
    ensures
        outcome_is(
            r,
            final(state).model(),
            val_types_outcome(frames(stack@), elems@, old(state).model(), fuel),
            |v: Vec<AnalysedType>| types_model(v@),
        ),
    decreases fuel, elems@.len() + 2,
{
    let ghost fr = frames(stack@);
    let ghost st0 = old(state).model();
    let mut out: Vec<AnalysedType> = Vec::new();
    let mut i: usize = 0;
    proof {
        assert(elems@.take(0) =~= Seq::<ComponentValType>::empty());
        assert(types_model(out@) =~= Seq::<crate::analysed::TypeModel>::empty());
    }
    while i < elems.len()
        invariant
            stack@.len() > 0,
            fr == frames(stack@),
            st0 == old(state).model(),
            i <= elems@.len(),
            val_types_outcome(fr, elems@, st0, fuel) is Some,
            val_types_outcome(fr, elems@.take(i as int), st0, fuel) == Some(
                (Ok::<Seq<crate::analysed::TypeModel>, Seq<char>>(types_model(out@)), state.model()),
            ),
        decreases elems@.len() - i,
    {
        proof {
            lemma_val_types_prefix(fr, elems@, st0, fuel, i + 1, elems@.len() as int);
            assert(elems@.take(elems@.len() as int) =~= elems@);
            assert(elems@.take(i + 1).drop_last() =~= elems@.take(i as int));
        }
        let ghost s_before = state.model();
        match analyse_component_val_type(stack, &elems[i], state, Ghost(fuel)) {
            Err(e) => {
                proof {
                    assert(elems@.take(i + 1).last() == elems@[i as int]);
                    assert(!(val_types_outcome(fr, elems@.take(i + 1), st0, fuel) matches Some((Ok(_), _))));
                    assert(val_types_outcome(fr, elems@.take(i + 1), st0, fuel) == Some((Err::<Seq<crate::analysed::TypeModel>, Seq<char>>(e.message()), state.model())));
                    assert(val_types_outcome(fr, elems@, st0, fuel) == val_types_outcome(fr, elems@.take(i + 1), st0, fuel));
                }
                return Err(e);
            },
            Ok(t) => {
                let ghost prev = out@;
                let ghost tm = t.model();
                out.push(t);
                proof {
                    assert(types_model(out@) =~= types_model(prev).push(tm));
                }
            },
        }
        i = i + 1;
    }
    proof {
        assert(elems@.take(elems@.len() as int) =~= elems@);
    }
    Ok(out)
}

/// The types of a list of named value types, from first to last.
pub fn analyse_named_types<'a>(
    stack: &Vec<ComponentStackItem<'a>>,
    fields: &Vec<(String, ComponentValType)>,
    state: &mut AnalysisState,
    Ghost(fuel): Ghost<nat>,
) -> (r: AnalysisResult<Vec<(String, AnalysedType)>>)
    requires
        stack@.len() > 0,
        named_outcome(frames(stack@), fields@, old(state).model(), fuel) is Some,
    ensures
        outcome_is(
            r,
            final(state).model(),
            named_outcome(frames(stack@), fields@, old(state).model(), fuel),
            |v: Vec<(String, AnalysedType)>| named_types_model(v@),
        ),
    decreases fuel, fields@.len() + 2,
{
    let ghost fr = frames(stack@);
    let ghost st0 = old(state).model();
    let mut out: Vec<(String, AnalysedType)> = Vec::new();
    let mut i: usize = 0;
    proof {
        assert(fields@.take(0) =~= Seq::<(String, ComponentValType)>::empty());
        assert(named_types_model(out@) =~= Seq::<(String, crate::analysed::TypeModel)>::empty());
    }
    while i < fields.len()
        invariant
            stack@.len() > 0,
            fr == frames(stack@),
            st0 == old(state).model(),
            i <= fields@.len(),
            named_outcome(fr, fields@, st0, fuel) is Some,
            named_outcome(fr, fields@.take(i as int), st0, fuel) == Some(
                (Ok::<Seq<(String, crate::analysed::TypeModel)>, Seq<char>>(named_types_model(out@)), state.model()),
            ),
        decreases fields@.len() - i,
    {
        proof {
            lemma_named_prefix(fr, fields@, st0, fuel, i + 1, fields@.len() as int);
            assert(fields@.take(fields@.len() as int) =~= fields@);
            assert(fields@.take(i + 1).drop_last() =~= fields@.take(i as int));
        }
        let field = &fields[i];
        let ghost s_before = state.model();
        match analyse_component_val_type(stack, &field.1, state, Ghost(fuel)) {
            Err(e) => {
                proof {
                    assert(fields@.take(i + 1).last() == fields@[i as int]);
                    assert(!(named_outcome(fr, fields@.take(i + 1), st0, fuel) matches Some((Ok(_), _))));
                    assert(named_outcome(fr, fields@.take(i + 1), st0, fuel) == Some((Err::<Seq<(String, crate::analysed::TypeModel)>, Seq<char>>(e.message()), state.model())));
                    assert(named_outcome(fr, fields@, st0, fuel) == named_outcome(fr, fields@.take(i + 1), st0, fuel));
                }
                return Err(e);
            },
            Ok(t) => {
                let ghost prev = out@;
                let ghost tm = t.model();
                out.push((field.0.clone(), t));
                proof {
                    assert(named_types_model(out@) =~= named_types_model(prev).push((field.0, tm)));
                }
            },
        }
        i = i + 1;
    }
    proof {
        assert(fields@.take(fields@.len() as int) =~= fields@);
    }
    Ok(out)
}

/// The cases of a variant, from first to last.
fn analyse_cases<'a>(
    stack: &Vec<ComponentStackItem<'a>>,
    cases: &Vec<VariantCase>,
    state: &mut AnalysisState,
    Ghost(fuel): Ghost<nat>,
) -> (r: AnalysisResult<Vec<(String, Option<AnalysedType>)>>)
    requires
        stack@.len() > 0,
        cases_outcome(frames(stack@), cases@, old(state).model(), fuel) is Some,
    ensures
        outcome_is(
            r,
            final(state).model(),
            cases_outcome(frames(stack@), cases@, old(state).model(), fuel),
            |v: Vec<(String, Option<AnalysedType>)>| cases_model(v@),
        ),
    decreases fuel, cases@.len() + 2,
{
    let ghost fr = frames(stack@);
    let ghost st0 = old(state).model();
    let mut out: Vec<(String, Option<AnalysedType>)> = Vec::new();
    let mut i: usize = 0;
    proof {
        assert(cases@.take(0) =~= Seq::<VariantCase>::empty());
        assert(cases_model(out@) =~= Seq::<(String, Option<crate::analysed::TypeModel>)>::empty());
    }
    while i < cases.len()
        invariant
            stack@.len() > 0,
            fr == frames(stack@),
            st0 == old(state).model(),
            i <= cases@.len(),
            cases_outcome(fr, cases@, st0, fuel) is Some,
            cases_outcome(fr, cases@.take(i as int), st0, fuel) == Some(
                (Ok::<Seq<(String, Option<crate::analysed::TypeModel>)>, Seq<char>>(cases_model(out@)), state.model()),
            ),
        decreases cases@.len() - i,
    {
        proof {
            lemma_cases_prefix(fr, cases@, st0, fuel, i + 1, cases@.len() as int);
            assert(cases@.take(cases@.len() as int) =~= cases@);
            assert(cases@.take(i + 1).drop_last() =~= cases@.take(i as int));
        }
        let case = &cases[i];
        let ghost s_before = state.model();
        match analyse_opt_val_type(stack, &case.typ, state, Ghost(fuel)) {
            Err(e) => {
                proof {
                    assert(cases@.take(i + 1).last() == cases@[i as int]);
                    assert(!(cases_outcome(fr, cases@.take(i + 1), st0, fuel) matches Some((Ok(_), _))));
                    assert(cases_outcome(fr, cases@.take(i + 1), st0, fuel) == Some((Err::<Seq<(String, Option<crate::analysed::TypeModel>)>, Seq<char>>(e.message()), state.model())));
                    assert(cases_outcome(fr, cases@, st0, fuel) == cases_outcome(fr, cases@.take(i + 1), st0, fuel));
                }
                return Err(e);
            },
            Ok(t) => {
                let ghost prev = out@;
                let ghost tm = opt_type_model(t);
                out.push((case.name.clone(), t));
                proof {
                    assert(cases_model(out@) =~= cases_model(prev).push((case.name, tm)));
                }
            },
        }
        i = i + 1;
    }
    proof {
        assert(cases@.take(cases@.len() as int) =~= cases@);
    }
    Ok(out)
}

/// The function named `name` with function type `func_type`.
pub fn analyse_component_func_type<'a>(
    stack: &Vec<ComponentStackItem<'a>>,
    name: String,
    func_type: &ComponentFuncType,
    state: &mut AnalysisState,
    Ghost(fuel): Ghost<nat>,
) -> (r: AnalysisResult<AnalysedFunction>)
    requires
        stack@.len() > 0,
        func_type_outcome(frames(stack@), name, *func_type, old(state).model(), fuel) is Some,
    ensures
        outcome_is(
            r,
            final(state).model(),
            func_type_outcome(frames(stack@), name, *func_type, old(state).model(), fuel),
            |f: AnalysedFunction| f.model(),
        ),
{
    let params = match analyse_named_types(stack, &func_type.params, state, Ghost(fuel)) {
        Err(e) => {
            return Err(e);
        },
        Ok(p) => crate::analysed::into_parameters(p),
    };
    let results = match &func_type.result {
        ComponentFuncResult::Unnamed(t) => match analyse_component_val_type(stack, t, state, Ghost(fuel)) {
            Err(e) => {
                return Err(e);
            },
            Ok(t) => AnalysedFunctionResults::Unnamed(t),
        },
        ComponentFuncResult::Named(pairs) => {
            if pairs.len() == 0 {
                AnalysedFunctionResults::Unit
            } else {
                match analyse_named_types(stack, pairs, state, Ghost(fuel)) {
                    Err(e) => {
                        return Err(e);
                    },
                    Ok(rs) => AnalysedFunctionResults::Named(crate::analysed::into_named_results(rs)),
                }
            }
        },
    };
    Ok(AnalysedFunction { name, params, results })
}

/// The function type of a lifted function or function import, followed to its definition.
fn function_type_of<'a>(
    stack: &Vec<ComponentStackItem<'a>>,
    function_section: &'a ComponentSection,
    Ghost(fuel): Ghost<nat>,
) -> (r: Result<(&'a ComponentSection, Vec<ComponentStackItem<'a>>), AnalysisFailure>)
    requires
        stack@.len() > 0,
        function_type_section(frames(stack@), *function_section, fuel) is Some,
    ensures
        resolved_as(r, function_type_section(frames(stack@), *function_section, fuel).unwrap()),
{
    match function_section {
        ComponentSection::Canon(Canon::Lift { function_type, .. }) => get_final_referenced(
            stack,
            ComponentExternalKind::Type,
            *function_type,
            "component function type ",
            Ghost(fuel),
        ),
        ComponentSection::Import(import) => match &import.desc {
            ComponentTypeRef::Func(func_type_idx) => get_final_referenced(
                stack,
                ComponentExternalKind::Type,
                *func_type_idx,
                "component function type ",
                Ghost(fuel),
            ),
            desc => {
                let d = desc.debug_text();
                Err(AnalysisFailure::Failed(concat3("Expected function import, but got ", d.as_str(), " instead")))
            },
        },
        _ => Err(
            AnalysisFailure::Failed(
                concat3(
                    "Expected canonical lift function or function import, but got ",
                    function_section.kind_name(),
                    " instead",
                ),
            ),
        ),
    }
}

/// The exported function `name`, item `idx` of the function space.
pub fn analyse_func_export<'a>(
    stack: &Vec<ComponentStackItem<'a>>,
    name: String,
    idx: u32,
    state: &mut AnalysisState,
    Ghost(fuel): Ghost<nat>,
) -> (r: AnalysisResult<AnalysedFunction>)
    requires
        stack@.len() > 0,
        func_export_outcome(frames(stack@), name, idx, old(state).model(), fuel) is Some,
    ensures
        outcome_is(
            r,
            final(state).model(),
            func_export_outcome(frames(stack@), name, idx, old(state).model(), fuel),
            |f: AnalysedFunction| f.model(),
        ),
{
    let ghost f = (fuel - 1) as nat;
    match get_final_referenced(stack, ComponentExternalKind::Func, idx, "component function ", Ghost(f)) {
        Err(e) => Err(e),
        Ok((function_section, next_ctx)) => match function_type_of(&next_ctx, function_section, Ghost(f)) {
            Err(e) => Err(e),
            Ok((func_type_section, next_ctx2)) => match func_type_section {
                ComponentSection::Type(ComponentType::Func(func_type)) => analyse_component_func_type(
                    &next_ctx2,
                    name,
                    func_type,
                    state,
                    Ghost(f),
                ),
                _ => Err(
                    AnalysisFailure::Failed(
                        concat3("Expected function type, but got ", func_type_section.kind_name(), " instead"),
                    ),
                ),
            },
        },
    }
}

proof fn lemma_component_funcs_prefix(
    stack: Seq<FrameModel>,
    es: Seq<ComponentExport>,
    st: StateModel,
    fuel: nat,
    i: int,
    j: int,
)
    requires
        0 <= i <= j <= es.len(),
    ensures
        component_funcs_outcome(stack, es.take(j), st, fuel) is Some ==> component_funcs_outcome(stack, es.take(i), st, fuel) is Some,
        !(component_funcs_outcome(stack, es.take(i), st, fuel) matches Some((Ok(_), _)))
            ==> component_funcs_outcome(stack, es.take(j), st, fuel) == component_funcs_outcome(stack, es.take(i), st, fuel),
    decreases j - i,
{
    if i < j {
        lemma_component_funcs_prefix(stack, es, st, fuel, i, j - 1);
        assert(es.take(j).drop_last() =~= es.take(j - 1));
    }
}

proof fn lemma_exports_prefix(
    stack: Seq<FrameModel>,
    es: Seq<ComponentExport>,
    st: StateModel,
    fuel: nat,
    i: int,
    j: int,
)
    requires
        0 <= i <= j <= es.len(),
    ensures
        exports_outcome(stack, es.take(j), st, fuel) is Some ==> exports_outcome(stack, es.take(i), st, fuel) is Some,
        !(exports_outcome(stack, es.take(i), st, fuel) matches Some((Ok(_), _)))
            ==> exports_outcome(stack, es.take(j), st, fuel) == exports_outcome(stack, es.take(i), st, fuel),
    decreases j - i,
{
    if i < j {
        lemma_exports_prefix(stack, es, st, fuel, i, j - 1);
        assert(es.take(j).drop_last() =~= es.take(j - 1));
    }
}

/// The functions that a component exports, in order; other exports are skipped with a
/// warning.
fn analyse_component_funcs<'a>(
    stack: &Vec<ComponentStackItem<'a>>,
    exports: &Vec<&ComponentExport>,
    state: &mut AnalysisState,
    Ghost(fuel): Ghost<nat>,
) -> (r: AnalysisResult<Vec<AnalysedFunction>>)
    requires
        stack@.len() > 0,
        component_funcs_outcome(frames(stack@), deref_exports(exports@), old(state).model(), fuel) is Some,
    ensures
        outcome_is(
            r,
            final(state).model(),
            component_funcs_outcome(frames(stack@), deref_exports(exports@), old(state).model(), fuel),
            |v: Vec<AnalysedFunction>| functions_model(v@),
        ),
{
    let ghost fr = frames(stack@);
    let ghost st0 = old(state).model();
    let ghost es = deref_exports(exports@);
    let mut out: Vec<AnalysedFunction> = Vec::new();
    let mut i: usize = 0;
    proof {
        assert(es.take(0) =~= Seq::<ComponentExport>::empty());
        assert(functions_model(out@) =~= Seq::<crate::analysed::FunctionModel>::empty());
    }
    while i < exports.len()
        invariant
            stack@.len() > 0,
            fr == frames(stack@),
            st0 == old(state).model(),
            es == deref_exports(exports@),
            i <= exports@.len(),
            component_funcs_outcome(fr, es, st0, fuel) is Some,
            component_funcs_outcome(fr, es.take(i as int), st0, fuel) == Some(
                (Ok::<Seq<crate::analysed::FunctionModel>, Seq<char>>(functions_model(out@)), state.model()),
            ),
        decreases exports@.len() - i,
    {
        proof {
            lemma_component_funcs_prefix(fr, es, st0, fuel, i + 1, es.len() as int);
            assert(es.take(es.len() as int) =~= es);
            assert(es.take(i + 1).drop_last() =~= es.take(i as int));
            assert(es.take(i + 1).last() == *exports@[i as int]);
        }
        let export = exports[i];
        if same_kind(export.kind, ComponentExternalKind::Func) {
            match analyse_func_export(stack, export.name.clone(), export.idx, state, Ghost(fuel)) {
                Err(e) => {
                    proof {
                        assert(component_funcs_outcome(fr, es.take(i + 1), st0, fuel) == Some(
                            (Err::<Seq<crate::analysed::FunctionModel>, Seq<char>>(e.message()), state.model()),
                        ));
                    }
                    return Err(e);
                },
                Ok(func) => {
                    let ghost prev = out@;
                    let ghost fm = func.model();
                    out.push(func);
                    proof {
                        assert(functions_model(out@) =~= functions_model(prev).push(fm));
                    }
                },
            }
        } else {
            let ghost s_before = state.model();
            state.warnings.push(AnalysisWarning::UnsupportedExport { kind: export.kind, name: export.name.clone() });
            proof {
                assert(state.model() =~= with_warning(s_before, export.kind, export.name));
            }
        }
        i = i + 1;
    }
    proof {
        assert(es.take(es.len() as int) =~= es);
    }
    Ok(out)
}

/// The exported instance `name`, item `idx` of the instance space.
pub fn analyse_instance_export<'a>(
    stack: &Vec<ComponentStackItem<'a>>,
    name: String,
    idx: u32,
    state: &mut AnalysisState,
    Ghost(fuel): Ghost<nat>,
) -> (r: AnalysisResult<AnalysedInstance>)
    requires
        stack@.len() > 0,
        instance_export_outcome(frames(stack@), name, idx, old(state).model(), fuel) is Some,
    ensures
        outcome_is(
            r,
            final(state).model(),
            instance_export_outcome(frames(stack@), name, idx, old(state).model(), fuel),
            |i: AnalysedInstance| i.model(),
        ),
{
    let ghost f = (fuel - 1) as nat;
    match get_final_referenced(stack, ComponentExternalKind::Instance, idx, "instance ", Ghost(f)) {
        Err(e) => Err(e),
        Ok((instance_section, next_ctx)) => match instance_section {
            ComponentSection::Instance(ComponentInstance::Instantiate { component_idx }) => {
                match get_final_referenced(
                    &next_ctx,
                    ComponentExternalKind::Component,
                    *component_idx,
                    "component ",
                    Ghost(f),
                ) {
                    Err(e) => Err(e),
                    Ok((component_section, next_ctx2)) => match component_section {
                        ComponentSection::Component(referenced_component) => {
                            let inner = push_component(&next_ctx2, referenced_component, *component_idx);
                            let exports = referenced_component.exports();
                            match analyse_component_funcs(&inner, &exports, state, Ghost(f)) {
                                Err(e) => Err(e),
                                Ok(funcs) => Ok(AnalysedInstance { name, funcs }),
                            }
                        },
                        _ => Err(
                            AnalysisFailure::Failed(
                                concat3("Expected component, but got ", component_section.kind_name(), " instead"),
                            ),
                        ),
                    },
                }
            },
            ComponentSection::Instance(ComponentInstance::FromExports { .. }) => Err(
                AnalysisFailure::failed("Instance defined directly from exports are not supported"),
            ),
            _ => Err(
                AnalysisFailure::Failed(
                    concat3("Expected instance, but got ", instance_section.kind_name(), " instead"),
                ),
            ),
        },
    }
}

/// The exports of the top component, in order: functions and instances are analysed,
/// other exports are skipped with a warning.
pub fn analyse_exports<'a>(
    stack: &Vec<ComponentStackItem<'a>>,
    exports: &Vec<&ComponentExport>,
    state: &mut AnalysisState,
    Ghost(fuel): Ghost<nat>,
) -> (r: AnalysisResult<Vec<AnalysedExport>>)
    requires
        stack@.len() > 0,
        exports_outcome(frames(stack@), deref_exports(exports@), old(state).model(), fuel) is Some,
    ensures
        outcome_is(
            r,
            final(state).model(),
            exports_outcome(frames(stack@), deref_exports(exports@), old(state).model(), fuel),
            |v: Vec<AnalysedExport>| exports_model(v@),
        ),
{
    let ghost fr = frames(stack@);
    let ghost st0 = old(state).model();
    let ghost es = deref_exports(exports@);
    let mut out: Vec<AnalysedExport> = Vec::new();
    let mut i: usize = 0;
    proof {
        assert(es.take(0) =~= Seq::<ComponentExport>::empty());
        assert(exports_model(out@) =~= Seq::<crate::analysed::ExportModel>::empty());
    }
    while i < exports.len()
        invariant
            stack@.len() > 0,
            fr == frames(stack@),
            st0 == old(state).model(),
            es == deref_exports(exports@),
            i <= exports@.len(),
            exports_outcome(fr, es, st0, fuel) is Some,
            exports_outcome(fr, es.take(i as int), st0, fuel) == Some(
                (Ok::<Seq<crate::analysed::ExportModel>, Seq<char>>(exports_model(out@)), state.model()),
            ),
        decreases exports@.len() - i,
    {
        proof {
            lemma_exports_prefix(fr, es, st0, fuel, i + 1, es.len() as int);
            assert(es.take(es.len() as int) =~= es);
            assert(es.take(i + 1).drop_last() =~= es.take(i as int));
            assert(es.take(i + 1).last() == *exports@[i as int]);
        }
        let export = exports[i];
        if same_kind(export.kind, ComponentExternalKind::Func) {
            match analyse_func_export(stack, export.name.clone(), export.idx, state, Ghost(fuel)) {
                Err(e) => {
                    proof {
                        assert(exports_outcome(fr, es.take(i + 1), st0, fuel) == Some(
                            (Err::<Seq<crate::analysed::ExportModel>, Seq<char>>(e.message()), state.model()),
                        ));
                    }
                    return Err(e);
                },
                Ok(func) => {
                    let ghost prev = out@;
                    let ghost fm = func.model();
                    out.push(AnalysedExport::Function(func));
                    proof {
                        assert(exports_model(out@) =~= exports_model(prev).push(crate::analysed::ExportModel::Function(fm)));
                    }
                },
            }
        } else if same_kind(export.kind, ComponentExternalKind::Instance) {
            match analyse_instance_export(stack, export.name.clone(), export.idx, state, Ghost(fuel)) {
                Err(e) => {
                    proof {
                        assert(exports_outcome(fr, es.take(i + 1), st0, fuel) == Some(
                            (Err::<Seq<crate::analysed::ExportModel>, Seq<char>>(e.message()), state.model()),
                        ));
                    }
                    return Err(e);
                },
                Ok(instance) => {
                    let ghost prev = out@;
                    let ghost im = instance.model();
                    out.push(AnalysedExport::Instance(instance));
                    proof {
                        assert(exports_model(out@) =~= exports_model(prev).push(crate::analysed::ExportModel::Instance(im)));
                    }
                },
            }
        } else {
            let ghost s_before = state.model();
            state.warnings.push(AnalysisWarning::UnsupportedExport { kind: export.kind, name: export.name.clone() });
            proof {
                assert(state.model() =~= with_warning(s_before, export.kind, export.name));
            }
        }
        i = i + 1;
    }
    proof {
        assert(es.take(es.len() as int) =~= es);
    }
    Ok(out)
}

} // verus!
