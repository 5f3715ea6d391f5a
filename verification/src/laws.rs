//! Properties of the library that span several functions or calls.
use vstd::prelude::*;

use crate::analysed::{
    AnalysedFunction, AnalysedFunctionResults, AnalysedResourceMode, AnalysedType, ExportModel, TypeModel,
    primitive_type,
};
use crate::component::{
    ComponentDefinedType, ComponentExport, ComponentExternalKind, ComponentImport, ComponentSection, ComponentValType,
    ComponentTypeRef, TypeBounds, VariantCase, AliasTarget, Component, ComponentInstance, exports_of, nth_in_space, Alias, Canon, OuterAliasKind,
};
use crate::context::{boxed, cases_outcome, defined_outcome, named_outcome, val_types_outcome, opt_val_type_outcome, type_idx_outcome, val_type_outcome};
use crate::failure::missing_message;
use crate::component::PrimitiveValueType;
use crate::context::{
    StateModel, component_funcs_outcome, exports_outcome, func_export_outcome, instance_export_outcome, position_of,
    resource_id_step, stack_path,
};
use crate::resolve::{FrameModel, first_export_named, underflow_message, kind_label, resolve_final, resolve_follow, resolve_follow_export, top_sections};
use crate::text::{decimal, digit_char};

verus! {

/// A function is at most one of a constructor, a method and a static method: the three
/// name prefixes exclude each other.
pub proof fn law_function_kinds_exclusive(f: AnalysedFunction)
    ensures
        !(f.spec_is_constructor() && f.spec_is_method()),
        !(f.spec_is_constructor() && f.spec_is_static_method()),
        !(f.spec_is_method() && f.spec_is_static_method()),
{
    reveal_strlit("[constructor]");
    reveal_strlit("[method]");
    reveal_strlit("[static]");
    let n = f.name@;
    if f.spec_is_constructor() {
        assert(n.subrange(0, 13)[1] == 'c');
        assert(n[1] == 'c');
    }
    if f.spec_is_method() {
        assert(n.subrange(0, 8)[1] == 'm');
        assert(n[1] == 'm');
    }
    if f.spec_is_static_method() {
        assert(n.subrange(0, 8)[1] == 's');
        assert(n[1] == 's');
    }
}

/// Named results have one name per type; other results have no names.
pub proof fn law_result_names_match_types(r: AnalysedFunctionResults)
    ensures
        r is Named ==> r.result_names().len() == r.result_types().len(),
        !(r is Named) ==> r.result_names().len() == 0,
        r is Unnamed ==> r.result_types().len() == 1,
        r is Unit ==> r.result_types().len() == 0,
{
}

/// Distinct primitive value types stand for distinct types, and each is a primitive type:
/// neither a compound type nor a resource handle.
pub proof fn law_primitive_types_distinct(p: PrimitiveValueType, q: PrimitiveValueType)
    ensures
        primitive_type(p) == primitive_type(q) ==> p == q,
        !(primitive_type(p) is Resource),
        !(primitive_type(p) is Record || primitive_type(p) is Tuple || primitive_type(p) is List
            || primitive_type(p) is Variant || primitive_type(p) is Option || primitive_type(p) is Result
            || primitive_type(p) is Flags || primitive_type(p) is Enum),
{
}

/// Where `position_of` finds a key, the key is; where it finds none, the key is not there.
pub proof fn lemma_position_of(ids: Seq<(Seq<u32>, u32)>, key: (Seq<u32>, u32))
    ensures
        position_of(ids, key) matches Some(p) ==> p < ids.len() && ids[p as int] == key,
        position_of(ids, key) is None ==> !ids.contains(key),
        ids.no_duplicates() ==> forall|p: int|
            0 <= p < ids.len() && ids[p] == key ==> position_of(ids, key) == Some(p as nat),
    decreases ids.len(),
{
    if ids.len() > 0 {
        let init = ids.drop_last();
        lemma_position_of(init, key);
        if position_of(ids, key) is None {
            assert forall|q: int| 0 <= q < ids.len() implies ids[q] != key by {
                if q < ids.len() - 1 {
                    assert(init[q] == ids[q]);
                }
            }
        }
        if ids.no_duplicates() {
            assert(init.no_duplicates());
            assert forall|p: int| 0 <= p < ids.len() && ids[p] == key implies position_of(ids, key) == Some(
                p as nat,
            ) by {
                if p < ids.len() - 1 {
                    assert(init[p] == ids[p]);
                    assert(ids.last() != key);
                } else {
                    if let Some(q) = position_of(init, key) {
                        assert(init[q as int] == ids[q as int]);
                        assert(false);
                    }
                }
            }
        }
    }
}

/// Asking again for the identifier of a resource type gives the same identifier and
/// changes nothing; a new resource type is added at the end, and the identifier is its
/// position.
pub proof fn law_resource_id_stable(stack: Seq<FrameModel>, type_idx: u32, st: StateModel)
    requires
        st.ids.len() < u64::MAX,
    ensures
        ({
            let (id, st2) = resource_id_step(stack, type_idx, st);
            &&& resource_id_step(stack, type_idx, st2) == (id, st2)
            &&& st2.warnings == st.warnings
            &&& st.ids.is_prefix_of(st2.ids)
            &&& id.value as int == position_of(st2.ids, (stack_path(stack), type_idx)).unwrap()
            &&& st2.ids[id.value as int] == (stack_path(stack), type_idx)
        }),
{
    let key = (stack_path(stack), type_idx);
    let (id, st2) = resource_id_step(stack, type_idx, st);
    lemma_position_of(st.ids, key);
    match position_of(st.ids, key) {
        Some(p) => {
            assert(st.ids.is_prefix_of(st2.ids));
        },
        None => {
            let ids2 = st.ids.push(key);
            assert(ids2.drop_last() =~= st.ids);
            assert(position_of(ids2, key) == Some(st.ids.len()));
            assert(st.ids.is_prefix_of(ids2)) by {
                assert(ids2.subrange(0, st.ids.len() as int) =~= st.ids);
            }
        },
    }
}

/// Distinct resource types get distinct identifiers, and the same resource type gets the
/// same identifier, as long as no resource type was recorded twice, which every step keeps
/// true.
pub proof fn law_resource_ids_distinct(
    s1: Seq<FrameModel>,
    i1: u32,
    s2: Seq<FrameModel>,
    i2: u32,
    st: StateModel,
)
    requires
        st.ids.no_duplicates(),
        st.ids.len() + 2 < u64::MAX,
    ensures
        ({
            let (a, st1) = resource_id_step(s1, i1, st);
            let (b, st2) = resource_id_step(s2, i2, st1);
            &&& st1.ids.no_duplicates()
            &&& st2.ids.no_duplicates()
            &&& ((stack_path(s1), i1) == (stack_path(s2), i2) <==> a == b)
        }),
{
    let k1 = (stack_path(s1), i1);
    let k2 = (stack_path(s2), i2);
    let (a, st1) = resource_id_step(s1, i1, st);
    let (b, st2) = resource_id_step(s2, i2, st1);
    lemma_position_of(st.ids, k1);
    law_resource_id_stable(s1, i1, st);
    assert(st1.ids.no_duplicates()) by {
        if position_of(st.ids, k1) is None {
            assert forall|x: int, y: int| 0 <= x < st1.ids.len() && 0 <= y < st1.ids.len() && x != y implies st1.ids[x]
                != st1.ids[y] by {
                if x < st.ids.len() && y < st.ids.len() {
                } else if x == st.ids.len() {
                    assert(st.ids[y] == st1.ids[y]);
                    assert(st.ids.contains(st1.ids[y]));
                } else {
                    assert(st.ids[x] == st1.ids[x]);
                    assert(st.ids.contains(st1.ids[x]));
                }
            }
        }
    }
    lemma_position_of(st1.ids, k2);
    law_resource_id_stable(s2, i2, st1);
    assert(st2.ids.no_duplicates()) by {
        if position_of(st1.ids, k2) is None {
            assert forall|x: int, y: int| 0 <= x < st2.ids.len() && 0 <= y < st2.ids.len() && x != y implies st2.ids[x]
                != st2.ids[y] by {
                if x < st1.ids.len() && y < st1.ids.len() {
                } else if x == st1.ids.len() {
                    assert(st1.ids[y] == st2.ids[y]);
                    assert(st1.ids.contains(st2.ids[y]));
                } else {
                    assert(st1.ids[x] == st2.ids[x]);
                    assert(st1.ids.contains(st2.ids[x]));
                }
            }
        }
    }
    lemma_position_of(st2.ids, k1);
    lemma_position_of(st2.ids, k2);
    // a is the position of k1 in st1.ids, which st2.ids extends
    assert(st1.ids.is_prefix_of(st2.ids));
    assert(st2.ids[a.value as int] == st1.ids[a.value as int]);
}

/// A handle type is analysed as the type it names, reached with the handle's mode; when
/// that type is a sub-resource import, the result is a resource handle with that mode and
/// the identifier of that resource type. (With too little fuel both sides are `None`.)
pub proof fn law_handles_carry_their_mode(
    stack: Seq<FrameModel>,
    type_idx: u32,
    st: StateModel,
    fuel: nat,
    m: AnalysedResourceMode,
    next: Seq<FrameModel>,
    name: String,
)
    ensures
        defined_outcome(stack, ComponentDefinedType::Owned { type_idx }, st, fuel + 1)
            == type_idx_outcome(stack, type_idx, Some(AnalysedResourceMode::Owned), st, fuel),
        defined_outcome(stack, ComponentDefinedType::Borrowed { type_idx }, st, fuel + 1)
            == type_idx_outcome(stack, type_idx, Some(AnalysedResourceMode::Borrowed), st, fuel),
        resolve_final(stack, ComponentExternalKind::Type, type_idx, "component type "@, fuel) == Some(
                Ok::<(ComponentSection, Seq<FrameModel>), Seq<char>>(
                    (
                        ComponentSection::Import(
                            ComponentImport { name, desc: ComponentTypeRef::Type(TypeBounds::SubResource) },
                        ),
                        next,
                    ),
                ),
            ) ==> type_idx_outcome(stack, type_idx, Some(m), st, fuel + 1) == Some(
                (
                    Ok::<TypeModel, Seq<char>>(
                        TypeModel::Resource { id: resource_id_step(next, type_idx, st).0, resource_mode: m },
                    ),
                    resource_id_step(next, type_idx, st).1,
                ),
            ),
{
}

/// An export is followed to the item it exports: the item of its kind at its index in the
/// component on top of the stack, or a failure naming the missing item. (With too little
/// fuel both sides are `None`.)
pub proof fn law_exports_are_followed(stack: Seq<FrameModel>, e: ComponentExport, fuel: nat)
    ensures
        resolve_follow(stack, ComponentSection::Export(e), fuel + 2) == match nth_in_space(
            top_sections(stack),
            e.kind,
            e.idx as nat,
        ) {
            Some(x) => resolve_follow(stack, x, fuel),
            None => Some(Err(missing_message(kind_label(e.kind) + " "@ + decimal(e.idx as nat)))),
        },
{
    assert(resolve_follow(stack, ComponentSection::Export(e), fuel + 2) == resolve_follow_export(
        stack,
        e.kind,
        e.idx,
        fuel + 1,
    ));
}

/// Whether `s` begins with the characters of `p`, compared position by position.
pub open spec fn begins_with(s: Seq<char>, p: Seq<char>) -> bool {
    p.len() <= s.len() && forall|i: int| 0 <= i < p.len() ==> s[i] == p[i]
}

/// Whether `t` is a resource handle with mode `m`.
pub open spec fn handle_with_mode(t: AnalysedType, m: AnalysedResourceMode) -> bool {
    match t {
        AnalysedType::Resource { resource_mode, .. } => resource_mode == m,
        _ => false,
    }
}

/// A function is a method exactly when its name begins with `[method]` and its first
/// parameter is a borrowed handle, whatever parameters follow; a static method exactly
/// when its name begins with `[static]`; a constructor exactly when its name begins with
/// `[constructor]` and it returns one owned handle, named or not.
pub proof fn law_function_kinds(f: AnalysedFunction)
    ensures
        f.spec_is_method() <==> (begins_with(f.name@, "[method]"@) && f.params@.len() >= 1 && handle_with_mode(
            f.params@[0].typ,
            AnalysedResourceMode::Borrowed,
        )),
        f.spec_is_static_method() <==> begins_with(f.name@, "[static]"@),
        f.spec_is_constructor() <==> (begins_with(f.name@, "[constructor]"@) && match f.results {
            AnalysedFunctionResults::Unit => false,
            AnalysedFunctionResults::Unnamed(t) => handle_with_mode(t, AnalysedResourceMode::Owned),
            AnalysedFunctionResults::Named(rs) => rs@.len() == 1 && handle_with_mode(
                rs@[0].typ,
                AnalysedResourceMode::Owned,
            ),
        }),
{
    let n = f.name@;
    assert forall|p: Seq<char>| crate::text::has_prefix(n, p) <==> #[trigger] begins_with(n, p) by {
        if begins_with(n, p) {
            assert(n.subrange(0, p.len() as int) =~= p);
        }
        if crate::text::has_prefix(n, p) {
            assert forall|i: int| 0 <= i < p.len() implies n[i] == p[i] by {
                assert(n.subrange(0, p.len() as int)[i] == n[i]);
            }
        }
    }
}

/// The key under which a resource type is recorded holds the component indices of the
/// instantiated components it was read in, from the bottom of the stack up: a frame of an
/// instantiated component adds its index, the top-level frame adds nothing.
pub proof fn law_stack_path(s: Seq<FrameModel>, f: FrameModel)
    ensures
        stack_path(Seq::<FrameModel>::empty()) == Seq::<u32>::empty(),
        f.component_idx matches Some(i) ==> stack_path(s.push(f)) == stack_path(s).push(i),
        f.component_idx is None ==> stack_path(s.push(f)) == stack_path(s),
        stack_path(s).len() <= s.len(),
{
    assert(s.push(f).drop_last() =~= s);
    lemma_stack_path_len(s);
}

proof fn lemma_stack_path_len(s: Seq<FrameModel>)
    ensures
        stack_path(s).len() <= s.len(),
    decreases s.len(),
{
    if s.len() > 0 {
        lemma_stack_path_len(s.drop_last());
    }
}

/// Resource types read in two different instantiated components on the same stack get
/// different identifiers, whatever their type indices.
pub proof fn law_instances_have_own_resources(
    s: Seq<FrameModel>,
    c1: crate::component::Component,
    i1: u32,
    t1: u32,
    c2: crate::component::Component,
    i2: u32,
    t2: u32,
    st: StateModel,
)
    requires
        i1 != i2,
        st.ids.no_duplicates(),
        st.ids.len() + 2 < u64::MAX,
    ensures
        ({
            let a_stack = s.push(FrameModel { component: c1, component_idx: Some(i1) });
            let b_stack = s.push(FrameModel { component: c2, component_idx: Some(i2) });
            let (a, st1) = resource_id_step(a_stack, t1, st);
            let (b, st2) = resource_id_step(b_stack, t2, st1);
            a != b
        }),
{
    let a_stack = s.push(FrameModel { component: c1, component_idx: Some(i1) });
    let b_stack = s.push(FrameModel { component: c2, component_idx: Some(i2) });
    law_stack_path(s, FrameModel { component: c1, component_idx: Some(i1) });
    law_stack_path(s, FrameModel { component: c2, component_idx: Some(i2) });
    law_resource_ids_distinct(a_stack, t1, b_stack, t2, st);
    assert(stack_path(a_stack).last() == i1);
    assert(stack_path(b_stack).last() == i2);
}

/// Putting section `x` in front of `sections` leaves every index space as it was: `x`
/// defines no component item.
pub open spec fn adds_no_item(x: ComponentSection, sections: Seq<ComponentSection>, k: ComponentExternalKind, n: nat) -> bool {
    nth_in_space(seq![x] + sections, k, n) == nth_in_space(sections, k, n)
}

/// Putting section `x` in front of `sections` makes it the first item of index space
/// `space` and moves the other items of that space one place on; the other spaces stay as
/// they were.
pub open spec fn adds_item(
    x: ComponentSection,
    space: ComponentExternalKind,
    sections: Seq<ComponentSection>,
    k: ComponentExternalKind,
    n: nat,
) -> bool {
    if k != space {
        adds_no_item(x, sections, k, n)
    } else if n == 0 {
        nth_in_space(seq![x] + sections, k, n) == Some(x)
    } else {
        nth_in_space(seq![x] + sections, k, n) == nth_in_space(sections, k, (n - 1) as nat)
    }
}

/// Which index space each section adds an item to. Core modules, component definitions,
/// component instances, types and lifted functions each add one to their own space;
/// imports, exports and instance-export aliases add one to the space of their kind; outer
/// aliases to that of the module, type or component they reach. Core instances, core
/// types, start functions, the other canonical functions and core-instance aliases add
/// none: the component instance space counts component instances only.
pub proof fn law_index_spaces(x: ComponentSection, sections: Seq<ComponentSection>, k: ComponentExternalKind, n: nat)
    ensures
        nth_in_space(Seq::<ComponentSection>::empty(), k, n) is None,
        x is CoreInstance ==> adds_no_item(x, sections, k, n),
        x is CoreType ==> adds_no_item(x, sections, k, n),
        x is Start ==> adds_no_item(x, sections, k, n),
        x matches ComponentSection::Canon(c) && !(c is Lift) ==> adds_no_item(x, sections, k, n),
        x matches ComponentSection::Alias(Alias::CoreInstanceExport { .. }) ==> adds_no_item(x, sections, k, n),
        x matches ComponentSection::Alias(Alias::Outer { kind: OuterAliasKind::CoreType, .. }) ==> adds_no_item(
            x,
            sections,
            k,
            n,
        ),
        x is Module ==> adds_item(x, ComponentExternalKind::Module, sections, k, n),
        x is Component ==> adds_item(x, ComponentExternalKind::Component, sections, k, n),
        x is Instance ==> adds_item(x, ComponentExternalKind::Instance, sections, k, n),
        x is Type ==> adds_item(x, ComponentExternalKind::Type, sections, k, n),
        x matches ComponentSection::Canon(Canon::Lift { .. }) ==> adds_item(x, ComponentExternalKind::Func, sections, k, n),
        x matches ComponentSection::Export(e) ==> adds_item(x, e.kind, sections, k, n),
        x matches ComponentSection::Alias(Alias::InstanceExport { kind, .. }) ==> adds_item(x, kind, sections, k, n),
        x matches ComponentSection::Alias(Alias::Outer { kind: OuterAliasKind::CoreModule, .. }) ==> adds_item(
            x,
            ComponentExternalKind::Module,
            sections,
            k,
            n,
        ),
        x matches ComponentSection::Alias(Alias::Outer { kind: OuterAliasKind::Type, .. }) ==> adds_item(
            x,
            ComponentExternalKind::Type,
            sections,
            k,
            n,
        ),
        x matches ComponentSection::Alias(Alias::Outer { kind: OuterAliasKind::Component, .. }) ==> adds_item(
            x,
            ComponentExternalKind::Component,
            sections,
            k,
            n,
        ),
        x matches ComponentSection::Import(ComponentImport { desc: ComponentTypeRef::Module(_), .. }) ==> adds_item(
            x,
            ComponentExternalKind::Module,
            sections,
            k,
            n,
        ),
        x matches ComponentSection::Import(ComponentImport { desc: ComponentTypeRef::Func(_), .. }) ==> adds_item(
            x,
            ComponentExternalKind::Func,
            sections,
            k,
            n,
        ),
        x matches ComponentSection::Import(ComponentImport { desc: ComponentTypeRef::Value(_), .. }) ==> adds_item(
            x,
            ComponentExternalKind::Value,
            sections,
            k,
            n,
        ),
        x matches ComponentSection::Import(ComponentImport { desc: ComponentTypeRef::Type(_), .. }) ==> adds_item(
            x,
            ComponentExternalKind::Type,
            sections,
            k,
            n,
        ),
        x matches ComponentSection::Import(ComponentImport { desc: ComponentTypeRef::Instance(_), .. }) ==> adds_item(
            x,
            ComponentExternalKind::Instance,
            sections,
            k,
            n,
        ),
        x matches ComponentSection::Import(ComponentImport { desc: ComponentTypeRef::Component(_), .. }) ==> adds_item(
            x,
            ComponentExternalKind::Component,
            sections,
            k,
            n,
        ),
{
    let all = seq![x] + sections;
    assert(all[0] == x);
    assert(all.drop_first() =~= sections);
}

/// A result type is analysed part by part: its ok type first, then its error type, each on
/// its own. An absent part stays absent and a present part becomes the analysis of its
/// value type, whether or not the other part is there.
pub proof fn law_result_parts(
    stack: Seq<FrameModel>,
    a: ComponentValType,
    b: ComponentValType,
    ok: Option<ComponentValType>,
    err: Option<ComponentValType>,
    st: StateModel,
    fuel: nat,
)
    ensures
        defined_outcome(stack, ComponentDefinedType::Result { ok: None, err: None }, st, fuel + 1) == Some(
            (Ok::<TypeModel, Seq<char>>(TypeModel::Result { ok: None, error: None }), st),
        ),
        val_type_outcome(stack, b, st, fuel) matches Some((Ok(e), s2)) ==> defined_outcome(
            stack,
            ComponentDefinedType::Result { ok: None, err: Some(b) },
            st,
            fuel + 1,
        ) == Some((Ok::<TypeModel, Seq<char>>(TypeModel::Result { ok: None, error: Some(Box::new(e)) }), s2)),
        val_type_outcome(stack, a, st, fuel) matches Some((Ok(o), s1)) ==> defined_outcome(
            stack,
            ComponentDefinedType::Result { ok: Some(a), err: None },
            st,
            fuel + 1,
        ) == Some((Ok::<TypeModel, Seq<char>>(TypeModel::Result { ok: Some(Box::new(o)), error: None }), s1)),
        val_type_outcome(stack, a, st, fuel) matches Some((Ok(o), s1)) ==> (val_type_outcome(stack, b, s1, fuel) matches Some(
            (Ok(e), s2),
        ) ==> defined_outcome(stack, ComponentDefinedType::Result { ok: Some(a), err: Some(b) }, st, fuel + 1) == Some(
            (Ok::<TypeModel, Seq<char>>(TypeModel::Result { ok: Some(Box::new(o)), error: Some(Box::new(e)) }), s2),
        )),
        defined_outcome(stack, ComponentDefinedType::Result { ok, err }, st, fuel + 1) matches Some(
            (Ok(TypeModel::Result { ok: o, error: e }), _),
        ) ==> (o is None <==> ok is None) && (e is None <==> err is None),
{
    if let Some((Ok(o), s1)) = val_type_outcome(stack, a, st, fuel) {
        assert(opt_val_type_outcome(stack, Some(a), st, fuel) == Some((Ok::<Option<TypeModel>, Seq<char>>(Some(o)), s1)));
        if let Some((Ok(e), s2)) = val_type_outcome(stack, b, s1, fuel) {
            assert(opt_val_type_outcome(stack, Some(b), s1, fuel) == Some(
                (Ok::<Option<TypeModel>, Seq<char>>(Some(e)), s2),
            ));
            assert(boxed(Some(o)) == Some(Box::new(o)));
            assert(boxed(Some(e)) == Some(Box::new(e)));
            assert(defined_outcome(stack, ComponentDefinedType::Result { ok: Some(a), err: Some(b) }, st, fuel + 1)
                == Some(
                (
                    Ok::<TypeModel, Seq<char>>(TypeModel::Result { ok: Some(Box::new(o)), error: Some(Box::new(e)) }),
                    s2,
                ),
            ));
        }
    }
}

/// The function exports among `es`, in order.
pub open spec fn function_exports(es: Seq<ComponentExport>) -> Seq<ComponentExport> {
    es.filter(|e: ComponentExport| e.kind == ComponentExternalKind::Func)
}

/// The function and instance exports among `es`, in order.
pub open spec fn analysed_exports(es: Seq<ComponentExport>) -> Seq<ComponentExport> {
    es.filter(|e: ComponentExport| e.kind == ComponentExternalKind::Func || e.kind == ComponentExternalKind::Instance)
}

/// The name of an analysed export.
pub open spec fn export_model_name(m: ExportModel) -> String {
    match m {
        ExportModel::Function(f) => f.name,
        ExportModel::Instance(i) => i.name,
    }
}

/// An analysed function or instance export carries the name it was exported under.
pub proof fn law_exports_keep_their_names(
    stack: Seq<FrameModel>,
    name: String,
    idx: u32,
    st: StateModel,
    fuel: nat,
)
    ensures
        func_export_outcome(stack, name, idx, st, fuel) matches Some((Ok(f), _)) ==> f.name == name,
        instance_export_outcome(stack, name, idx, st, fuel) matches Some((Ok(i), _)) ==> i.name == name,
{
}

/// The functions of an analysed instance are one per function export of the instantiated
/// component, in the order of those exports and under their names, whatever other exports
/// stand among them.
pub proof fn law_instance_functions(stack: Seq<FrameModel>, es: Seq<ComponentExport>, st: StateModel, fuel: nat)
    ensures
        component_funcs_outcome(stack, es, st, fuel) matches Some((Ok(funcs), _)) ==> {
            &&& funcs.len() == function_exports(es).len()
            &&& forall|i: int| 0 <= i < funcs.len() ==> #[trigger] funcs[i].name == function_exports(es)[i].name
        },
    decreases es.len(),
{
    reveal(Seq::filter);
    if es.len() > 0 {
        law_instance_functions(stack, es.drop_last(), st, fuel);
        let e = es.last();
        if let Some((Ok(acc), s)) = component_funcs_outcome(stack, es.drop_last(), st, fuel) {
            law_exports_keep_their_names(stack, e.name, e.idx, s, fuel);
            if let Some((Ok(funcs), _)) = component_funcs_outcome(stack, es, st, fuel) {
                let fe = function_exports(es);
                let fe0 = function_exports(es.drop_last());
                if e.kind == ComponentExternalKind::Func {
                    assert(fe == fe0.push(e));
                    assert forall|i: int| 0 <= i < funcs.len() implies #[trigger] funcs[i].name == fe[i].name by {
                        if i < acc.len() {
                            assert(funcs[i] == acc[i]);
                        }
                    }
                } else {
                    assert(fe == fe0);
                }
            }
        }
    }
}

/// Whether `ms` holds, one for one and in order, an analysed export of the kind and under
/// the name of each export of `es`.
pub open spec fn one_per_export(ms: Seq<ExportModel>, es: Seq<ComponentExport>) -> bool {
    &&& ms.len() == es.len()
    &&& forall|i: int|
        0 <= i < ms.len() ==> export_model_name(#[trigger] ms[i]) == es[i].name && (ms[i] is Function
            <==> es[i].kind == ComponentExternalKind::Func)
}

/// The top-level analysis gives one export per function or instance export of the
/// component, in order, each of the kind and under the name of the export it comes from;
/// other exports give none.
pub proof fn law_top_level_exports(stack: Seq<FrameModel>, es: Seq<ComponentExport>, st: StateModel, fuel: nat)
    ensures
        exports_outcome(stack, es, st, fuel) matches Some((Ok(ms), _)) ==> one_per_export(ms, analysed_exports(es)),
    decreases es.len(),
{
    reveal(Seq::filter);
    if es.len() > 0 {
        law_top_level_exports(stack, es.drop_last(), st, fuel);
        let e = es.last();
        if let Some((Ok(acc), s)) = exports_outcome(stack, es.drop_last(), st, fuel) {
            law_exports_keep_their_names(stack, e.name, e.idx, s, fuel);
            if let Some((Ok(ms), _)) = exports_outcome(stack, es, st, fuel) {
                let fe = analysed_exports(es);
                let fe0 = analysed_exports(es.drop_last());
                if e.kind == ComponentExternalKind::Func || e.kind == ComponentExternalKind::Instance {
                    assert(fe == fe0.push(e));
                    assert(ms.len() == acc.len() + 1);
                    if e.kind == ComponentExternalKind::Func {
                        assert(ms.last() is Function);
                    } else {
                        assert(ms.last() is Instance);
                    }
                    assert(export_model_name(ms.last()) == e.name);
                    assert forall|i: int| 0 <= i < ms.len() implies export_model_name(#[trigger] ms[i]) == fe[i].name && (
                    ms[i] is Function <==> fe[i].kind == ComponentExternalKind::Func) by {
                        if i < acc.len() {
                            assert(ms[i] == acc[i]);
                            assert(fe[i] == fe0[i]);
                        } else {
                            assert(ms[i] == ms.last());
                            assert(fe[i] == e);
                        }
                    }
                    assert(one_per_export(ms, fe));
                } else {
                    assert(fe == fe0);
                    assert(ms == acc);
                }
            }
        }
    }
}

/// The exports of sections put one after the other are those of the first, then those of
/// the second.
pub proof fn lemma_exports_of_append(a: Seq<ComponentSection>, b: Seq<ComponentSection>)
    ensures
        exports_of(a + b) == exports_of(a) + exports_of(b),
    decreases b.len(),
{
    if b.len() == 0 {
        assert(a + b =~= a);
        assert(exports_of(a) + exports_of(b) =~= exports_of(a));
    } else {
        lemma_exports_of_append(a, b.drop_last());
        assert((a + b).drop_last() =~= a + b.drop_last());
        assert((a + b).last() == b.last());
        match b.last() {
            ComponentSection::Export(e) => {
                assert(exports_of(a) + exports_of(b) =~= (exports_of(a) + exports_of(b.drop_last())).push(e));
            },
            _ => {},
        }
    }
}

/// A component exports what its export sections export, in the order of those sections:
/// no other section adds an export.
pub proof fn law_exports_in_order(x: ComponentSection, sections: Seq<ComponentSection>)
    ensures
        exports_of(Seq::<ComponentSection>::empty()) == Seq::<ComponentExport>::empty(),
        x matches ComponentSection::Export(e) ==> exports_of(seq![x] + sections) == seq![e] + exports_of(sections),
        !(x is Export) ==> exports_of(seq![x] + sections) == exports_of(sections),
{
    lemma_exports_of_append(seq![x], sections);
    assert(seq![x].drop_last() =~= Seq::<ComponentSection>::empty());
    assert(seq![x].last() == x);
    assert(exports_of(seq![x].drop_last()) =~= Seq::<ComponentExport>::empty());
    if let ComponentSection::Export(e) = x {
        assert(exports_of(seq![x]) =~= seq![e]);
    } else {
        assert(exports_of(seq![x]) =~= Seq::<ComponentExport>::empty());
    }
}

/// Looking an export up by name finds the first export with that name, and finds none
/// only where no export has it.
pub proof fn law_first_export_named(es: Seq<ComponentExport>, name: Seq<char>)
    ensures
        first_export_named(es, name) matches Some(e) ==> exists|i: int|
            0 <= i < es.len() && es[i] == e && e.name@ == name && forall|j: int| 0 <= j < i ==> (#[trigger] es[j]).name@
                != name,
        first_export_named(es, name) is None ==> forall|j: int| 0 <= j < es.len() ==> (#[trigger] es[j]).name@ != name,
    decreases es.len(),
{
    if es.len() > 0 {
        let rest = es.drop_first();
        law_first_export_named(rest, name);
        if es[0].name@ != name {
            assert forall|j: int| 0 < j < es.len() implies es[j] == rest[j - 1] by {}
            if let Some(e) = first_export_named(es, name) {
                let i = choose|i: int|
                    0 <= i < rest.len() && rest[i] == e && e.name@ == name && forall|j: int|
                        0 <= j < i ==> (#[trigger] rest[j]).name@ != name;
                assert(es[i + 1] == e);
                assert forall|j: int| 0 <= j < i + 1 implies (#[trigger] es[j]).name@ != name by {
                    if j > 0 {
                        assert(es[j] == rest[j - 1]);
                    }
                }
            } else {
                assert forall|j: int| 0 <= j < es.len() implies (#[trigger] es[j]).name@ != name by {
                    if j > 0 {
                        assert(es[j] == rest[j - 1]);
                    }
                }
            }
        } else {
            assert(forall|j: int| 0 <= j < 0 ==> (#[trigger] es[j]).name@ != name);
        }
    }
}

/// Whether `m` is what value type `vt` analyses to in `stack`, from some state.
pub open spec fn analyses_to(stack: Seq<FrameModel>, vt: ComponentValType, m: TypeModel, fuel: nat) -> bool {
    exists|s: StateModel|
        #[trigger] val_type_outcome(stack, vt, s, fuel) is Some && val_type_outcome(stack, vt, s, fuel).unwrap().0 == Ok::<
            TypeModel,
            Seq<char>,
        >(m)
}

/// The types of a list of value types are one per value type, in order, each the analysis
/// of its own value type.
pub proof fn law_listed_types(stack: Seq<FrameModel>, ts: Seq<ComponentValType>, st: StateModel, fuel: nat)
    ensures
        val_types_outcome(stack, ts, st, fuel) matches Some((Ok(ms), _)) ==> {
            &&& ms.len() == ts.len()
            &&& forall|i: int| 0 <= i < ms.len() ==> #[trigger] analyses_to(stack, ts[i], ms[i], fuel)
        },
    decreases ts.len(),
{
    if ts.len() > 0 {
        law_listed_types(stack, ts.drop_last(), st, fuel);
        if let Some((Ok(acc), s)) = val_types_outcome(stack, ts.drop_last(), st, fuel) {
            if let Some((Ok(ms), s2)) = val_types_outcome(stack, ts, st, fuel) {
                let t = ms.last();
                assert(val_type_outcome(stack, ts.last(), s, fuel) == Some((Ok::<TypeModel, Seq<char>>(t), s2)));
                assert forall|i: int| 0 <= i < ms.len() implies #[trigger] analyses_to(stack, ts[i], ms[i], fuel) by {
                    if i < acc.len() {
                        assert(ms[i] == acc[i]);
                        assert(ts[i] == ts.drop_last()[i]);
                    } else {
                        assert(ts[i] == ts.last());
                    }
                }
            }
        }
    }
}

/// The fields of a record are one per named value type, in order, each under its own name
/// and with the analysis of its own value type.
pub proof fn law_named_types(stack: Seq<FrameModel>, fs: Seq<(String, ComponentValType)>, st: StateModel, fuel: nat)
    ensures
        named_outcome(stack, fs, st, fuel) matches Some((Ok(ns), _)) ==> {
            &&& ns.len() == fs.len()
            &&& forall|i: int|
                0 <= i < ns.len() ==> (#[trigger] ns[i]).0 == fs[i].0 && analyses_to(stack, fs[i].1, ns[i].1, fuel)
        },
    decreases fs.len(),
{
    if fs.len() > 0 {
        law_named_types(stack, fs.drop_last(), st, fuel);
        if let Some((Ok(acc), s)) = named_outcome(stack, fs.drop_last(), st, fuel) {
            if let Some((Ok(ns), s2)) = named_outcome(stack, fs, st, fuel) {
                let t = ns.last().1;
                assert(val_type_outcome(stack, fs.last().1, s, fuel) == Some((Ok::<TypeModel, Seq<char>>(t), s2)));
                assert forall|i: int| 0 <= i < ns.len() implies (#[trigger] ns[i]).0 == fs[i].0 && analyses_to(
                    stack,
                    fs[i].1,
                    ns[i].1,
                    fuel,
                ) by {
                    if i < acc.len() {
                        assert(ns[i] == acc[i]);
                        assert(fs[i] == fs.drop_last()[i]);
                    } else {
                        assert(fs[i] == fs.last());
                    }
                }
            }
        }
    }
}

/// The cases of a variant are one per case, in order, each under its own name; a case
/// without a type stays without one, and a case with a type gets the analysis of it.
pub proof fn law_variant_cases(stack: Seq<FrameModel>, cs: Seq<VariantCase>, st: StateModel, fuel: nat)
    ensures
        cases_outcome(stack, cs, st, fuel) matches Some((Ok(ns), _)) ==> {
            &&& ns.len() == cs.len()
            &&& forall|i: int|
                0 <= i < ns.len() ==> (#[trigger] ns[i]).0 == cs[i].name && (ns[i].1 is None <==> cs[i].typ is None)
                    && (cs[i].typ matches Some(vt) ==> analyses_to(stack, vt, ns[i].1.unwrap(), fuel))
        },
    decreases cs.len(),
{
    if cs.len() > 0 {
        law_variant_cases(stack, cs.drop_last(), st, fuel);
        if let Some((Ok(acc), s)) = cases_outcome(stack, cs.drop_last(), st, fuel) {
            if let Some((Ok(ns), s2)) = cases_outcome(stack, cs, st, fuel) {
                assert(opt_val_type_outcome(stack, cs.last().typ, s, fuel) == Some(
                    (Ok::<Option<TypeModel>, Seq<char>>(ns.last().1), s2),
                ));
                if let Some(vt) = cs.last().typ {
                    if let Some((Ok(t), _)) = val_type_outcome(stack, vt, s, fuel) {
                        assert(ns.last().1 == Some(t));
                    }
                    assert(val_type_outcome(stack, vt, s, fuel) is Some);
                    assert(analyses_to(stack, vt, ns.last().1.unwrap(), fuel));
                }
                assert forall|i: int| 0 <= i < ns.len() implies (#[trigger] ns[i]).0 == cs[i].name && (ns[i].1 is None
                    <==> cs[i].typ is None) && (cs[i].typ matches Some(vt) ==> analyses_to(
                    stack,
                    vt,
                    ns[i].1.unwrap(),
                    fuel,
                )) by {
                    if i < acc.len() {
                        assert(ns[i] == acc[i]);
                        assert(cs[i] == cs.drop_last()[i]);
                    } else {
                        assert(cs[i] == cs.last());
                    }
                }
            }
        }
    }
}

/// What each form of defined type analyses to: a primitive type to its own type; a record
/// to a record with the same field names, in order, each with the analysis of its value
/// type; a variant to a variant with the same case names; a list, an option or a tuple to
/// a list, an option or a tuple of the analysed element types; flags and enums to flags
/// and enums with the same names; a result to a result.
pub proof fn law_defined_types(stack: Seq<FrameModel>, dt: ComponentDefinedType, st: StateModel, fuel: nat)
    ensures
        defined_outcome(stack, dt, st, fuel + 1) matches Some((Ok(m), _)) ==> match dt {
            ComponentDefinedType::Primitive { typ } => m == primitive_type(typ).model(),
            ComponentDefinedType::Record { fields } => m matches TypeModel::Record(fs) && fs.len() == fields@.len()
                && forall|i: int|
                0 <= i < fs.len() ==> (#[trigger] fs[i]).0 == fields@[i].0 && analyses_to(
                    stack,
                    fields@[i].1,
                    fs[i].1,
                    fuel,
                ),
            ComponentDefinedType::Variant { cases } => m matches TypeModel::Variant(ns) && ns.len() == cases@.len()
                && forall|i: int|
                0 <= i < ns.len() ==> (#[trigger] ns[i]).0 == cases@[i].name && (ns[i].1 is None
                    <==> cases@[i].typ is None),
            ComponentDefinedType::List { elem } => m matches TypeModel::List(b) && analyses_to(stack, elem, *b, fuel),
            ComponentDefinedType::Tuple { elems } => m matches TypeModel::Tuple(ts) && ts.len() == elems@.len()
                && forall|i: int| 0 <= i < ts.len() ==> #[trigger] analyses_to(stack, elems@[i], ts[i], fuel),
            ComponentDefinedType::Flags { names } => m == TypeModel::Flags(names@),
            ComponentDefinedType::Enum { names } => m == TypeModel::Enum(names@),
            ComponentDefinedType::Option { typ } => m matches TypeModel::Option(b) && analyses_to(stack, typ, *b, fuel),
            ComponentDefinedType::Result { .. } => m is Result,
            ComponentDefinedType::Owned { .. } => true,
            ComponentDefinedType::Borrowed { .. } => true,
        },
{
    match dt {
        ComponentDefinedType::Record { fields } => law_named_types(stack, fields@, st, fuel),
        ComponentDefinedType::Variant { cases } => law_variant_cases(stack, cases@, st, fuel),
        ComponentDefinedType::Tuple { elems } => law_listed_types(stack, elems@, st, fuel),
        ComponentDefinedType::List { elem } => {
            if let Some((Ok(t), _)) = val_type_outcome(stack, elem, st, fuel) {
                assert(analyses_to(stack, elem, t, fuel));
            }
        },
        ComponentDefinedType::Option { typ } => {
            if let Some((Ok(t), _)) = val_type_outcome(stack, typ, st, fuel) {
                assert(analyses_to(stack, typ, t, fuel));
            }
        },
        _ => {},
    }
}

/// The number that a string of decimal digits spells.
pub open spec fn digits_value(s: Seq<char>) -> int
    decreases s.len(),
{
    if s.len() == 0 {
        0
    } else {
        digits_value(s.drop_last()) * 10 + ((s.last() as u32) - ('0' as u32))
    }
}

proof fn lemma_digit_value(d: nat)
    requires
        d < 10,
    ensures
        (digit_char(d) as u32) - ('0' as u32) == d,
        '0' <= digit_char(d) <= '9',
{
}

/// Numbers in messages are written in decimal: a non-empty string of digits that spells
/// the number, with no leading zero.
pub proof fn law_decimal(n: nat)
    ensures
        decimal(n).len() > 0,
        forall|i: int| 0 <= i < decimal(n).len() ==> '0' <= #[trigger] decimal(n)[i] <= '9',
        digits_value(decimal(n)) == n,
        decimal(n)[0] == '0' ==> n == 0,
    decreases n,
{
    lemma_digit_value(n % 10);
    if n < 10 {
        assert(decimal(n) =~= seq![digit_char(n)]);
        assert(decimal(n).drop_last() =~= Seq::<char>::empty());
        assert(digits_value(Seq::<char>::empty()) == 0);
        assert(n % 10 == n);
        assert(digits_value(decimal(n)) == digits_value(decimal(n).drop_last()) * 10 + ((decimal(n).last() as u32) - ('0' as u32)));
    } else {
        law_decimal(n / 10);
        let d = decimal(n);
        assert(d.drop_last() =~= decimal(n / 10));
        assert(d.last() == digit_char(n % 10));
        assert forall|i: int| 0 <= i < d.len() implies '0' <= #[trigger] d[i] <= '9' by {
            if i < d.len() - 1 {
                assert(d[i] == decimal(n / 10)[i]);
            }
        }
        assert(d[0] == decimal(n / 10)[0]);
        assert(n / 10 * 10 + n % 10 == n);
        assert(digits_value(d) == digits_value(d.drop_last()) * 10 + ((d.last() as u32) - ('0' as u32)));
    }
}

/// A section that is neither an export, an alias nor an import of a type equal to another
/// is its own definition, read in the stack it was found in.
pub proof fn law_definitions_are_final(stack: Seq<FrameModel>, x: ComponentSection, fuel: nat)
    requires
        !(x is Export),
        !(x is Alias),
        !(x matches ComponentSection::Import(ComponentImport { desc: ComponentTypeRef::Type(TypeBounds::Eq(_)), .. })),
    ensures
        resolve_follow(stack, x, fuel + 1) == Some(Ok::<(ComponentSection, Seq<FrameModel>), Seq<char>>((x, stack))),
{
}

/// An outer alias reaching `count` components out is read with the top `count` frames of
/// the stack taken off, in the component at the bottom of the stack: a type or component
/// alias gives the definition of that item there. Reaching past the last frame fails with a
/// stack underflow; core module and core type aliases fail.
pub proof fn law_outer_aliases(stack: Seq<FrameModel>, kind: OuterAliasKind, target: AliasTarget, fuel: nat)
    requires
        target.count <= stack.len(),
    ensures
        ({
            let x = ComponentSection::Alias(Alias::Outer { kind, target });
            let rest = stack.subrange(0, stack.len() - target.count);
            &&& target.count == stack.len() ==> resolve_follow(stack, x, fuel + 1) == Some(
                Err::<(ComponentSection, Seq<FrameModel>), Seq<char>>(underflow_message(target.count, stack.len())),
            )
            &&& target.count < stack.len() && kind == OuterAliasKind::Type ==> resolve_follow(stack, x, fuel + 1)
                == match nth_in_space(stack[0].component.sections@, ComponentExternalKind::Type, target.index as nat) {
                Some(t) => resolve_follow(rest, t, fuel),
                None => Some(Err(missing_message("type "@ + decimal(target.index as nat)))),
            }
            &&& target.count < stack.len() && kind == OuterAliasKind::Component ==> resolve_follow(stack, x, fuel + 1)
                == match nth_in_space(
                stack[0].component.sections@,
                ComponentExternalKind::Component,
                target.index as nat,
            ) {
                Some(c) => resolve_follow(rest, c, fuel),
                None => Some(Err(missing_message("component "@ + decimal(target.index as nat)))),
            }
            &&& target.count < stack.len() && (kind == OuterAliasKind::CoreModule || kind == OuterAliasKind::CoreType)
                ==> resolve_follow(stack, x, fuel + 1) matches Some(Err(_))
        }),
{
    let rest = stack.subrange(0, stack.len() - target.count);
    assert(stack.take(stack.len() - target.count) == rest);
    if target.count < stack.len() {
        assert(rest[0] == stack[0]);
    }
}

/// An alias of the export named `name` of an instance that instantiates component `c` is
/// followed to the first export of `c` with that name, read with `c` pushed on the stack
/// under its component index; where `c` has no such export, it fails naming the export and
/// the instance.
pub proof fn law_instance_export_aliases(
    stack: Seq<FrameModel>,
    kind: ComponentExternalKind,
    instance_idx: u32,
    name: String,
    component_idx: u32,
    next: Seq<FrameModel>,
    c: Component,
    next2: Seq<FrameModel>,
    fuel: nat,
)
    requires
        resolve_final(stack, ComponentExternalKind::Instance, instance_idx, "instance "@, fuel + 1) == Some(
            Ok::<(ComponentSection, Seq<FrameModel>), Seq<char>>(
                (ComponentSection::Instance(ComponentInstance::Instantiate { component_idx }), next),
            ),
        ),
        resolve_final(next, ComponentExternalKind::Component, component_idx, "component "@, fuel) == Some(
            Ok::<(ComponentSection, Seq<FrameModel>), Seq<char>>((ComponentSection::Component(c), next2)),
        ),
    ensures
        resolve_follow(stack, ComponentSection::Alias(Alias::InstanceExport { kind, instance_idx, name }), fuel + 2)
            == match first_export_named(exports_of(c.sections@), name@) {
            Some(e) => resolve_follow_export(
                next2.push(FrameModel { component: c, component_idx: Some(component_idx) }),
                e.kind,
                e.idx,
                fuel + 1,
            ),
            None => Some(
                Err(
                    missing_message(
                        "missing aliased instance export "@ + name@ + " from instance "@ + decimal(instance_idx as nat),
                    ),
                ),
            ),
        },
{
    let inner = next2.push(FrameModel { component: c, component_idx: Some(component_idx) });
    assert(crate::resolve::resolve_find_export(next, ComponentInstance::Instantiate { component_idx }, name@, fuel + 1)
        == Some(
        Ok::<(Option<ComponentExport>, Seq<FrameModel>), Seq<char>>(
            (first_export_named(exports_of(c.sections@), name@), inner),
        ),
    ));
}

} // verus!
