//! The analysis of a component's exports: each exported function with the types of its
//! parameters and results, and each exported instance with its functions.
//!
//! The analysis keeps a state across all the components it reads: the warnings about
//! exports it skipped, and the resource types it has met, each with its identifier. A
//! resource type is known by the path of component indices down the stack and its type
//! index there; identifiers are handed out in the order the resource types are first met.
//!
//! As in `resolve`, the specifications carry fuel, and `None` means no answer with that
//! much fuel.
use vstd::prelude::*;

use crate::analysed::{
    exports_model,
    AnalysedExport, AnalysedResourceId, AnalysedResourceMode, ExportModel,
    FunctionModel, InstanceModel, ResultsModel, TypeModel, primitive_type,
};
use crate::component::{
    Canon, Component, ComponentDefinedType, ComponentExport, ComponentExternalKind, ComponentFuncResult,
    ComponentFuncType, ComponentInstance, ComponentSection, ComponentType, ComponentTypeRef,
    ComponentValType, TypeBounds, VariantCase, exports_of, type_ref_debug,
};
use crate::failure::{AnalysisResult, AnalysisWarning, clone_warning};
use crate::resolve::{
    ComponentStackItem, FrameModel, Resolution, frames, resolve_final,
    top_sections, unexpected_message,
};

verus! {

/// The value of the analysis state: the warnings so far, and the resource types met so
/// far, each as its path and type index, in the order of their identifiers.
#[verifier::ext_equal]
pub struct StateModel {
    pub warnings: Seq<AnalysisWarning>,
    pub ids: Seq<(Seq<u32>, u32)>,
}

/// A resource type met by the analysis: the component indices down the stack where it
/// was read, and its type index there.
pub struct ResourceKey {
    pub path: Vec<u32>,
    pub type_idx: u32,
}

/// What the analysis keeps across the components it reads.
pub struct AnalysisState {
    pub warnings: Vec<AnalysisWarning>,
    pub resource_ids: Vec<ResourceKey>,
}

impl AnalysisState {
    pub open spec fn model(self) -> StateModel {
        StateModel {
            warnings: self.warnings@,
            ids: Seq::new(
                self.resource_ids@.len(),
                |i: int| (self.resource_ids@[i].path@, self.resource_ids@[i].type_idx),
            ),
        }
    }
}

/// The executable result `r`, with state `st` after it, is what outcome `o` says, the value
/// taken by `model`.
pub open spec fn outcome_is<T, M>(r: AnalysisResult<T>, st: StateModel, o: Outcome<M>, model: spec_fn(T) -> M) -> bool {
    match o {
        Some((Ok(v), s)) => r is Ok && model(r->Ok_0) == v && st == s,
        Some((Err(m), s)) => r is Err && r->Err_0.message() == m && st == s,
        None => false,
    }
}

/// What an analysis step gives with a given fuel: nothing, or its result (a value or the
/// message of a failure) with the state after it.
pub type Outcome<T> = Option<(Result<T, Seq<char>>, StateModel)>;

/// The component indices on the stack, from the bottom up.
pub open spec fn stack_path(stack: Seq<FrameModel>) -> Seq<u32>
    decreases stack.len(),
{
    if stack.len() == 0 {
        Seq::empty()
    } else {
        let p = stack_path(stack.drop_last());
        match stack.last().component_idx {
            Some(i) => p.push(i),
            None => p,
        }
    }
}

/// The first position of `key` in `ids`.
pub open spec fn position_of(ids: Seq<(Seq<u32>, u32)>, key: (Seq<u32>, u32)) -> Option<nat>
    decreases ids.len(),
{
    if ids.len() == 0 {
        None
    } else if ids.last() == key && position_of(ids.drop_last(), key) is None {
        Some((ids.len() - 1) as nat)
    } else {
        position_of(ids.drop_last(), key)
    }
}

/// The identifier of resource type `type_idx` read in `stack`, with the state after: the
/// identifier it already has, or the next one.
pub open spec fn resource_id_step(stack: Seq<FrameModel>, type_idx: u32, st: StateModel) -> (
    AnalysedResourceId,
    StateModel,
) {
    let key = (stack_path(stack), type_idx);
    match position_of(st.ids, key) {
        Some(p) => (AnalysedResourceId { value: p as u64 }, st),
        None => (
            AnalysedResourceId { value: st.ids.len() as u64 },
            StateModel { warnings: st.warnings, ids: st.ids.push(key) },
        ),
    }
}

/// The type that value type `vt` stands for in `stack`.
pub open spec fn val_type_outcome(
    stack: Seq<FrameModel>,
    vt: ComponentValType,
    st: StateModel,
    fuel: nat,
) -> Outcome<TypeModel>
    decreases fuel, 0nat,
{
    match vt {
        ComponentValType::Primitive(p) => Some((Ok(primitive_type(p).model()), st)),
        ComponentValType::Defined(idx) => if fuel == 0 {
            None
        } else {
            type_idx_outcome(stack, idx, None, st, (fuel - 1) as nat)
        },
    }
}

/// The type that an optional value type stands for.
pub open spec fn opt_val_type_outcome(
    stack: Seq<FrameModel>,
    vt: Option<ComponentValType>,
    st: StateModel,
    fuel: nat,
) -> Outcome<Option<TypeModel>>
    decreases fuel, 1nat,
{
    match vt {
        None => Some((Ok(None), st)),
        Some(t) => match val_type_outcome(stack, t, st, fuel) {
            None => None,
            Some((Err(m), s)) => Some((Err(m), s)),
            Some((Ok(t), s)) => Some((Ok(Some(t)), s)),
        },
    }
}

/// The type with index `idx` in `stack`. `mode` says whether the type is reached through
/// an owned or borrowed handle; only then can it be a resource.
pub open spec fn type_idx_outcome(
    stack: Seq<FrameModel>,
    idx: u32,
    mode: Option<AnalysedResourceMode>,
    st: StateModel,
    fuel: nat,
) -> Outcome<TypeModel>
    decreases fuel, 0nat,
{
    if fuel == 0 {
        None
    } else {
        let f = (fuel - 1) as nat;
        match resolve_final(stack, ComponentExternalKind::Type, idx, "component type "@, f) {
            None => None,
            Some(Err(m)) => Some((Err(m), st)),
            Some(Ok((section, next))) => match section {
                ComponentSection::Type(ComponentType::Defined(dt)) => defined_outcome(next, dt, st, f),
                ComponentSection::Type(ComponentType::Func(_)) => Some(
                    (Err("Passing functions in exported functions is not supported"@), st),
                ),
                ComponentSection::Type(ComponentType::Component) => Some(
                    (Err("Passing components in exported functions is not supported"@), st),
                ),
                ComponentSection::Type(ComponentType::Instance) => Some(
                    (Err("Passing instances in exported functions is not supported"@), st),
                ),
                ComponentSection::Type(ComponentType::Resource { .. }) => Some(
                    (Err("Passing resources in exported functions is not supported"@), st),
                ),
                ComponentSection::Import(import) => match import.desc {
                    ComponentTypeRef::Type(TypeBounds::Eq(inner)) => type_idx_outcome(stack, inner, mode, st, f),
                    ComponentTypeRef::Type(TypeBounds::SubResource) => match mode {
                        Some(m) => {
                            let (id, st2) = resource_id_step(next, idx, st);
                            Some((Ok(TypeModel::Resource { id, resource_mode: m }), st2))
                        },
                        None => Some(
                            (
                                Err(
                                    "Reached a sub-resource type bound without a surrounding borrowed/owned resource type"@,
                                ),
                                st,
                            ),
                        ),
                    },
                    d => Some(
                        (Err("Imports "@ + type_ref_debug(d) + " is not supported as a defined type"@), st),
                    ),
                },
                _ => Some((Err(unexpected_message("Expected component type, but got "@, section)), st)),
            },
        }
    }
}

/// The type that a defined type stands for.
pub open spec fn defined_outcome(
    stack: Seq<FrameModel>,
    dt: ComponentDefinedType,
    st: StateModel,
    fuel: nat,
) -> Outcome<TypeModel>
    decreases fuel, 0nat,
{
    if fuel == 0 {
        None
    } else {
        let f = (fuel - 1) as nat;
        match dt {
            ComponentDefinedType::Primitive { typ } => Some((Ok(primitive_type(typ).model()), st)),
            ComponentDefinedType::Record { fields } => match named_outcome(stack, fields@, st, f) {
                None => None,
                Some((Err(m), s)) => Some((Err(m), s)),
                Some((Ok(fs), s)) => Some((Ok(TypeModel::Record(fs)), s)),
            },
            ComponentDefinedType::Variant { cases } => match cases_outcome(stack, cases@, st, f) {
                None => None,
                Some((Err(m), s)) => Some((Err(m), s)),
                Some((Ok(cs), s)) => Some((Ok(TypeModel::Variant(cs)), s)),
            },
            ComponentDefinedType::List { elem } => match val_type_outcome(stack, elem, st, f) {
                None => None,
                Some((Err(m), s)) => Some((Err(m), s)),
                Some((Ok(t), s)) => Some((Ok(TypeModel::List(Box::new(t))), s)),
            },
            ComponentDefinedType::Tuple { elems } => match val_types_outcome(stack, elems@, st, f) {
                None => None,
                Some((Err(m), s)) => Some((Err(m), s)),
                Some((Ok(ts), s)) => Some((Ok(TypeModel::Tuple(ts)), s)),
            },
            ComponentDefinedType::Flags { names } => Some((Ok(TypeModel::Flags(names@)), st)),
            ComponentDefinedType::Enum { names } => Some((Ok(TypeModel::Enum(names@)), st)),
            ComponentDefinedType::Option { typ } => match val_type_outcome(stack, typ, st, f) {
                None => None,
                Some((Err(m), s)) => Some((Err(m), s)),
                Some((Ok(t), s)) => Some((Ok(TypeModel::Option(Box::new(t))), s)),
            },
            ComponentDefinedType::Result { ok, err } => match opt_val_type_outcome(stack, ok, st, f) {
                None => None,
                Some((Err(m), s)) => Some((Err(m), s)),
                Some((Ok(o), s1)) => match opt_val_type_outcome(stack, err, s1, f) {
                    None => None,
                    Some((Err(m), s)) => Some((Err(m), s)),
                    Some((Ok(e), s2)) => Some(
                        (Ok(TypeModel::Result { ok: boxed(o), error: boxed(e) }), s2),
                    ),
                },
            },
            ComponentDefinedType::Owned { type_idx } => type_idx_outcome(
                stack,
                type_idx,
                Some(AnalysedResourceMode::Owned),
                st,
                f,
            ),
            ComponentDefinedType::Borrowed { type_idx } => type_idx_outcome(
                stack,
                type_idx,
                Some(AnalysedResourceMode::Borrowed),
                st,
                f,
            ),
        }
    }
}

pub open spec fn boxed(t: Option<TypeModel>) -> Option<Box<TypeModel>> {
    match t {
        Some(t) => Some(Box::new(t)),
        None => None,
    }
}

/// The types of a list of value types, analysed from first to last.
pub open spec fn val_types_outcome(
    stack: Seq<FrameModel>,
    ts: Seq<ComponentValType>,
    st: StateModel,
    fuel: nat,
) -> Outcome<Seq<TypeModel>>
    decreases fuel, ts.len() + 2,
{
    if ts.len() == 0 {
        Some((Ok(Seq::empty()), st))
    } else {
        match val_types_outcome(stack, ts.drop_last(), st, fuel) {
            None => None,
            Some((Err(m), s)) => Some((Err(m), s)),
            Some((Ok(acc), s)) => match val_type_outcome(stack, ts.last(), s, fuel) {
                None => None,
                Some((Err(m), s2)) => Some((Err(m), s2)),
                Some((Ok(t), s2)) => Some((Ok(acc.push(t)), s2)),
            },
        }
    }
}

/// The types of a list of named value types, analysed from first to last.
pub open spec fn named_outcome(
    stack: Seq<FrameModel>,
    fs: Seq<(String, ComponentValType)>,
    st: StateModel,
    fuel: nat,
) -> Outcome<Seq<(String, TypeModel)>>
    decreases fuel, fs.len() + 2,
{
    if fs.len() == 0 {
        Some((Ok(Seq::empty()), st))
    } else {
        match named_outcome(stack, fs.drop_last(), st, fuel) {
            None => None,
            Some((Err(m), s)) => Some((Err(m), s)),
            Some((Ok(acc), s)) => match val_type_outcome(stack, fs.last().1, s, fuel) {
                None => None,
                Some((Err(m), s2)) => Some((Err(m), s2)),
                Some((Ok(t), s2)) => Some((Ok(acc.push((fs.last().0, t))), s2)),
            },
        }
    }
}

/// The cases of a variant, analysed from first to last.
pub open spec fn cases_outcome(
    stack: Seq<FrameModel>,
    cs: Seq<VariantCase>,
    st: StateModel,
    fuel: nat,
) -> Outcome<Seq<(String, Option<TypeModel>)>>
    decreases fuel, cs.len() + 2,
{
    if cs.len() == 0 {
        Some((Ok(Seq::empty()), st))
    } else {
        match cases_outcome(stack, cs.drop_last(), st, fuel) {
            None => None,
            Some((Err(m), s)) => Some((Err(m), s)),
            Some((Ok(acc), s)) => match opt_val_type_outcome(stack, cs.last().typ, s, fuel) {
                None => None,
                Some((Err(m), s2)) => Some((Err(m), s2)),
                Some((Ok(t), s2)) => Some((Ok(acc.push((cs.last().name, t))), s2)),
            },
        }
    }
}

/// A function named `name` with function type `ft`: parameters first, then results.
pub open spec fn func_type_outcome(
    stack: Seq<FrameModel>,
    name: String,
    ft: ComponentFuncType,
    st: StateModel,
    fuel: nat,
) -> Outcome<FunctionModel> {
    match named_outcome(stack, ft.params@, st, fuel) {
        None => None,
        Some((Err(m), s)) => Some((Err(m), s)),
        Some((Ok(params), s1)) => {
            let results: Outcome<ResultsModel> = match ft.result {
                ComponentFuncResult::Unnamed(t) => match val_type_outcome(stack, t, s1, fuel) {
                    None => None,
                    Some((Err(m), s)) => Some((Err(m), s)),
                    Some((Ok(t), s)) => Some((Ok(ResultsModel::Unnamed(t)), s)),
                },
                ComponentFuncResult::Named(ps) => if ps@.len() == 0 {
                    Some((Ok(ResultsModel::Unit), s1))
                } else {
                    match named_outcome(stack, ps@, s1, fuel) {
                        None => None,
                        Some((Err(m), s)) => Some((Err(m), s)),
                        Some((Ok(rs), s)) => Some((Ok(ResultsModel::Named(rs)), s)),
                    }
                },
            };
            match results {
                None => None,
                Some((Err(m), s)) => Some((Err(m), s)),
                Some((Ok(results), s2)) => Some(
                    (Ok(FunctionModel { name, params, results }), s2),
                ),
            }
        },
    }
}

/// The function type of a function section: that of a lifted function or of a function
/// import, followed to its definition.
pub open spec fn function_type_section(
    stack: Seq<FrameModel>,
    function_section: ComponentSection,
    fuel: nat,
) -> Option<Resolution> {
    match function_section {
        ComponentSection::Canon(Canon::Lift { function_type, .. }) => resolve_final(
            stack,
            ComponentExternalKind::Type,
            function_type,
            "component function type "@,
            fuel,
        ),
        ComponentSection::Import(import) => match import.desc {
            ComponentTypeRef::Func(func_type_idx) => resolve_final(
                stack,
                ComponentExternalKind::Type,
                func_type_idx,
                "component function type "@,
                fuel,
            ),
            d => Some(Err("Expected function import, but got "@ + type_ref_debug(d) + " instead"@)),
        },
        _ => Some(
            Err(
                unexpected_message(
                    "Expected canonical lift function or function import, but got "@,
                    function_section,
                ),
            ),
        ),
    }
}

/// The exported function `name`, item `idx` of the function space: a lifted function or a
/// function import, whose function type is analysed.
pub open spec fn func_export_outcome(
    stack: Seq<FrameModel>,
    name: String,
    idx: u32,
    st: StateModel,
    fuel: nat,
) -> Outcome<FunctionModel> {
    if fuel == 0 {
        None
    } else {
        let f = (fuel - 1) as nat;
        match resolve_final(stack, ComponentExternalKind::Func, idx, "component function "@, f) {
            None => None,
            Some(Err(m)) => Some((Err(m), st)),
            Some(Ok((function_section, next))) => {
                let typed = function_type_section(next, function_section, f);
                match typed {
                    None => None,
                    Some(Err(m)) => Some((Err(m), st)),
                    Some(Ok((type_section, next2))) => match type_section {
                        ComponentSection::Type(ComponentType::Func(ft)) => func_type_outcome(
                            next2,
                            name,
                            ft,
                            st,
                            f,
                        ),
                        _ => Some(
                            (Err(unexpected_message("Expected function type, but got "@, type_section)), st),
                        ),
                    },
                }
            },
        }
    }
}

/// The state with one more warning about an export of kind `kind` named `name`.
pub open spec fn with_warning(st: StateModel, kind: ComponentExternalKind, name: String) -> StateModel {
    StateModel {
        warnings: st.warnings.push(AnalysisWarning::UnsupportedExport { kind, name }),
        ids: st.ids,
    }
}

/// The functions exported by an instantiated component, in order; other exports are
/// skipped with a warning.
pub open spec fn component_funcs_outcome(
    stack: Seq<FrameModel>,
    exports: Seq<ComponentExport>,
    st: StateModel,
    fuel: nat,
) -> Outcome<Seq<FunctionModel>>
    decreases exports.len(),
{
    if exports.len() == 0 {
        Some((Ok(Seq::empty()), st))
    } else {
        match component_funcs_outcome(stack, exports.drop_last(), st, fuel) {
            None => None,
            Some((Err(m), s)) => Some((Err(m), s)),
            Some((Ok(acc), s)) => {
                let e = exports.last();
                if e.kind == ComponentExternalKind::Func {
                    match func_export_outcome(stack, e.name, e.idx, s, fuel) {
                        None => None,
                        Some((Err(m), s2)) => Some((Err(m), s2)),
                        Some((Ok(func), s2)) => Some((Ok(acc.push(func)), s2)),
                    }
                } else {
                    Some((Ok(acc), with_warning(s, e.kind, e.name)))
                }
            },
        }
    }
}

/// The exported instance `name`, item `idx` of the instance space: an instantiated
/// component, whose exported functions are analysed with that component on the stack.
pub open spec fn instance_export_outcome(
    stack: Seq<FrameModel>,
    name: String,
    idx: u32,
    st: StateModel,
    fuel: nat,
) -> Outcome<InstanceModel> {
    if fuel == 0 {
        None
    } else {
        let f = (fuel - 1) as nat;
        match resolve_final(stack, ComponentExternalKind::Instance, idx, "instance "@, f) {
            None => None,
            Some(Err(m)) => Some((Err(m), st)),
            Some(Ok((instance_section, next))) => match instance_section {
                ComponentSection::Instance(ComponentInstance::Instantiate { component_idx }) => {
                    match resolve_final(next, ComponentExternalKind::Component, component_idx, "component "@, f) {
                        None => None,
                        Some(Err(m)) => Some((Err(m), st)),
                        Some(Ok((component_section, next2))) => match component_section {
                            ComponentSection::Component(c) => {
                                let inner = next2.push(FrameModel { component: c, component_idx: Some(component_idx) });
                                match component_funcs_outcome(inner, exports_of(c.sections@), st, f) {
                                    None => None,
                                    Some((Err(m), s)) => Some((Err(m), s)),
                                    Some((Ok(funcs), s)) => Some((Ok(InstanceModel { name, funcs }), s)),
                                }
                            },
                            _ => Some(
                                (Err(unexpected_message("Expected component, but got "@, component_section)), st),
                            ),
                        },
                    }
                },
                ComponentSection::Instance(ComponentInstance::FromExports { .. }) => Some(
                    (Err("Instance defined directly from exports are not supported"@), st),
                ),
                _ => Some((Err(unexpected_message("Expected instance, but got "@, instance_section)), st)),
            },
        }
    }
}

/// The exports of the top component, in order: functions and instances are analysed,
/// other exports are skipped with a warning.
pub open spec fn exports_outcome(
    stack: Seq<FrameModel>,
    exports: Seq<ComponentExport>,
    st: StateModel,
    fuel: nat,
) -> Outcome<Seq<ExportModel>>
    decreases exports.len(),
{
    if exports.len() == 0 {
        Some((Ok(Seq::empty()), st))
    } else {
        match exports_outcome(stack, exports.drop_last(), st, fuel) {
            None => None,
            Some((Err(m), s)) => Some((Err(m), s)),
            Some((Ok(acc), s)) => {
                let e = exports.last();
                if e.kind == ComponentExternalKind::Func {
                    match func_export_outcome(stack, e.name, e.idx, s, fuel) {
                        None => None,
                        Some((Err(m), s2)) => Some((Err(m), s2)),
                        Some((Ok(func), s2)) => Some((Ok(acc.push(ExportModel::Function(func))), s2)),
                    }
                } else if e.kind == ComponentExternalKind::Instance {
                    match instance_export_outcome(stack, e.name, e.idx, s, fuel) {
                        None => None,
                        Some((Err(m), s2)) => Some((Err(m), s2)),
                        Some((Ok(inst), s2)) => Some((Ok(acc.push(ExportModel::Instance(inst))), s2)),
                    }
                } else {
                    Some((Ok(acc), with_warning(s, e.kind, e.name)))
                }
            },
        }
    }
}

/// All the top-level exports of the component on top of the stack.
pub open spec fn top_level_outcome(stack: Seq<FrameModel>, st: StateModel, fuel: nat) -> Outcome<
    Seq<ExportModel>,
> {
    exports_outcome(stack, exports_of(top_sections(stack)), st, fuel)
}

/// What analysing the exports again gives, after an analysis from state `st` ended with
/// outcome `o`: the same result, no new resource type, and the warnings of the first
/// analysis recorded once more.
pub open spec fn repeated_analysis(st: StateModel, o: Outcome<Seq<ExportModel>>) -> Outcome<Seq<ExportModel>> {
    match o {
        Some((r, s1)) => Some(
            (r, StateModel { warnings: s1.warnings + s1.warnings.skip(st.warnings.len() as int), ids: s1.ids }),
        ),
        None => None,
    }
}

/// Analyses the exports of a component.
pub struct AnalysisContext<'a> {
    component_stack: Vec<ComponentStackItem<'a>>,
    state: AnalysisState,
}

impl<'a> AnalysisContext<'a> {
    /// The components being read, bottom first; the last one is the one analysed.
    pub closed spec fn stack_frames(self) -> Seq<FrameModel> {
        frames(self.component_stack@)
    }

    /// The warnings and resource types gathered so far.
    pub closed spec fn state_model(self) -> StateModel {
        self.state.model()
    }

    /// The analysis comes back with an answer: it does not chase references forever,
    /// and no outer alias reaches below the stack.
    pub open spec fn analysable(self) -> bool {
        &&& self.stack_frames().len() > 0
        &&& exists|fuel: nat| top_level_outcome(self.stack_frames(), self.state_model(), fuel) is Some
    }

    /// What the analysis of the top-level exports gives.
    pub open spec fn analysis(self) -> Outcome<Seq<ExportModel>> {
        top_level_outcome(
            self.stack_frames(),
            self.state_model(),
            choose|fuel: nat| top_level_outcome(self.stack_frames(), self.state_model(), fuel) is Some,
        )
    }

    /// An analysis of `component`, with no warnings and no resource types yet.
    pub fn new(component: &'a Component) -> (r: AnalysisContext<'a>)
        ensures
            r.stack_frames() == seq![FrameModel { component: *component, component_idx: None }],
            r.state_model() == (StateModel { warnings: Seq::empty(), ids: Seq::empty() }),
    {
        let mut component_stack: Vec<ComponentStackItem<'a>> = Vec::new();
        component_stack.push(ComponentStackItem { component, component_idx: None });
        let r = AnalysisContext {
            component_stack,
            state: AnalysisState { warnings: Vec::new(), resource_ids: Vec::new() },
        };
        proof {
            assert(r.stack_frames() =~= seq![FrameModel { component: *component, component_idx: None }]);
            assert(r.state_model() =~= StateModel { warnings: Seq::empty(), ids: Seq::empty() });
        }
        r
    }

    /// All top-level exports of the component, with the types of their functions. Exports
    /// other than functions and instances are skipped, each with a warning.
    pub fn get_top_level_exports(&mut self) -> (r: AnalysisResult<Vec<AnalysedExport>>)
        requires
            old(self).analysable(),
        ensures
            outcome_is(
                r,
                final(self).state_model(),
                old(self).analysis(),
                |v: Vec<AnalysedExport>| exports_model(v@),
            ),
            final(self).stack_frames() == old(self).stack_frames(),
            crate::growth::extends(old(self).state_model(), final(self).state_model()),
            final(self).analysable(),
            final(self).analysis() == repeated_analysis(old(self).state_model(), old(self).analysis()),
    {
        let ghost fuel = choose|fuel: nat| top_level_outcome(self.stack_frames(), self.state_model(), fuel) is Some;
        proof {
            crate::growth::law_analysis_only_appends(self.stack_frames(), self.state_model(), fuel);
        }
        let component = self.component_stack[self.component_stack.len() - 1].component;
        proof {
            assert(top_sections(self.stack_frames()) == component.sections@);
        }
        let exports = component.exports();
        let ghost stack = self.stack_frames();
        let ghost st0 = self.state_model();
        let r = crate::analyse::analyse_exports(&self.component_stack, &exports, &mut self.state, Ghost(fuel));
        proof {
            crate::replay::law_analysis_repeats(stack, st0, fuel);
            let s1 = self.state_model();
            assert(top_level_outcome(stack, s1, fuel) is Some);
            let f2 = choose|f: nat| top_level_outcome(stack, s1, f) is Some;
            crate::fuel::law_analysis_independent_of_fuel(stack, s1, fuel, f2);
        }
        r
    }

    /// The warnings gathered so far, in order.
    pub fn warnings(&self) -> (r: Vec<AnalysisWarning>)
        ensures
            r@ == self.state_model().warnings,
    {
        let mut out: Vec<AnalysisWarning> = Vec::new();
        let mut i: usize = 0;
        while i < self.state.warnings.len()
            invariant
                i <= self.state.warnings@.len(),
                out@ == self.state.warnings@.take(i as int),
            decreases self.state.warnings@.len() - i,
        {
            out.push(clone_warning(&self.state.warnings[i]));
            i = i + 1;
            proof {
                assert(out@ =~= self.state.warnings@.take(i as int));
            }
        }
        proof {
            assert(out@ =~= self.state.warnings@);
        }
        out
    }
}

} // verus!
