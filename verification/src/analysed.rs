use vstd::prelude::*;
use vstd::std_specs::convert::FromSpecImpl;

use crate::component::{PrimitiveValueType, opt_deref};
use crate::text::{has_prefix, starts_with};

verus! {

/// How a resource handle is passed: owned, or borrowed for the duration of a call.
#[derive(Debug, Clone, Copy, PartialEq, Eq, Structural)]
pub enum AnalysedResourceMode {
    Owned,
    Borrowed,
}

/// Identifier of a resource type, unique within one analysis.
#[derive(Debug, Clone, Copy, PartialEq, Eq, Structural)]
pub struct AnalysedResourceId {
    pub value: u64,
}

/// One export of a component: a function, or an instance with its functions.
#[derive(Debug, Clone, PartialEq, Eq)]
pub enum AnalysedExport {
    Function(AnalysedFunction),
    Instance(AnalysedInstance),
}

#[derive(Debug, Clone, PartialEq, Eq)]
pub struct AnalysedFunction {
    pub name: String,
    pub params: Vec<AnalysedFunctionParameter>,
    pub results: AnalysedFunctionResults,
}

#[derive(Debug, Clone, PartialEq, Eq)]
pub struct AnalysedInstance {
    pub name: String,
    pub funcs: Vec<AnalysedFunction>,
}

#[derive(Debug, Clone, PartialEq, Eq)]
pub struct AnalysedFunctionParameter {
    pub name: String,
    pub typ: AnalysedType,
}

#[derive(Debug, Clone, PartialEq, Eq)]
pub enum AnalysedFunctionResults {
    Named(Vec<NamedFunctionResult>),
    Unnamed(AnalysedType),
    Unit,
}

#[derive(Debug, Clone, PartialEq, Eq)]
pub struct NamedFunctionResult {
    pub name: String,
    pub typ: AnalysedType,
}

#[derive(Debug, PartialEq, Eq)]
pub enum AnalysedType {
    Bool,
    S8,
    U8,
    S16,
    U16,
    S32,
    U32,
    S64,
    U64,
    F32,
    F64,
    Chr,
    Str,
    List(Box<AnalysedType>),
    Tuple(Vec<AnalysedType>),
    Record(Vec<(String, AnalysedType)>),
    Flags(Vec<String>),
    Enum(Vec<String>),
    Option(Box<AnalysedType>),
    Result { ok: Option<Box<AnalysedType>>, error: Option<Box<AnalysedType>> },
    Variant(Vec<(String, Option<AnalysedType>)>),
    Resource { id: AnalysedResourceId, resource_mode: AnalysedResourceMode },
}

/// The mathematical value of an [`AnalysedType`]: the same tree with sequences in place of vectors.
pub enum TypeModel {
    Bool,
    S8,
    U8,
    S16,
    U16,
    S32,
    U32,
    S64,
    U64,
    F32,
    F64,
    Chr,
    Str,
    List(Box<TypeModel>),
    Tuple(Seq<TypeModel>),
    Record(Seq<(String, TypeModel)>),
    Flags(Seq<String>),
    Enum(Seq<String>),
    Option(Box<TypeModel>),
    Result { ok: Option<Box<TypeModel>>, error: Option<Box<TypeModel>> },
    Variant(Seq<(String, Option<TypeModel>)>),
    Resource { id: AnalysedResourceId, resource_mode: AnalysedResourceMode },
}

impl AnalysedType {
    pub open spec fn model(self) -> TypeModel
        decreases self,
    {
        match self {
            AnalysedType::Bool => TypeModel::Bool,
            AnalysedType::S8 => TypeModel::S8,
            AnalysedType::U8 => TypeModel::U8,
            AnalysedType::S16 => TypeModel::S16,
            AnalysedType::U16 => TypeModel::U16,
            AnalysedType::S32 => TypeModel::S32,
            AnalysedType::U32 => TypeModel::U32,
            AnalysedType::S64 => TypeModel::S64,
            AnalysedType::U64 => TypeModel::U64,
            AnalysedType::F32 => TypeModel::F32,
            AnalysedType::F64 => TypeModel::F64,
            AnalysedType::Chr => TypeModel::Chr,
            AnalysedType::Str => TypeModel::Str,
            AnalysedType::List(t) => TypeModel::List(Box::new(t.model())),
            AnalysedType::Tuple(ts) => TypeModel::Tuple(
                Seq::new(ts@.len(), |i: int| if 0 <= i < ts.len() { ts[i].model() } else { TypeModel::Bool }),
            ),
            AnalysedType::Record(fs) => TypeModel::Record(
                Seq::new(fs@.len(), |i: int| if 0 <= i < fs.len() { (fs[i].0, fs[i].1.model()) } else { (fs[i].0, TypeModel::Bool) }),
            ),
            AnalysedType::Flags(ns) => TypeModel::Flags(ns@),
            AnalysedType::Enum(ns) => TypeModel::Enum(ns@),
            AnalysedType::Option(t) => TypeModel::Option(Box::new(t.model())),
            AnalysedType::Result { ok, error } => TypeModel::Result {
                ok: match ok {
                    Some(t) => Some(Box::new(t.model())),
                    None => None,
                },
                error: match error {
                    Some(t) => Some(Box::new(t.model())),
                    None => None,
                },
            },
            AnalysedType::Variant(cs) => TypeModel::Variant(
                Seq::new(
                    cs@.len(),
                    |i: int|
                        if 0 <= i < cs.len() {
                            (
                                cs[i].0,
                                match cs[i].1 {
                                    Some(t) => Some(t.model()),
                                    None => None,
                                },
                            )
                        } else {
                            (cs[i].0, None)
                        },
                ),
            ),
            AnalysedType::Resource { id, resource_mode } => TypeModel::Resource { id, resource_mode },
        }
    }
}

/// The value of a function: its name, parameter names and types, and results.
pub struct FunctionModel {
    pub name: String,
    pub params: Seq<(String, TypeModel)>,
    pub results: ResultsModel,
}

pub enum ResultsModel {
    Named(Seq<(String, TypeModel)>),
    Unnamed(TypeModel),
    Unit,
}

pub struct InstanceModel {
    pub name: String,
    pub funcs: Seq<FunctionModel>,
}

pub enum ExportModel {
    Function(FunctionModel),
    Instance(InstanceModel),
}

/// The values of a list of types.
pub open spec fn types_model(v: Seq<AnalysedType>) -> Seq<TypeModel> {
    Seq::new(v.len(), |i: int| v[i].model())
}

/// The values of a list of named types.
pub open spec fn named_types_model(v: Seq<(String, AnalysedType)>) -> Seq<(String, TypeModel)> {
    Seq::new(v.len(), |i: int| (v[i].0, v[i].1.model()))
}

/// The values of a list of cases, each with an optional type.
pub open spec fn cases_model(v: Seq<(String, Option<AnalysedType>)>) -> Seq<(String, Option<TypeModel>)> {
    Seq::new(v.len(), |i: int| (v[i].0, opt_type_model(v[i].1)))
}

/// The value of an optional type.
pub open spec fn opt_type_model(t: Option<AnalysedType>) -> Option<TypeModel> {
    match t {
        Some(t) => Some(t.model()),
        None => None,
    }
}

/// The names and type values of a list of parameters.
pub open spec fn params_model(v: Seq<AnalysedFunctionParameter>) -> Seq<(String, TypeModel)> {
    Seq::new(v.len(), |i: int| (v[i].name, v[i].typ.model()))
}

/// The names and type values of a list of named results.
pub open spec fn named_results_model(v: Seq<NamedFunctionResult>) -> Seq<(String, TypeModel)> {
    Seq::new(v.len(), |i: int| (v[i].name, v[i].typ.model()))
}

/// The values of a list of functions.
pub open spec fn functions_model(v: Seq<AnalysedFunction>) -> Seq<FunctionModel> {
    Seq::new(v.len(), |i: int| v[i].model())
}

/// The values of a list of exports.
pub open spec fn exports_model(v: Seq<AnalysedExport>) -> Seq<ExportModel> {
    Seq::new(v.len(), |i: int| v[i].model())
}

impl AnalysedFunctionResults {
    pub open spec fn model(self) -> ResultsModel {
        match self {
            AnalysedFunctionResults::Named(rs) => ResultsModel::Named(named_results_model(rs@)),
            AnalysedFunctionResults::Unnamed(t) => ResultsModel::Unnamed(t.model()),
            AnalysedFunctionResults::Unit => ResultsModel::Unit,
        }
    }
}

impl AnalysedFunction {
    pub open spec fn model(self) -> FunctionModel {
        FunctionModel {
            name: self.name,
            params: params_model(self.params@),
            results: self.results.model(),
        }
    }
}

impl AnalysedInstance {
    pub open spec fn model(self) -> InstanceModel {
        InstanceModel { name: self.name, funcs: functions_model(self.funcs@) }
    }
}

impl AnalysedExport {
    pub open spec fn model(self) -> ExportModel {
        match self {
            AnalysedExport::Function(f) => ExportModel::Function(f.model()),
            AnalysedExport::Instance(i) => ExportModel::Instance(i.model()),
        }
    }
}

impl AnalysedType {
    /// A copy of this type, built node by node.
    #[verifier::loop_isolation(false)]
    pub fn deep_clone(&self) -> (res: AnalysedType)
        ensures
            res.model() == self.model(),
        decreases self,
    {
        match self {
            AnalysedType::Bool => AnalysedType::Bool,
            AnalysedType::S8 => AnalysedType::S8,
            AnalysedType::U8 => AnalysedType::U8,
            AnalysedType::S16 => AnalysedType::S16,
            AnalysedType::U16 => AnalysedType::U16,
            AnalysedType::S32 => AnalysedType::S32,
            AnalysedType::U32 => AnalysedType::U32,
            AnalysedType::S64 => AnalysedType::S64,
            AnalysedType::U64 => AnalysedType::U64,
            AnalysedType::F32 => AnalysedType::F32,
            AnalysedType::F64 => AnalysedType::F64,
            AnalysedType::Chr => AnalysedType::Chr,
            AnalysedType::Str => AnalysedType::Str,
            AnalysedType::List(t) => AnalysedType::List(Box::new(t.deep_clone())),
            AnalysedType::Option(t) => AnalysedType::Option(Box::new(t.deep_clone())),
            AnalysedType::Result { ok, error } => {
                let ok2 = match ok {
                    Some(t) => Some(Box::new(t.deep_clone())),
                    None => None,
                };
                let error2 = match error {
                    Some(t) => Some(Box::new(t.deep_clone())),
                    None => None,
                };
                AnalysedType::Result { ok: ok2, error: error2 }
            },
            AnalysedType::Resource { id, resource_mode } => AnalysedType::Resource {
                id: *id,
                resource_mode: *resource_mode,
            },
            AnalysedType::Flags(ns) => AnalysedType::Flags(clone_strings(ns)),
            AnalysedType::Enum(ns) => AnalysedType::Enum(clone_strings(ns)),
            AnalysedType::Tuple(ts) => {
                let mut out: Vec<AnalysedType> = Vec::new();
                let mut i: usize = 0;
                while i < ts.len()
                    invariant
                        i <= ts@.len(),
                        out@.len() == i,
                        forall|j: int| 0 <= j < i ==> #[trigger] out@[j].model() == ts@[j].model(),
                    decreases ts@.len() - i,
                {
                    out.push(ts[i].deep_clone());
                    i = i + 1;
                }
                let res = AnalysedType::Tuple(out);
                assert(res.model() == self.model()) by {
                    if let (TypeModel::Tuple(a), TypeModel::Tuple(b)) = (res.model(), self.model()) {
                        assert forall|k: int| 0 <= k < a.len() implies a[k] == b[k] by {
                            assert(out@[k].model() == ts@[k].model());
                        }
                        assert(a =~= b);
                    }
                }
                res
            },
            AnalysedType::Record(fs) => {
                let mut out: Vec<(String, AnalysedType)> = Vec::new();
                let mut i: usize = 0;
                while i < fs.len()
                    invariant
                        i <= fs@.len(),
                        out@.len() == i,
                        forall|j: int| 0 <= j < i ==> #[trigger] out@[j].0 == fs@[j].0 && out@[j].1.model() == fs@[j].1.model(),
                    decreases fs@.len() - i,
                {
                    let f = &fs[i];
                    out.push((f.0.clone(), f.1.deep_clone()));
                    i = i + 1;
                }
                let res = AnalysedType::Record(out);
                assert(res.model() == self.model()) by {
                    if let (TypeModel::Record(a), TypeModel::Record(b)) = (res.model(), self.model()) {
                        assert forall|k: int| 0 <= k < a.len() implies a[k] == b[k] by {
                            assert(out@[k].0 == fs@[k].0);
                        }
                        assert(a =~= b);
                    }
                }
                res
            },
            AnalysedType::Variant(cs) => {
                let mut out: Vec<(String, Option<AnalysedType>)> = Vec::new();
                let mut i: usize = 0;
                while i < cs.len()
                    invariant
                        i <= cs@.len(),
                        out@.len() == i,
                        forall|j: int| 0 <= j < i ==> #[trigger] out@[j].0 == cs@[j].0 && match (out@[j].1, cs@[j].1) {
                            (Some(a), Some(b)) => a.model() == b.model(),
                            (None, None) => true,
                            _ => false,
                        },
                    decreases cs@.len() - i,
                {
                    let c = &cs[i];
                    let t = match &c.1 {
                        Some(t) => Some(t.deep_clone()),
                        None => None,
                    };
                    out.push((c.0.clone(), t));
                    i = i + 1;
                }
                let res = AnalysedType::Variant(out);
                assert(res.model() == self.model()) by {
                    if let (TypeModel::Variant(a), TypeModel::Variant(b)) = (res.model(), self.model()) {
                        assert forall|k: int| 0 <= k < a.len() implies a[k] == b[k] by {
                            assert(out@[k].0 == cs@[k].0);
                        }
                        assert(a =~= b);
                    }
                }
                res
            },
        }
    }
}

impl Clone for AnalysedType {
    fn clone(&self) -> (res: Self)
        ensures
            res.model() == self.model(),
    {
        self.deep_clone()
    }
}

/// The type that a primitive value type of a component stands for.
pub open spec fn primitive_type(p: PrimitiveValueType) -> AnalysedType {
    match p {
        PrimitiveValueType::Bool => AnalysedType::Bool,
        PrimitiveValueType::S8 => AnalysedType::S8,
        PrimitiveValueType::U8 => AnalysedType::U8,
        PrimitiveValueType::S16 => AnalysedType::S16,
        PrimitiveValueType::U16 => AnalysedType::U16,
        PrimitiveValueType::S32 => AnalysedType::S32,
        PrimitiveValueType::U32 => AnalysedType::U32,
        PrimitiveValueType::S64 => AnalysedType::S64,
        PrimitiveValueType::U64 => AnalysedType::U64,
        PrimitiveValueType::F32 => AnalysedType::F32,
        PrimitiveValueType::F64 => AnalysedType::F64,
        PrimitiveValueType::Chr => AnalysedType::Chr,
        PrimitiveValueType::Str => AnalysedType::Str,
    }
}

impl<'a> From<&'a PrimitiveValueType> for AnalysedType {
    fn from(value: &'a PrimitiveValueType) -> (res: Self)
        ensures
            res == primitive_type(*value),
    {
        match value {
            PrimitiveValueType::Bool => AnalysedType::Bool,
            PrimitiveValueType::S8 => AnalysedType::S8,
            PrimitiveValueType::U8 => AnalysedType::U8,
            PrimitiveValueType::S16 => AnalysedType::S16,
            PrimitiveValueType::U16 => AnalysedType::U16,
            PrimitiveValueType::S32 => AnalysedType::S32,
            PrimitiveValueType::U32 => AnalysedType::U32,
            PrimitiveValueType::S64 => AnalysedType::S64,
            PrimitiveValueType::U64 => AnalysedType::U64,
            PrimitiveValueType::F32 => AnalysedType::F32,
            PrimitiveValueType::F64 => AnalysedType::F64,
            PrimitiveValueType::Chr => AnalysedType::Chr,
            PrimitiveValueType::Str => AnalysedType::Str,
        }
    }
}

impl<'a> FromSpecImpl<&'a PrimitiveValueType> for AnalysedType {
    open spec fn obeys_from_spec() -> bool {
        true
    }

    open spec fn from_spec(v: &'a PrimitiveValueType) -> AnalysedType {
        primitive_type(*v)
    }
}

impl AnalysedFunctionResults {
    /// The result types, in order: one per named result, the single unnamed one, or none.
    pub open spec fn result_types(self) -> Seq<AnalysedType> {
        match self {
            AnalysedFunctionResults::Named(rs) => Seq::new(rs@.len(), |i: int| rs@[i].typ),
            AnalysedFunctionResults::Unnamed(t) => seq![t],
            AnalysedFunctionResults::Unit => Seq::empty(),
        }
    }

    /// The result names: those of the named results, and none otherwise.
    pub open spec fn result_names(self) -> Seq<Seq<char>> {
        match self {
            AnalysedFunctionResults::Named(rs) => Seq::new(rs@.len(), |i: int| rs@[i].name@),
            _ => Seq::empty(),
        }
    }

    pub fn types(&self) -> (r: Vec<&AnalysedType>)
        ensures
            r@.len() == self.result_types().len(),
            forall|i: int| 0 <= i < r@.len() ==> *r@[i] == self.result_types()[i],
    {
        match self {
            AnalysedFunctionResults::Named(results) => {
                let mut out: Vec<&AnalysedType> = Vec::new();
                let mut i: usize = 0;
                while i < results.len()
                    invariant
                        i <= results@.len(),
                        out@.len() == i,
                        forall|j: int| 0 <= j < i ==> *out@[j] == results@[j].typ,
                    decreases results@.len() - i,
                {
                    out.push(&results[i].typ);
                    i = i + 1;
                }
                out
            },
            AnalysedFunctionResults::Unnamed(result) => {
                let mut out: Vec<&AnalysedType> = Vec::new();
                out.push(result);
                out
            },
            AnalysedFunctionResults::Unit => Vec::new(),
        }
    }

    pub fn names(&self) -> (r: Vec<&str>)
        ensures
            r@.len() == self.result_names().len(),
            forall|i: int| 0 <= i < r@.len() ==> r@[i]@ == self.result_names()[i],
    {
        match self {
            AnalysedFunctionResults::Named(results) => {
                let mut out: Vec<&str> = Vec::new();
                let mut i: usize = 0;
                while i < results.len()
                    invariant
                        i <= results@.len(),
                        out@.len() == i,
                        forall|j: int| 0 <= j < i ==> out@[j]@ == results@[j].name@,
                    decreases results@.len() - i,
                {
                    out.push(results[i].name.as_str());
                    i = i + 1;
                }
                out
            },
            AnalysedFunctionResults::Unnamed(_) => Vec::new(),
            AnalysedFunctionResults::Unit => Vec::new(),
        }
    }

    pub fn len(&self) -> (r: usize)
        ensures
            r == self.result_types().len(),
    {
        match self {
            AnalysedFunctionResults::Named(results) => results.len(),
            AnalysedFunctionResults::Unnamed(_) => 1,
            AnalysedFunctionResults::Unit => 0,
        }
    }

    pub fn is_empty(&self) -> (r: bool)
        ensures
            r == (self.result_types().len() == 0),
    {
        self.len() == 0
    }

    pub fn get_typ(&self, idx: usize) -> (r: Option<&AnalysedType>)
        ensures
            opt_deref(r) == (if idx < self.result_types().len() {
                Some(self.result_types()[idx as int])
            } else {
                None
            }),
    {
        match self {
            AnalysedFunctionResults::Named(results) => {
                if idx < results.len() {
                    Some(&results[idx].typ)
                } else {
                    None
                }
            },
            AnalysedFunctionResults::Unnamed(typ) => {
                if idx == 0 {
                    Some(typ)
                } else {
                    None
                }
            },
            AnalysedFunctionResults::Unit => None,
        }
    }
}

/// `t` is a resource handle passed with mode `m`.
pub open spec fn is_resource_with_mode(t: AnalysedType, m: AnalysedResourceMode) -> bool {
    t matches AnalysedType::Resource { resource_mode, .. } && resource_mode == m
}

impl AnalysedFunction {
    /// Named as a constructor, with exactly one result, an owned resource handle.
    pub open spec fn spec_is_constructor(self) -> bool {
        &&& has_prefix(self.name@, "[constructor]"@)
        &&& self.results.result_types().len() == 1
        &&& is_resource_with_mode(self.results.result_types()[0], AnalysedResourceMode::Owned)
    }

    /// Named as a method, with a first parameter that is a borrowed resource handle.
    pub open spec fn spec_is_method(self) -> bool {
        &&& has_prefix(self.name@, "[method]"@)
        &&& self.params@.len() > 0
        &&& is_resource_with_mode(self.params@[0].typ, AnalysedResourceMode::Borrowed)
    }

    /// Named as a static method.
    pub open spec fn spec_is_static_method(self) -> bool {
        has_prefix(self.name@, "[static]"@)
    }

    pub fn is_constructor(&self) -> (r: bool)
        ensures
            r == self.spec_is_constructor(),
    {
        starts_with(self.name.as_str(), "[constructor]") && self.results.len() == 1 && match self.results.get_typ(
            0,
        ).unwrap() {
            AnalysedType::Resource { resource_mode: AnalysedResourceMode::Owned, .. } => true,
            _ => false,
        }
    }

    pub fn is_method(&self) -> (r: bool)
        ensures
            r == self.spec_is_method(),
    {
        starts_with(self.name.as_str(), "[method]") && self.params.len() > 0 && match &self.params[0].typ {
            AnalysedType::Resource { resource_mode: AnalysedResourceMode::Borrowed, .. } => true,
            _ => false,
        }
    }

    pub fn is_static_method(&self) -> (r: bool)
        ensures
            r == self.spec_is_static_method(),
    {
        starts_with(self.name.as_str(), "[static]")
    }
}

/// The value of a tuple type is the list of the values of its element types.
pub proof fn lemma_tuple_model(v: Vec<AnalysedType>)
    ensures
        AnalysedType::Tuple(v).model() == TypeModel::Tuple(types_model(v@)),
{
    if let TypeModel::Tuple(a) = AnalysedType::Tuple(v).model() {
        assert(a =~= types_model(v@));
    }
}

/// The value of a record type is the list of its field names with the values of their types.
pub proof fn lemma_record_model(v: Vec<(String, AnalysedType)>)
    ensures
        AnalysedType::Record(v).model() == TypeModel::Record(named_types_model(v@)),
{
    if let TypeModel::Record(a) = AnalysedType::Record(v).model() {
        assert(a =~= named_types_model(v@));
    }
}

/// The value of a variant type is the list of its case names with the values of their types.
pub proof fn lemma_variant_model(v: Vec<(String, Option<AnalysedType>)>)
    ensures
        AnalysedType::Variant(v).model() == TypeModel::Variant(cases_model(v@)),
{
    if let TypeModel::Variant(a) = AnalysedType::Variant(v).model() {
        assert(a =~= cases_model(v@));
    }
}

/// The named types as parameters, in the same order.
pub fn into_parameters(v: Vec<(String, AnalysedType)>) -> (r: Vec<AnalysedFunctionParameter>)
    ensures
        params_model(r@) == named_types_model(v@),
{
    let ghost orig = named_types_model(v@);
    let mut rest = v;
    let mut out: Vec<AnalysedFunctionParameter> = Vec::new();
    proof {
        assert(orig =~= params_model(out@) + named_types_model(rest@));
    }
    while rest.len() > 0
        invariant
            orig == params_model(out@) + named_types_model(rest@),
        decreases rest@.len(),
    {
        let ghost before = rest@;
        let ghost out_before = out@;
        let (name, typ) = rest.remove(0);
        let ghost tm = typ.model();
        out.push(AnalysedFunctionParameter { name, typ });
        proof {
            assert(before[0] == (name, typ));
            assert(rest@ =~= before.drop_first());
            assert(params_model(out@) =~= params_model(out_before).push((name, tm)));
            assert(named_types_model(before) =~= seq![(name, tm)] + named_types_model(rest@));
            assert(orig =~= params_model(out@) + named_types_model(rest@));
        }
    }
    proof {
        assert(named_types_model(rest@) =~= Seq::<(String, TypeModel)>::empty());
        assert(orig =~= params_model(out@));
    }
    out
}

/// The named types as named results, in the same order.
pub fn into_named_results(v: Vec<(String, AnalysedType)>) -> (r: Vec<NamedFunctionResult>)
    ensures
        named_results_model(r@) == named_types_model(v@),
{
    let ghost orig = named_types_model(v@);
    let mut rest = v;
    let mut out: Vec<NamedFunctionResult> = Vec::new();
    proof {
        assert(orig =~= named_results_model(out@) + named_types_model(rest@));
    }
    while rest.len() > 0
        invariant
            orig == named_results_model(out@) + named_types_model(rest@),
        decreases rest@.len(),
    {
        let ghost before = rest@;
        let ghost out_before = out@;
        let (name, typ) = rest.remove(0);
        let ghost tm = typ.model();
        out.push(NamedFunctionResult { name, typ });
        proof {
            assert(before[0] == (name, typ));
            assert(rest@ =~= before.drop_first());
            assert(named_results_model(out@) =~= named_results_model(out_before).push((name, tm)));
            assert(named_types_model(before) =~= seq![(name, tm)] + named_types_model(rest@));
            assert(orig =~= named_results_model(out@) + named_types_model(rest@));
        }
    }
    proof {
        assert(named_types_model(rest@) =~= Seq::<(String, TypeModel)>::empty());
        assert(orig =~= named_results_model(out@));
    }
    out
}

/// A copy of a list of strings.
pub fn clone_strings(v: &Vec<String>) -> (res: Vec<String>)
    ensures
        res@ == v@,
{
    let mut out: Vec<String> = Vec::new();
    let mut i: usize = 0;
    while i < v.len()
        invariant
            i <= v@.len(),
            out@ == v@.subrange(0, i as int),
        decreases v@.len() - i,
    {
        out.push(v[i].clone());
        i = i + 1;
    }
    out
}

} // verus!
