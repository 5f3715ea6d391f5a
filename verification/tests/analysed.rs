use golem_wasm_ast::analysed::{
    AnalysedFunction, AnalysedFunctionParameter, AnalysedFunctionResults, AnalysedResourceId,
    AnalysedResourceMode, AnalysedType, NamedFunctionResult,
};
use golem_wasm_ast::component::PrimitiveValueType;
use golem_wasm_ast::failure::AnalysisFailure;

#[test]
fn analysed_function_kind() {
    let cons = AnalysedFunction {
        name: "[constructor]cart".to_string(),
        params: vec![AnalysedFunctionParameter {
            name: "user-id".to_string(),
            typ: AnalysedType::Str,
        }],
        results: AnalysedFunctionResults::Unnamed(AnalysedType::Resource {
            id: AnalysedResourceId { value: 0 },
            resource_mode: AnalysedResourceMode::Owned,
        }),
    };

    let method = AnalysedFunction {
        name: "[method]cart.add-item".to_string(),
        params: vec![
            AnalysedFunctionParameter {
                name: "self".to_string(),
                typ: AnalysedType::Resource {
                    id: AnalysedResourceId { value: 0 },
                    resource_mode: AnalysedResourceMode::Borrowed,
                },
            },
            AnalysedFunctionParameter {
                name: "item".to_string(),
                typ: AnalysedType::Record(vec![
                    ("product-id".to_string(), AnalysedType::Str),
                    ("name".to_string(), AnalysedType::Str),
                    ("price".to_string(), AnalysedType::F32),
                    ("quantity".to_string(), AnalysedType::U32),
                ]),
            },
        ],
        results: AnalysedFunctionResults::Unit,
    };
    let static_method = AnalysedFunction {
        name: "[static]cart.merge".to_string(),
        params: vec![
            AnalysedFunctionParameter {
                name: "self".to_string(),
                typ: AnalysedType::Resource {
                    id: AnalysedResourceId { value: 0 },
                    resource_mode: AnalysedResourceMode::Borrowed,
                },
            },
            AnalysedFunctionParameter {
                name: "that".to_string(),
                typ: AnalysedType::Resource {
                    id: AnalysedResourceId { value: 0 },
                    resource_mode: AnalysedResourceMode::Borrowed,
                },
            },
        ],
        results: AnalysedFunctionResults::Unnamed(AnalysedType::Resource {
            id: AnalysedResourceId { value: 0 },
            resource_mode: AnalysedResourceMode::Owned,
        }),
    };
    let fun = AnalysedFunction {
        name: "hash".to_string(),
        params: vec![AnalysedFunctionParameter {
            name: "path".to_string(),
            typ: AnalysedType::Str,
        }],
        results: AnalysedFunctionResults::Unnamed(AnalysedType::Result {
            ok: Some(Box::new(AnalysedType::Record(vec![
                ("lower".to_string(), AnalysedType::U64),
                ("upper".to_string(), AnalysedType::U64),
            ]))),
            error: Some(Box::new(AnalysedType::Str)),
        }),
    };

    assert!(cons.is_constructor());
    assert!(method.is_method());
    assert!(static_method.is_static_method());
    assert!(!fun.is_constructor());
    assert!(!fun.is_method());
    assert!(!fun.is_static_method());
}

fn owned_resource(id: u64) -> AnalysedType {
    AnalysedType::Resource { id: AnalysedResourceId { value: id }, resource_mode: AnalysedResourceMode::Owned }
}

fn borrowed_resource(id: u64) -> AnalysedType {
    AnalysedType::Resource { id: AnalysedResourceId { value: id }, resource_mode: AnalysedResourceMode::Borrowed }
}

#[test]
fn constructor_needs_a_single_owned_result() {
    let borrowed = AnalysedFunction {
        name: "[constructor]cart".to_string(),
        params: vec![],
        results: AnalysedFunctionResults::Unnamed(borrowed_resource(0)),
    };
    assert!(!borrowed.is_constructor());
    let two = AnalysedFunction {
        name: "[constructor]cart".to_string(),
        params: vec![],
        results: AnalysedFunctionResults::Named(vec![
            NamedFunctionResult { name: "a".to_string(), typ: owned_resource(0) },
            NamedFunctionResult { name: "b".to_string(), typ: owned_resource(0) },
        ]),
    };
    assert!(!two.is_constructor());
    let named_one = AnalysedFunction {
        name: "[constructor]cart".to_string(),
        params: vec![],
        results: AnalysedFunctionResults::Named(vec![NamedFunctionResult {
            name: "a".to_string(),
            typ: owned_resource(3),
        }]),
    };
    assert!(named_one.is_constructor());
    let unit = AnalysedFunction {
        name: "[constructor]cart".to_string(),
        params: vec![],
        results: AnalysedFunctionResults::Unit,
    };
    assert!(!unit.is_constructor());
}

#[test]
fn method_needs_a_borrowed_first_parameter() {
    let no_params = AnalysedFunction {
        name: "[method]cart.size".to_string(),
        params: vec![],
        results: AnalysedFunctionResults::Unit,
    };
    assert!(!no_params.is_method());
    let owned_self = AnalysedFunction {
        name: "[method]cart.size".to_string(),
        params: vec![AnalysedFunctionParameter { name: "self".to_string(), typ: owned_resource(0) }],
        results: AnalysedFunctionResults::Unit,
    };
    assert!(!owned_self.is_method());
    let wrong_prefix = AnalysedFunction {
        name: "method]cart.size".to_string(),
        params: vec![AnalysedFunctionParameter { name: "self".to_string(), typ: borrowed_resource(0) }],
        results: AnalysedFunctionResults::Unit,
    };
    assert!(!wrong_prefix.is_method());
    assert!(!wrong_prefix.is_static_method());
    let short = AnalysedFunction {
        name: "[stat".to_string(),
        params: vec![],
        results: AnalysedFunctionResults::Unit,
    };
    assert!(!short.is_static_method());
}

#[test]
fn results_of_each_shape() {
    let named = AnalysedFunctionResults::Named(vec![
        NamedFunctionResult { name: "lower".to_string(), typ: AnalysedType::U64 },
        NamedFunctionResult { name: "upper".to_string(), typ: AnalysedType::S8 },
    ]);
    assert_eq!(named.len(), 2);
    assert!(!named.is_empty());
    assert_eq!(named.types(), vec![&AnalysedType::U64, &AnalysedType::S8]);
    assert_eq!(named.names(), vec!["lower", "upper"]);
    assert_eq!(named.get_typ(1), Some(&AnalysedType::S8));
    assert_eq!(named.get_typ(2), None);

    let unnamed = AnalysedFunctionResults::Unnamed(AnalysedType::Bool);
    assert_eq!(unnamed.len(), 1);
    assert!(!unnamed.is_empty());
    assert_eq!(unnamed.types(), vec![&AnalysedType::Bool]);
    assert!(unnamed.names().is_empty());
    assert_eq!(unnamed.get_typ(0), Some(&AnalysedType::Bool));
    assert_eq!(unnamed.get_typ(1), None);

    let unit = AnalysedFunctionResults::Unit;
    assert_eq!(unit.len(), 0);
    assert!(unit.is_empty());
    assert!(unit.types().is_empty());
    assert!(unit.names().is_empty());
    assert_eq!(unit.get_typ(0), None);
}

#[test]
fn primitive_value_types_convert() {
    assert_eq!(AnalysedType::from(&PrimitiveValueType::Bool), AnalysedType::Bool);
    assert_eq!(AnalysedType::from(&PrimitiveValueType::S8), AnalysedType::S8);
    assert_eq!(AnalysedType::from(&PrimitiveValueType::U8), AnalysedType::U8);
    assert_eq!(AnalysedType::from(&PrimitiveValueType::S16), AnalysedType::S16);
    assert_eq!(AnalysedType::from(&PrimitiveValueType::U16), AnalysedType::U16);
    assert_eq!(AnalysedType::from(&PrimitiveValueType::S32), AnalysedType::S32);
    assert_eq!(AnalysedType::from(&PrimitiveValueType::U32), AnalysedType::U32);
    assert_eq!(AnalysedType::from(&PrimitiveValueType::S64), AnalysedType::S64);
    assert_eq!(AnalysedType::from(&PrimitiveValueType::U64), AnalysedType::U64);
    assert_eq!(AnalysedType::from(&PrimitiveValueType::F32), AnalysedType::F32);
    assert_eq!(AnalysedType::from(&PrimitiveValueType::F64), AnalysedType::F64);
    assert_eq!(AnalysedType::from(&PrimitiveValueType::Chr), AnalysedType::Chr);
    assert_eq!(AnalysedType::from(&PrimitiveValueType::Str), AnalysedType::Str);
}

#[test]
fn clone_keeps_the_whole_tree() {
    let t = AnalysedType::Variant(vec![
        ("none".to_string(), None),
        (
            "some".to_string(),
            Some(AnalysedType::Tuple(vec![
                AnalysedType::List(Box::new(AnalysedType::Chr)),
                AnalysedType::Flags(vec!["a".to_string(), "b".to_string()]),
                AnalysedType::Enum(vec!["x".to_string()]),
                AnalysedType::Option(Box::new(owned_resource(7))),
                AnalysedType::Result { ok: None, error: Some(Box::new(AnalysedType::F64)) },
                AnalysedType::Record(vec![("f".to_string(), AnalysedType::S16)]),
            ])),
        ),
    ]);
    assert_eq!(t.clone(), t);
}

#[test]
fn failures_carry_their_message() {
    match AnalysisFailure::failed("boom") {
        AnalysisFailure::Failed(m) => assert_eq!(m, "boom"),
    }
    match AnalysisFailure::fail_on_missing::<u32>(None, "component 4") {
        Err(AnalysisFailure::Failed(m)) => assert_eq!(m, "Missing component 4"),
        Ok(_) => panic!("expected a failure"),
    }
    assert!(matches!(AnalysisFailure::fail_on_missing(Some(9u32), "x"), Ok(9)));
}
