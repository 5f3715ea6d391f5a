use golem_wasm_ast::analysed::{
    AnalysedExport, AnalysedFunction, AnalysedFunctionParameter, AnalysedFunctionResults,
    AnalysedInstance, AnalysedResourceId, AnalysedResourceMode, AnalysedType, NamedFunctionResult,
};
use golem_wasm_ast::component::{
    Alias, AliasTarget, Canon, Component, ComponentDefinedType, ComponentExport,
    ComponentExternalKind, ComponentFuncResult, ComponentFuncType, ComponentImport,
    ComponentInstance, ComponentSection, ComponentType, ComponentTypeRef, ComponentValType,
    OuterAliasKind, PrimitiveValueType, TypeBounds, VariantCase,
};
use golem_wasm_ast::context::AnalysisContext;
use golem_wasm_ast::failure::{AnalysisFailure, AnalysisWarning};

fn prim(p: PrimitiveValueType) -> ComponentValType {
    ComponentValType::Primitive(p)
}

fn func_type(params: Vec<(&str, ComponentValType)>, result: ComponentFuncResult) -> ComponentSection {
    ComponentSection::Type(ComponentType::Func(ComponentFuncType {
        params: params.into_iter().map(|(n, t)| (n.to_string(), t)).collect(),
        result,
    }))
}

fn defined(t: ComponentDefinedType) -> ComponentSection {
    ComponentSection::Type(ComponentType::Defined(t))
}

fn lift(function_type: u32) -> ComponentSection {
    ComponentSection::Canon(Canon::Lift { core_func_idx: 0, function_type })
}

fn export(name: &str, kind: ComponentExternalKind, idx: u32) -> ComponentSection {
    ComponentSection::Export(ComponentExport { name: name.to_string(), kind, idx })
}

fn import(name: &str, desc: ComponentTypeRef) -> ComponentSection {
    ComponentSection::Import(ComponentImport { name: name.to_string(), desc })
}

fn message(r: Result<Vec<AnalysedExport>, AnalysisFailure>) -> String {
    match r {
        Err(AnalysisFailure::Failed(m)) => m,
        Ok(v) => panic!("expected a failure, got {:?}", v),
    }
}

#[test]
fn lifted_function_with_primitive_types() {
    let component = Component {
        sections: vec![
            func_type(vec![("a", prim(PrimitiveValueType::U32))], ComponentFuncResult::Unnamed(prim(PrimitiveValueType::Str))),
            lift(0),
            export("f", ComponentExternalKind::Func, 0),
            ComponentSection::Module,
            export("m", ComponentExternalKind::Module, 0),
        ],
    };
    let mut ctx = AnalysisContext::new(&component);
    let exports = ctx.get_top_level_exports().unwrap();
    assert_eq!(
        exports,
        vec![AnalysedExport::Function(AnalysedFunction {
            name: "f".to_string(),
            params: vec![AnalysedFunctionParameter { name: "a".to_string(), typ: AnalysedType::U32 }],
            results: AnalysedFunctionResults::Unnamed(AnalysedType::Str),
        })]
    );
    let warnings = ctx.warnings();
    assert_eq!(warnings.len(), 1);
    match &warnings[0] {
        AnalysisWarning::UnsupportedExport { kind, name } => {
            assert_eq!(*kind, ComponentExternalKind::Module);
            assert_eq!(name, "m");
        },
    }
}

#[test]
fn defined_types_are_followed() {
    let component = Component {
        sections: vec![
            // type 0: record
            defined(ComponentDefinedType::Record {
                fields: vec![
                    ("lower".to_string(), prim(PrimitiveValueType::U64)),
                    ("upper".to_string(), prim(PrimitiveValueType::U64)),
                ],
            }),
            // type 1: result<type 0, string>
            defined(ComponentDefinedType::Result {
                ok: Some(ComponentValType::Defined(0)),
                err: Some(prim(PrimitiveValueType::Str)),
            }),
            // type 2: variant
            defined(ComponentDefinedType::Variant {
                cases: vec![
                    VariantCase { name: "none".to_string(), typ: None, refines: None },
                    VariantCase { name: "one".to_string(), typ: Some(prim(PrimitiveValueType::Chr)), refines: None },
                ],
            }),
            // type 3: list<option<tuple<s8, flags, enum>>>
            defined(ComponentDefinedType::Tuple {
                elems: vec![prim(PrimitiveValueType::S8), ComponentValType::Defined(4), ComponentValType::Defined(5)],
            }),
            defined(ComponentDefinedType::Flags { names: vec!["r".to_string(), "w".to_string()] }),
            defined(ComponentDefinedType::Enum { names: vec!["a".to_string()] }),
            defined(ComponentDefinedType::Option { typ: ComponentValType::Defined(3) }),
            defined(ComponentDefinedType::List { elem: ComponentValType::Defined(6) }),
            defined(ComponentDefinedType::Primitive { typ: PrimitiveValueType::F32 }),
            // type 9: the function type
            func_type(
                vec![("path", prim(PrimitiveValueType::Str)), ("v", ComponentValType::Defined(2)), ("l", ComponentValType::Defined(7))],
                ComponentFuncResult::Named(vec![
                    ("hash".to_string(), ComponentValType::Defined(1)),
                    ("f".to_string(), ComponentValType::Defined(8)),
                ]),
            ),
            lift(9),
            export("hash", ComponentExternalKind::Func, 0),
        ],
    };
    let mut ctx = AnalysisContext::new(&component);
    let exports = ctx.get_top_level_exports().unwrap();
    let record = AnalysedType::Record(vec![
        ("lower".to_string(), AnalysedType::U64),
        ("upper".to_string(), AnalysedType::U64),
    ]);
    let tuple = AnalysedType::Tuple(vec![
        AnalysedType::S8,
        AnalysedType::Flags(vec!["r".to_string(), "w".to_string()]),
        AnalysedType::Enum(vec!["a".to_string()]),
    ]);
    assert_eq!(
        exports,
        vec![AnalysedExport::Function(AnalysedFunction {
            name: "hash".to_string(),
            params: vec![
                AnalysedFunctionParameter { name: "path".to_string(), typ: AnalysedType::Str },
                AnalysedFunctionParameter {
                    name: "v".to_string(),
                    typ: AnalysedType::Variant(vec![
                        ("none".to_string(), None),
                        ("one".to_string(), Some(AnalysedType::Chr)),
                    ]),
                },
                AnalysedFunctionParameter {
                    name: "l".to_string(),
                    typ: AnalysedType::List(Box::new(AnalysedType::Option(Box::new(tuple)))),
                },
            ],
            results: AnalysedFunctionResults::Named(vec![
                NamedFunctionResult {
                    name: "hash".to_string(),
                    typ: AnalysedType::Result { ok: Some(Box::new(record)), error: Some(Box::new(AnalysedType::Str)) },
                },
                NamedFunctionResult { name: "f".to_string(), typ: AnalysedType::F32 },
            ]),
        })]
    );
    assert!(ctx.warnings().is_empty());
}

#[test]
fn empty_named_results_are_unit() {
    let component = Component {
        sections: vec![
            func_type(vec![], ComponentFuncResult::Named(vec![])),
            import("imported", ComponentTypeRef::Func(0)),
            export("g", ComponentExternalKind::Func, 0),
        ],
    };
    let mut ctx = AnalysisContext::new(&component);
    let exports = ctx.get_top_level_exports().unwrap();
    assert_eq!(
        exports,
        vec![AnalysedExport::Function(AnalysedFunction {
            name: "g".to_string(),
            params: vec![],
            results: AnalysedFunctionResults::Unit,
        })]
    );
}

fn resource(id: u64, mode: AnalysedResourceMode) -> AnalysedType {
    AnalysedType::Resource { id: AnalysedResourceId { value: id }, resource_mode: mode }
}

#[test]
fn resources_get_one_identifier_each() {
    let component = Component {
        sections: vec![
            import("cart", ComponentTypeRef::Type(TypeBounds::SubResource)), // type 0
            import("item", ComponentTypeRef::Type(TypeBounds::SubResource)), // type 1
            defined(ComponentDefinedType::Owned { type_idx: 0 }),             // type 2
            defined(ComponentDefinedType::Borrowed { type_idx: 0 }),          // type 3
            defined(ComponentDefinedType::Owned { type_idx: 1 }),             // type 4
            import("cart-again", ComponentTypeRef::Type(TypeBounds::Eq(0))),  // type 5
            defined(ComponentDefinedType::Borrowed { type_idx: 5 }),          // type 6
            func_type(vec![], ComponentFuncResult::Unnamed(ComponentValType::Defined(2))), // type 7
            func_type(
                vec![("self", ComponentValType::Defined(3)), ("item", ComponentValType::Defined(4))],
                ComponentFuncResult::Named(vec![]),
            ), // type 8
            func_type(vec![("self", ComponentValType::Defined(6))], ComponentFuncResult::Named(vec![])), // type 9
            lift(7),
            lift(8),
            lift(9),
            export("[constructor]cart", ComponentExternalKind::Func, 0),
            export("[method]cart.add", ComponentExternalKind::Func, 1),
            export("[method]cart.clear", ComponentExternalKind::Func, 2),
        ],
    };
    let mut ctx = AnalysisContext::new(&component);
    let exports = ctx.get_top_level_exports().unwrap();
    assert_eq!(exports.len(), 3);
    match &exports[0] {
        AnalysedExport::Function(f) => {
            assert!(f.is_constructor());
            assert_eq!(f.results, AnalysedFunctionResults::Unnamed(resource(0, AnalysedResourceMode::Owned)));
        },
        _ => panic!("expected a function"),
    }
    match &exports[1] {
        AnalysedExport::Function(f) => {
            assert!(f.is_method());
            assert_eq!(f.params[0].typ, resource(0, AnalysedResourceMode::Borrowed));
            assert_eq!(f.params[1].typ, resource(1, AnalysedResourceMode::Owned));
        },
        _ => panic!("expected a function"),
    }
    match &exports[2] {
        AnalysedExport::Function(f) => {
            // type 5 is declared equal to type 0, but identifiers go by the index the
            // handle names, so it gets an identifier of its own
            assert_eq!(f.params[0].typ, resource(2, AnalysedResourceMode::Borrowed));
        },
        _ => panic!("expected a function"),
    }
}

fn inner_component() -> Component {
    Component {
        sections: vec![
            // type 0 of the inner component is type 0 of the outer one
            ComponentSection::Alias(Alias::Outer {
                kind: OuterAliasKind::Type,
                target: AliasTarget { count: 1, index: 0 },
            }),
            func_type(vec![("x", ComponentValType::Defined(0))], ComponentFuncResult::Unnamed(prim(PrimitiveValueType::Bool))),
            lift(1),
            export("check", ComponentExternalKind::Func, 0),
            export("t", ComponentExternalKind::Type, 0),
        ],
    }
}

#[test]
fn instance_exports_list_their_functions() {
    let component = Component {
        sections: vec![
            defined(ComponentDefinedType::List { elem: prim(PrimitiveValueType::U8) }),
            ComponentSection::Component(inner_component()),
            ComponentSection::Instance(ComponentInstance::Instantiate { component_idx: 0 }),
            export("api", ComponentExternalKind::Instance, 0),
        ],
    };
    let mut ctx = AnalysisContext::new(&component);
    let exports = ctx.get_top_level_exports().unwrap();
    assert_eq!(
        exports,
        vec![AnalysedExport::Instance(AnalysedInstance {
            name: "api".to_string(),
            funcs: vec![AnalysedFunction {
                name: "check".to_string(),
                params: vec![AnalysedFunctionParameter {
                    name: "x".to_string(),
                    typ: AnalysedType::List(Box::new(AnalysedType::U8)),
                }],
                results: AnalysedFunctionResults::Unnamed(AnalysedType::Bool),
            }],
        })]
    );
    let warnings = ctx.warnings();
    assert_eq!(warnings.len(), 1);
    match &warnings[0] {
        AnalysisWarning::UnsupportedExport { kind, name } => {
            assert_eq!(*kind, ComponentExternalKind::Type);
            assert_eq!(name, "t");
        },
    }
}

#[test]
fn aliased_instance_exports_are_followed() {
    let component = Component {
        sections: vec![
            defined(ComponentDefinedType::List { elem: prim(PrimitiveValueType::U8) }),
            ComponentSection::Component(inner_component()),
            ComponentSection::Instance(ComponentInstance::Instantiate { component_idx: 0 }),
            ComponentSection::Alias(Alias::InstanceExport {
                kind: ComponentExternalKind::Func,
                instance_idx: 0,
                name: "check".to_string(),
            }),
            export("check-again", ComponentExternalKind::Func, 0),
        ],
    };
    let mut ctx = AnalysisContext::new(&component);
    let exports = ctx.get_top_level_exports().unwrap();
    assert_eq!(
        exports,
        vec![AnalysedExport::Function(AnalysedFunction {
            name: "check-again".to_string(),
            params: vec![AnalysedFunctionParameter {
                name: "x".to_string(),
                typ: AnalysedType::List(Box::new(AnalysedType::U8)),
            }],
            results: AnalysedFunctionResults::Unnamed(AnalysedType::Bool),
        })]
    );
}

#[test]
fn missing_function_fails() {
    let component = Component { sections: vec![export("f", ComponentExternalKind::Func, 5)] };
    let mut ctx = AnalysisContext::new(&component);
    assert_eq!(message(ctx.get_top_level_exports()), "Missing component function 5");

    // "f" exports function 0, an alias of export "x" of an instance, which is function 3,
    // which does not exist
    let component = Component {
        sections: vec![
            ComponentSection::Instance(ComponentInstance::FromExports {
                exports: vec![ComponentExport { name: "x".to_string(), kind: ComponentExternalKind::Func, idx: 3 }],
            }),
            ComponentSection::Alias(Alias::InstanceExport {
                kind: ComponentExternalKind::Func,
                instance_idx: 0,
                name: "x".to_string(),
            }),
            export("f", ComponentExternalKind::Func, 0),
        ],
    };
    let mut ctx = AnalysisContext::new(&component);
    assert_eq!(message(ctx.get_top_level_exports()), "Missing function 3");

    let component = Component {
        sections: vec![
            ComponentSection::Instance(ComponentInstance::FromExports { exports: vec![] }),
            ComponentSection::Alias(Alias::InstanceExport {
                kind: ComponentExternalKind::Func,
                instance_idx: 0,
                name: "nope".to_string(),
            }),
            export("f", ComponentExternalKind::Func, 0),
        ],
    };
    let mut ctx = AnalysisContext::new(&component);
    assert_eq!(
        message(ctx.get_top_level_exports()),
        "Missing missing aliased instance export nope from instance 0"
    );
}

#[test]
fn function_types_must_be_function_types() {
    let component = Component {
        sections: vec![
            defined(ComponentDefinedType::Primitive { typ: PrimitiveValueType::U8 }),
            lift(0),
            export("f", ComponentExternalKind::Func, 0),
        ],
    };
    let mut ctx = AnalysisContext::new(&component);
    assert_eq!(message(ctx.get_top_level_exports()), "Expected function type, but got type instead");

    let component = Component { sections: vec![lift(3), export("f", ComponentExternalKind::Func, 0)] };
    let mut ctx = AnalysisContext::new(&component);
    assert_eq!(message(ctx.get_top_level_exports()), "Missing component function type 3");
}

#[test]
fn unsupported_parameter_types_fail() {
    let cases: Vec<(ComponentType, &str)> = vec![
        (
            ComponentType::Func(ComponentFuncType { params: vec![], result: ComponentFuncResult::Named(vec![]) }),
            "Passing functions in exported functions is not supported",
        ),
        (ComponentType::Component, "Passing components in exported functions is not supported"),
        (ComponentType::Instance, "Passing instances in exported functions is not supported"),
        (ComponentType::Resource { dtor: None }, "Passing resources in exported functions is not supported"),
    ];
    for (t, expected) in cases {
        let component = Component {
            sections: vec![
                ComponentSection::Type(t),
                func_type(vec![("p", ComponentValType::Defined(0))], ComponentFuncResult::Named(vec![])),
                lift(1),
                export("f", ComponentExternalKind::Func, 0),
            ],
        };
        let mut ctx = AnalysisContext::new(&component);
        assert_eq!(message(ctx.get_top_level_exports()), expected);
    }
}

#[test]
fn sub_resource_needs_a_handle() {
    let component = Component {
        sections: vec![
            import("r", ComponentTypeRef::Type(TypeBounds::SubResource)),
            func_type(vec![("p", ComponentValType::Defined(0))], ComponentFuncResult::Named(vec![])),
            lift(1),
            export("f", ComponentExternalKind::Func, 0),
        ],
    };
    let mut ctx = AnalysisContext::new(&component);
    assert_eq!(
        message(ctx.get_top_level_exports()),
        "Reached a sub-resource type bound without a surrounding borrowed/owned resource type"
    );
}

#[test]
fn instances_from_exports_are_not_supported() {
    let component = Component {
        sections: vec![
            ComponentSection::Instance(ComponentInstance::FromExports { exports: vec![] }),
            export("i", ComponentExternalKind::Instance, 0),
        ],
    };
    let mut ctx = AnalysisContext::new(&component);
    assert_eq!(
        message(ctx.get_top_level_exports()),
        "Instance defined directly from exports are not supported"
    );
}

#[test]
fn exports_of_the_wrong_kind_fail() {
    // "check" is aliased as a function but the inner component exports a type under that name
    let inner = Component {
        sections: vec![
            defined(ComponentDefinedType::Primitive { typ: PrimitiveValueType::U8 }),
            export("check", ComponentExternalKind::Type, 0),
        ],
    };
    let component = Component {
        sections: vec![
            ComponentSection::Component(inner),
            ComponentSection::Instance(ComponentInstance::Instantiate { component_idx: 0 }),
            ComponentSection::Alias(Alias::InstanceExport {
                kind: ComponentExternalKind::Func,
                instance_idx: 0,
                name: "check".to_string(),
            }),
            export("f", ComponentExternalKind::Func, 0),
        ],
    };
    let mut ctx = AnalysisContext::new(&component);
    assert_eq!(
        message(ctx.get_top_level_exports()),
        "Expected canonical lift function or function import, but got type instead"
    );
}

#[test]
fn outer_alias_below_the_stack_fails() {
    let inner = Component {
        sections: vec![
            ComponentSection::Alias(Alias::Outer {
                kind: OuterAliasKind::Type,
                target: AliasTarget { count: 2, index: 0 },
            }),
            func_type(vec![("x", ComponentValType::Defined(0))], ComponentFuncResult::Named(vec![])),
            lift(1),
            export("f", ComponentExternalKind::Func, 0),
        ],
    };
    let component = Component {
        sections: vec![
            ComponentSection::Component(inner),
            ComponentSection::Instance(ComponentInstance::Instantiate { component_idx: 0 }),
            export("i", ComponentExternalKind::Instance, 0),
        ],
    };
    let mut ctx = AnalysisContext::new(&component);
    assert_eq!(message(ctx.get_top_level_exports()), "Component stack underflow (count=2, size=2");
}

#[test]
fn core_aliases_are_not_supported() {
    let inner = Component {
        sections: vec![
            ComponentSection::Alias(Alias::Outer {
                kind: OuterAliasKind::CoreModule,
                target: AliasTarget { count: 1, index: 0 },
            }),
            export("m", ComponentExternalKind::Module, 0),
            ComponentSection::Alias(Alias::Outer {
                kind: OuterAliasKind::Component,
                target: AliasTarget { count: 1, index: 4 },
            }),
            ComponentSection::Instance(ComponentInstance::Instantiate { component_idx: 0 }),
            ComponentSection::Alias(Alias::InstanceExport {
                kind: ComponentExternalKind::Func,
                instance_idx: 0,
                name: "x".to_string(),
            }),
            export("f", ComponentExternalKind::Func, 0),
        ],
    };
    let component = Component {
        sections: vec![
            ComponentSection::Component(inner),
            ComponentSection::Instance(ComponentInstance::Instantiate { component_idx: 0 }),
            export("i", ComponentExternalKind::Instance, 0),
        ],
    };
    let mut ctx = AnalysisContext::new(&component);
    assert_eq!(message(ctx.get_top_level_exports()), "Missing component 4");
}

#[test]
fn parameter_types_must_be_types() {
    let inner = Component {
        sections: vec![
            func_type(vec![], ComponentFuncResult::Named(vec![])),
            lift(0),
            export("g", ComponentExternalKind::Func, 0),
        ],
    };
    let component = Component {
        sections: vec![
            ComponentSection::Component(inner),
            ComponentSection::Instance(ComponentInstance::Instantiate { component_idx: 0 }),
            ComponentSection::Alias(Alias::InstanceExport {
                kind: ComponentExternalKind::Type,
                instance_idx: 0,
                name: "g".to_string(),
            }),
            func_type(vec![("p", ComponentValType::Defined(0))], ComponentFuncResult::Named(vec![])),
            lift(1),
            export("f", ComponentExternalKind::Func, 0),
        ],
    };
    let mut ctx = AnalysisContext::new(&component);
    assert_eq!(
        message(ctx.get_top_level_exports()),
        "Expected component type, but got canonical function instead"
    );
}

#[test]
fn core_module_aliases_are_not_supported() {
    let component = Component {
        sections: vec![
            ComponentSection::Alias(Alias::Outer {
                kind: OuterAliasKind::CoreModule,
                target: AliasTarget { count: 0, index: 0 },
            }),
            ComponentSection::Instance(ComponentInstance::FromExports {
                exports: vec![ComponentExport { name: "x".to_string(), kind: ComponentExternalKind::Module, idx: 0 }],
            }),
            ComponentSection::Alias(Alias::InstanceExport {
                kind: ComponentExternalKind::Func,
                instance_idx: 0,
                name: "x".to_string(),
            }),
            export("f", ComponentExternalKind::Func, 0),
        ],
    };
    let mut ctx = AnalysisContext::new(&component);
    assert_eq!(message(ctx.get_top_level_exports()), "Core module aliases are not supported");
}

#[test]
fn aliased_exports_need_an_instance() {
    let component = Component {
        sections: vec![
            import("i", ComponentTypeRef::Instance(0)),
            ComponentSection::Alias(Alias::InstanceExport {
                kind: ComponentExternalKind::Func,
                instance_idx: 0,
                name: "x".to_string(),
            }),
            export("f", ComponentExternalKind::Func, 0),
        ],
    };
    let mut ctx = AnalysisContext::new(&component);
    assert_eq!(message(ctx.get_top_level_exports()), "Expected instance, but got import instead");
}

#[test]
fn warnings_accumulate_over_calls() {
    let component = Component {
        sections: vec![ComponentSection::Module, export("m", ComponentExternalKind::Module, 0)],
    };
    let mut ctx = AnalysisContext::new(&component);
    assert!(ctx.warnings().is_empty());
    assert_eq!(ctx.get_top_level_exports().unwrap(), vec![]);
    assert_eq!(ctx.warnings().len(), 1);
    assert_eq!(ctx.get_top_level_exports().unwrap(), vec![]);
    assert_eq!(ctx.warnings().len(), 2);
}

#[test]
fn import_debug_text() {
    assert_eq!(ComponentTypeRef::Module(3).debug_text(), format!("{:?}", ComponentTypeRef::Module(3)));
    assert_eq!(
        ComponentTypeRef::Value(ComponentValType::Primitive(PrimitiveValueType::U8)).debug_text(),
        "Value(Primitive(U8))"
    );
    assert_eq!(ComponentTypeRef::Value(ComponentValType::Defined(12)).debug_text(), "Value(Defined(12))");
    assert_eq!(ComponentTypeRef::Type(TypeBounds::Eq(40)).debug_text(), "Type(Eq(40))");
    assert_eq!(ComponentTypeRef::Type(TypeBounds::SubResource).debug_text(), "Type(SubResource)");
    assert_eq!(ComponentTypeRef::Component(1000).debug_text(), "Component(1000)");
}

#[test]
fn second_analysis_gives_the_same_exports() {
    let component = Component {
        sections: vec![
            import("cart", ComponentTypeRef::Type(TypeBounds::SubResource)),
            import("item", ComponentTypeRef::Type(TypeBounds::SubResource)),
            defined(ComponentDefinedType::Owned { type_idx: 1 }),
            defined(ComponentDefinedType::Borrowed { type_idx: 0 }),
            func_type(
                vec![("self", ComponentValType::Defined(3)), ("item", ComponentValType::Defined(2))],
                ComponentFuncResult::Named(vec![]),
            ),
            lift(4),
            export("[method]cart.add", ComponentExternalKind::Func, 0),
            ComponentSection::Module,
            export("m", ComponentExternalKind::Module, 0),
        ],
    };
    let mut ctx = AnalysisContext::new(&component);
    let first = ctx.get_top_level_exports().unwrap();
    let second = ctx.get_top_level_exports().unwrap();
    assert_eq!(first, second);
    match &first[0] {
        AnalysedExport::Function(f) => {
            assert_eq!(f.params[0].typ, resource(0, AnalysedResourceMode::Borrowed));
            assert_eq!(f.params[1].typ, resource(1, AnalysedResourceMode::Owned));
        },
        _ => panic!("expected a function"),
    }
    assert_eq!(ctx.warnings().len(), 2);
}
