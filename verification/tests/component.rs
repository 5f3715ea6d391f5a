use golem_wasm_ast::analysed::{AnalysedFunction, AnalysedFunctionParameter, AnalysedFunctionResults, AnalysedResourceId, AnalysedResourceMode, AnalysedType};
use golem_wasm_ast::component::{
    Alias, AliasTarget, Canon, Component, ComponentExport, ComponentExternalKind, ComponentImport,
    ComponentInstance, ComponentSection, ComponentType, ComponentTypeRef, OuterAliasKind, TypeBounds,
};
use golem_wasm_ast::text::{concat2, starts_with, u32_to_decimal, usize_to_decimal};

fn sample() -> Component {
    Component {
        sections: vec![
            ComponentSection::Module,                                                        // module 0
            ComponentSection::Type(ComponentType::Instance),                                 // type 0
            ComponentSection::Import(ComponentImport {
                name: "t".to_string(),
                desc: ComponentTypeRef::Type(TypeBounds::SubResource),
            }),                                                                              // type 1
            ComponentSection::Canon(Canon::Lower { func_idx: 0 }),                           // core function
            ComponentSection::Canon(Canon::Lift { core_func_idx: 0, function_type: 0 }),     // func 0
            ComponentSection::Alias(Alias::Outer {
                kind: OuterAliasKind::Type,
                target: AliasTarget { count: 1, index: 0 },
            }),                                                                              // type 2
            ComponentSection::Instance(ComponentInstance::FromExports { exports: vec![] }), // instance 0
            ComponentSection::Export(ComponentExport {
                name: "f".to_string(),
                kind: ComponentExternalKind::Func,
                idx: 0,
            }),                                                                              // func 1
            ComponentSection::Component(Component { sections: vec![] }),                    // component 0
        ],
    }
}

#[test]
fn index_spaces_count_their_own_items() {
    let c = sample();
    assert!(matches!(c.get_module(0), Some(ComponentSection::Module)));
    assert!(c.get_module(1).is_none());
    assert!(matches!(c.get_component_type(0), Some(ComponentSection::Type(ComponentType::Instance))));
    assert!(matches!(c.get_component_type(1), Some(ComponentSection::Import(_))));
    assert!(matches!(c.get_component_type(2), Some(ComponentSection::Alias(Alias::Outer { .. }))));
    assert!(c.get_component_type(3).is_none());
    assert!(matches!(c.get_component_func(0), Some(ComponentSection::Canon(Canon::Lift { .. }))));
    assert!(matches!(c.get_component_func(1), Some(ComponentSection::Export(_))));
    assert!(c.get_component_func(2).is_none());
    assert!(matches!(c.get_instance_wrapped(0), Some(ComponentSection::Instance(_))));
    assert!(matches!(c.get_component(0), Some(ComponentSection::Component(_))));
    assert!(c.get_value(0).is_none());
    let exports = c.exports();
    assert_eq!(exports.len(), 1);
    assert_eq!(exports[0].name, "f");
    assert_eq!(c.sections[4].kind_name(), "canonical function");
    assert_eq!(c.sections[5].kind_name(), "alias");
}

#[test]
fn text_helpers() {
    assert!(starts_with("[method]x", "[method]"));
    assert!(starts_with("abc", ""));
    assert!(!starts_with("ab", "abc"));
    assert!(!starts_with("abd", "abc"));
    assert_eq!(u32_to_decimal(0), "0");
    assert_eq!(u32_to_decimal(7), "7");
    assert_eq!(u32_to_decimal(10), "10");
    assert_eq!(u32_to_decimal(u32::MAX), "4294967295");
    assert_eq!(usize_to_decimal(1203), "1203");
    assert_eq!(concat2("ab", "cd"), "abcd");
}

#[test]
fn function_kinds_exclude_each_other() {
    let owned = AnalysedType::Resource { id: AnalysedResourceId { value: 1 }, resource_mode: AnalysedResourceMode::Owned };
    let borrowed = AnalysedType::Resource { id: AnalysedResourceId { value: 1 }, resource_mode: AnalysedResourceMode::Borrowed };
    let cons = AnalysedFunction {
        name: "[constructor]r".to_string(),
        params: vec![AnalysedFunctionParameter { name: "self".to_string(), typ: borrowed }],
        results: AnalysedFunctionResults::Unnamed(owned),
    };
    assert!(cons.is_constructor());
    assert!(!cons.is_method());
    assert!(!cons.is_static_method());
}
