use wasm_engine::sig_registry::{SignatureRegistry, VMSharedSignatureIndex};
use wasm_engine::types::{FunctionType, ValType};

fn unary() -> FunctionType {
    FunctionType::new(vec![ValType::I32], vec![ValType::I32])
}

fn nullary() -> FunctionType {
    FunctionType::new(vec![], vec![ValType::I32])
}

#[test]
fn same_type_registers_to_same_index() {
    let mut registry = SignatureRegistry::new();
    let a = registry.register(unary().as_ref());
    let b = registry.register(unary().as_ref());
    assert_eq!(a, b);
    assert_eq!(a, VMSharedSignatureIndex::new(0));
}

#[test]
fn different_types_register_to_different_indices() {
    let mut registry = SignatureRegistry::new();
    let a = registry.register(unary().as_ref());
    let b = registry.register(nullary().as_ref());
    let c = registry.register(unary().as_ref());
    assert_ne!(a, b);
    assert_eq!(a, c);
    assert_eq!(b, VMSharedSignatureIndex::new(1));
}

#[test]
fn lookup_gives_the_registered_type() {
    let mut registry = SignatureRegistry::new();
    let a = registry.register(unary().as_ref());
    let b = registry.register(nullary().as_ref());
    assert!(registry.lookup(a).unwrap().same(&unary()));
    assert!(registry.lookup(b).unwrap().same(&nullary()));
    assert!(registry.lookup(VMSharedSignatureIndex::new(2)).is_none());
}

#[test]
fn try_register_registers_where_there_is_room() {
    let mut registry = SignatureRegistry::new();
    assert!(registry.has_room());
    assert_eq!(registry.try_register(unary().as_ref()), Some(VMSharedSignatureIndex::new(0)));
    assert_eq!(registry.try_register(unary().as_ref()), Some(VMSharedSignatureIndex::new(0)));
    assert_eq!(registry.try_register(nullary().as_ref()), Some(VMSharedSignatureIndex::new(1)));
}

#[test]
fn function_types_compare_by_params_and_results() {
    let a = FunctionType::new(vec![ValType::I32, ValType::I64], vec![]);
    let b = FunctionType::new(vec![ValType::I32], vec![ValType::I64]);
    assert!(!a.same(&b));
    assert!(a.same(&a.clone()));
    assert_eq!(a.params(), &[ValType::I32, ValType::I64]);
    assert_eq!(b.results(), &[ValType::I64]);
}
