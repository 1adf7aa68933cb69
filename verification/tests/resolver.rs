use wasm_engine::resolver::{
    is_compatible_memory, is_compatible_memory_style, is_compatible_table, link_import, pick_answer,
    resolve_imports, ChainableNamedResolver, Export, ExportFunction, ExportFunctionMetadata,
    ImportFunctionEnv, Imports, LinkError, NamedResolver, NullResolver, Resolver, VMFunction,
    VMFunctionImport, VMFunctionKind, VMGlobal, VMImport, VMImportType, VMMemory, VMTable,
};
use wasm_engine::sig_registry::VMSharedSignatureIndex;
use wasm_engine::types::{
    GlobalType, MemoryStyle, MemoryType, Mutability, Pages, TableType, ValType,
};
use wasm_engine::vm::FunctionBodyPtr;

fn table(ty: ValType, minimum: u32, maximum: Option<u32>) -> TableType {
    TableType { ty, minimum, maximum }
}

fn memory(minimum: u32, maximum: Option<u32>, shared: bool) -> MemoryType {
    MemoryType { minimum: Pages(minimum), maximum: maximum.map(Pages), shared }
}

fn function_export(signature: u32, kind: VMFunctionKind) -> Export {
    Export::Function(ExportFunction {
        vm_function: VMFunction {
            address: 0x1000,
            host_env: 0x2000,
            signature: VMSharedSignatureIndex::new(signature),
            kind,
        },
        metadata: None,
    })
}

fn import(no: u32, module: &str, field: &str, ty: VMImportType) -> VMImport {
    VMImport { import_no: no, module: module.to_string(), field: field.to_string(), ty }
}

struct OneFunction;

impl NamedResolver for OneFunction {
    fn resolve_by_name(&self, module: &str, field: &str) -> Option<Export> {
        if module == "env" && field == "f" {
            Some(function_export(7, VMFunctionKind::Static))
        } else {
            None
        }
    }
}

struct OneGlobal;

impl NamedResolver for OneGlobal {
    fn resolve_by_name(&self, module: &str, field: &str) -> Option<Export> {
        if module == "env" && field == "g" {
            Some(Export::Global(VMGlobal {
                definition: 0x3000,
                ty: GlobalType { ty: ValType::I32, mutability: Mutability::Const },
            }))
        } else if module == "env" && field == "f" {
            Some(function_export(9, VMFunctionKind::Static))
        } else {
            None
        }
    }
}

#[test]
fn table_compatibility() {
    let im = table(ValType::FuncRef, 2, Some(10));
    assert!(is_compatible_table(&table(ValType::FuncRef, 2, Some(10)), &im));
    assert!(is_compatible_table(&table(ValType::FuncRef, 5, Some(7)), &im));
    // too small
    assert!(!is_compatible_table(&table(ValType::FuncRef, 1, Some(10)), &im));
    // no maximum where one is asked for
    assert!(!is_compatible_table(&table(ValType::FuncRef, 2, None), &im));
    // maximum too large
    assert!(!is_compatible_table(&table(ValType::FuncRef, 2, Some(11)), &im));
    // other element type
    assert!(!is_compatible_table(&table(ValType::ExternRef, 2, Some(10)), &im));
    // an import without a maximum takes any maximum
    let open = table(ValType::FuncRef, 2, None);
    assert!(is_compatible_table(&table(ValType::FuncRef, 2, Some(11)), &open));
    assert!(is_compatible_table(&table(ValType::FuncRef, 3, None), &open));
}

#[test]
fn memory_compatibility() {
    let im = memory(1, Some(4), false);
    assert!(is_compatible_memory(&memory(1, Some(4), false), &im));
    assert!(is_compatible_memory(&memory(2, Some(3), false), &im));
    assert!(!is_compatible_memory(&memory(0, Some(4), false), &im));
    assert!(!is_compatible_memory(&memory(1, None, false), &im));
    assert!(!is_compatible_memory(&memory(1, Some(5), false), &im));
    assert!(!is_compatible_memory(&memory(1, Some(4), true), &im));
}

#[test]
fn memory_style_compatibility() {
    let stat = |bound: u32, guard: u64| MemoryStyle::Static {
        bound: Pages(bound),
        offset_guard_size: guard,
    };
    let dynamic = |guard: u64| MemoryStyle::Dynamic { offset_guard_size: guard };
    assert!(is_compatible_memory_style(&stat(10, 4096), &stat(10, 4096)));
    assert!(is_compatible_memory_style(&stat(11, 8192), &stat(10, 4096)));
    assert!(!is_compatible_memory_style(&stat(9, 4096), &stat(10, 4096)));
    assert!(!is_compatible_memory_style(&stat(10, 1024), &stat(10, 4096)));
    assert!(is_compatible_memory_style(&dynamic(4096), &stat(10, 4096)));
    assert!(is_compatible_memory_style(&stat(1, 4096), &dynamic(4096)));
    assert!(!is_compatible_memory_style(&dynamic(0), &dynamic(1)));
}

#[test]
fn missing_import_is_unknown() {
    // Module imports `env.f` as `(i32) -> ()`; the resolver knows nothing.
    let imports = [import(0, "env", "f", VMImportType::Function(VMSharedSignatureIndex::new(3)))];
    let result = resolve_imports(&NullResolver {}, &imports, &[FunctionBodyPtr(0)]);
    match result {
        Err(LinkError::UnknownImport { module, field, expected }) => {
            assert_eq!(module, "env");
            assert_eq!(field, "f");
            assert_eq!(expected, VMImportType::Function(VMSharedSignatureIndex::new(3)));
        }
        other => panic!("unexpected result: {:?}", other),
    }
}

#[test]
fn function_import_with_other_signature_is_incompatible() {
    let imports = [import(0, "env", "f", VMImportType::Function(VMSharedSignatureIndex::new(3)))];
    let result = resolve_imports(&OneFunction, &imports, &[FunctionBodyPtr(0)]);
    match result {
        Err(LinkError::IncompatibleType { module, field, expected, actual }) => {
            assert_eq!(module, "env");
            assert_eq!(field, "f");
            assert_eq!(expected, VMImportType::Function(VMSharedSignatureIndex::new(3)));
            assert_eq!(actual, VMImportType::Function(VMSharedSignatureIndex::new(7)));
        }
        other => panic!("unexpected result: {:?}", other),
    }
}

#[test]
fn function_import_is_linked() {
    let imports = [import(0, "env", "f", VMImportType::Function(VMSharedSignatureIndex::new(7)))];
    let linked = resolve_imports(&OneFunction, &imports, &[FunctionBodyPtr(0x9000)]).unwrap();
    assert_eq!(
        linked.functions,
        vec![VMFunctionImport {
            body: FunctionBodyPtr(0x1000),
            signature: VMSharedSignatureIndex::new(7),
            environment: 0x2000,
        }]
    );
    assert_eq!(linked.host_function_env_initializers, vec![ImportFunctionEnv::NoEnv]);
    assert!(linked.tables.is_empty());
    assert!(linked.memories.is_empty());
    assert!(linked.globals.is_empty());
}

#[test]
fn no_imports_resolve_to_no_imports() {
    let linked = resolve_imports(&NullResolver {}, &[], &[]).unwrap();
    assert!(linked.functions.is_empty());
    assert!(linked.globals.is_empty());
}

#[test]
fn dynamic_function_is_entered_through_its_trampoline() {
    let mut imports = Imports::new();
    let first = import(0, "env", "a", VMImportType::Function(VMSharedSignatureIndex::new(1)));
    let second = import(1, "env", "b", VMImportType::Function(VMSharedSignatureIndex::new(2)));
    let trampolines = [FunctionBodyPtr(0xA000), FunctionBodyPtr(0xB000)];
    let with_env = Export::Function(ExportFunction {
        vm_function: VMFunction {
            address: 0x1000,
            host_env: 0x2000,
            signature: VMSharedSignatureIndex::new(1),
            kind: VMFunctionKind::Static,
        },
        metadata: Some(ExportFunctionMetadata {
            import_init_function_ptr: Some(0x10),
            host_env_clone_fn: 0x20,
            host_env_drop_fn: 0x30,
        }),
    });
    assert!(link_import(&mut imports, &first, Some(with_env), &trampolines).is_ok());
    assert!(link_import(
        &mut imports,
        &second,
        Some(function_export(2, VMFunctionKind::Dynamic)),
        &trampolines
    )
    .is_ok());
    assert_eq!(imports.functions[0].body, FunctionBodyPtr(0x1000));
    assert_eq!(imports.functions[1].body, FunctionBodyPtr(0xB000));
    assert_eq!(
        imports.host_function_env_initializers[0],
        ImportFunctionEnv::Env {
            env: 0x2000,
            clone: 0x20,
            initializer: Some(0x10),
            destructor: 0x30,
        }
    );
    assert_eq!(imports.host_function_env_initializers[1], ImportFunctionEnv::NoEnv);
}

#[test]
fn kinds_must_match() {
    let mut imports = Imports::new();
    let wants_table = import(0, "env", "t", VMImportType::Table(table(ValType::FuncRef, 1, None)));
    let gives_memory = Export::Memory(VMMemory {
        definition: 0x100,
        ty: memory(1, None, false),
        style: MemoryStyle::Dynamic { offset_guard_size: 0 },
    });
    match link_import(&mut imports, &wants_table, Some(gives_memory), &[]) {
        Err(LinkError::IncompatibleType { expected, actual, .. }) => {
            assert_eq!(expected, VMImportType::Table(table(ValType::FuncRef, 1, None)));
            assert_eq!(
                actual,
                VMImportType::Memory(
                    memory(1, None, false),
                    MemoryStyle::Dynamic { offset_guard_size: 0 }
                )
            );
        }
        other => panic!("unexpected result: {:?}", other),
    }
    assert!(imports.tables.is_empty());
    let gives_table = Export::Table(VMTable { definition: 0x200, ty: table(ValType::FuncRef, 1, None) });
    assert!(link_import(&mut imports, &wants_table, Some(gives_table), &[]).is_ok());
    assert_eq!(imports.tables.len(), 1);
    assert_eq!(imports.tables[0].definition, 0x200);
}

#[test]
fn global_types_must_be_equal() {
    let mut imports = Imports::new();
    let wants = import(
        0,
        "env",
        "g",
        VMImportType::Global(GlobalType { ty: ValType::I32, mutability: Mutability::Var }),
    );
    let constant = Export::Global(VMGlobal {
        definition: 0x300,
        ty: GlobalType { ty: ValType::I32, mutability: Mutability::Const },
    });
    assert!(link_import(&mut imports, &wants, Some(constant), &[]).is_err());
    let variable = Export::Global(VMGlobal {
        definition: 0x300,
        ty: GlobalType { ty: ValType::I32, mutability: Mutability::Var },
    });
    assert!(link_import(&mut imports, &wants, Some(variable), &[]).is_ok());
    assert_eq!(imports.globals[0].definition, 0x300);
}

#[test]
fn chain_asks_the_front_first() {
    let front = OneFunction.chain_front(OneGlobal);
    // `OneGlobal` is in front: its `f` has signature 9.
    match front.resolve_by_name("env", "f") {
        Some(Export::Function(f)) => assert_eq!(f.vm_function.signature, VMSharedSignatureIndex::new(9)),
        other => panic!("unexpected answer: {:?}", other),
    }
    let back = OneFunction.chain_back(OneGlobal);
    match back.resolve_by_name("env", "f") {
        Some(Export::Function(f)) => assert_eq!(f.vm_function.signature, VMSharedSignatureIndex::new(7)),
        other => panic!("unexpected answer: {:?}", other),
    }
    assert!(matches!(back.resolve_by_name("env", "g"), Some(Export::Global(_))));
    assert!(back.resolve_by_name("env", "h").is_none());
    assert!(back.resolve(0, "env", "g").is_some());
}

#[test]
fn null_resolver_resolves_nothing() {
    assert!(NullResolver {}.resolve(0, "env", "f").is_none());
    assert!(().resolve_by_name("env", "f").is_none());
    assert!(().resolve(3, "env", "f").is_none());
    assert!(resolve_imports(&(), &[], &[]).is_ok());
}

#[test]
fn a_borrowed_resolver_resolves_as_the_resolver_does() {
    let resolver = OneFunction;
    let borrowed = &resolver;
    assert!(borrowed.resolve_by_name("env", "f").is_some());
    assert!(borrowed.resolve_by_name("env", "g").is_none());
}

#[test]
fn first_answer_wins() {
    let a = function_export(1, VMFunctionKind::Static);
    let b = function_export(2, VMFunctionKind::Static);
    assert_eq!(pick_answer(Some(a), Some(b)), Some(a));
    assert_eq!(pick_answer(None, Some(b)), Some(b));
    assert_eq!(pick_answer(None, None), None);
}

#[test]
fn an_unknown_function_import_needs_no_trampoline() {
    let imports = [import(0, "env", "f", VMImportType::Function(VMSharedSignatureIndex::new(1)))];
    match resolve_imports(&NullResolver {}, &imports, &[]) {
        Err(LinkError::UnknownImport { module, field, expected }) => {
            assert_eq!(module, "env");
            assert_eq!(field, "f");
            assert_eq!(expected, VMImportType::Function(VMSharedSignatureIndex::new(1)));
        }
        _ => panic!("an import that nothing resolves was linked"),
    }
}

#[test]
fn a_static_function_needs_no_trampoline() {
    let imports = [import(0, "env", "f", VMImportType::Function(VMSharedSignatureIndex::new(7)))];
    let linked = resolve_imports(&OneFunction, &imports, &[]).unwrap();
    assert_eq!(linked.functions.len(), 1);
    assert_eq!(linked.functions[0].body, FunctionBodyPtr(0x1000));
}

#[test]
fn a_dynamic_function_without_a_trampoline_is_not_linked() {
    let mut imports = Imports::new();
    let first = import(0, "env", "a", VMImportType::Function(VMSharedSignatureIndex::new(2)));
    match link_import(&mut imports, &first, Some(function_export(2, VMFunctionKind::Dynamic)), &[]) {
        Err(LinkError::Resource(message)) => {
            assert_eq!(message, "no trampoline was made for the dynamic function import")
        }
        _ => panic!("a dynamic function was linked without a trampoline"),
    }
    assert!(imports.functions.is_empty());
    assert!(imports.host_function_env_initializers.is_empty());
    let trampolines = [FunctionBodyPtr(0xA000)];
    assert!(link_import(
        &mut imports,
        &first,
        Some(function_export(2, VMFunctionKind::Dynamic)),
        &trampolines
    )
    .is_ok());
    assert_eq!(imports.functions[0].body, FunctionBodyPtr(0xA000));
}
