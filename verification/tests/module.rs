use wasm_engine::indices::{
    CustomSectionIndex, ElemIndex, ExportIndex, FunctionIndex, GlobalIndex, LocalFunctionIndex,
    LocalGlobalIndex, LocalMemoryIndex, LocalTableIndex, MemoryIndex, SignatureIndex, TableIndex,
};
use wasm_engine::module::{EntityCounts, ExportsIterator, ImportsIterator, ModuleId, ModuleInfo};
use wasm_engine::types::{
    ExportType, ExternType, FunctionType, GlobalType, Import, MemoryType, Mutability, Pages,
    TableType, ValType,
};

fn sample_module() -> ModuleInfo {
    let mut module = ModuleInfo::new(ModuleId::new(7));
    module.signatures.push(FunctionType::new(vec![ValType::I32], vec![]));
    module.signatures.push(FunctionType::new(vec![], vec![ValType::I32]));
    // two imported functions and three local ones
    module.functions.push(SignatureIndex::new(0));
    module.functions.push(SignatureIndex::new(1));
    module.functions.push(SignatureIndex::new(1));
    module.functions.push(SignatureIndex::new(0));
    module.functions.push(SignatureIndex::new(1));
    module.import_counts = EntityCounts { functions: 2, tables: 0, memories: 1, globals: 0 };
    module.tables.push(TableType { ty: ValType::FuncRef, minimum: 2, maximum: None });
    module.memories.push(MemoryType { minimum: Pages(1), maximum: None, shared: false });
    module.memories.push(MemoryType { minimum: Pages(16), maximum: Some(Pages(144)), shared: false });
    module.globals.push(GlobalType { ty: ValType::I64, mutability: Mutability::Var });
    module.exports.insert("f".to_string(), ExportIndex::Function(FunctionIndex::new(2)));
    module.exports.insert("memory".to_string(), ExportIndex::Memory(MemoryIndex::new(1)));
    module.exports.insert("g".to_string(), ExportIndex::Function(FunctionIndex::new(3)));
    module.exports.insert("table".to_string(), ExportIndex::Table(TableIndex::new(0)));
    module.exports.insert("counter".to_string(), ExportIndex::Global(GlobalIndex::new(0)));
    module.custom_sections.insert("name".to_string(), CustomSectionIndex::new(0));
    module.custom_sections.insert("producers".to_string(), CustomSectionIndex::new(1));
    module.custom_sections_data.push(vec![1, 2, 3]);
    module.custom_sections_data.push(vec![4, 5]);
    module.passive_elements.insert(3, vec![FunctionIndex::new(2), FunctionIndex::new(4)]);
    module
}

#[test]
fn local_and_full_indices_round_trip() {
    let module = sample_module();
    for local in 0..3 {
        let full = module.func_index(LocalFunctionIndex::new(local));
        assert_eq!(full, FunctionIndex::new(2 + local));
        assert!(!module.is_imported_function(full));
        assert_eq!(module.local_func_index(full), Some(LocalFunctionIndex::new(local)));
    }
    for imported in 0..2 {
        let full = FunctionIndex::new(imported);
        assert!(module.is_imported_function(full));
        assert_eq!(module.local_func_index(full), None);
    }
    assert_eq!(module.memory_index(LocalMemoryIndex::new(0)), MemoryIndex::new(1));
    assert_eq!(module.local_memory_index(MemoryIndex::new(1)), Some(LocalMemoryIndex::new(0)));
    assert_eq!(module.local_memory_index(MemoryIndex::new(0)), None);
    assert!(module.is_imported_memory(MemoryIndex::new(0)));
    assert!(!module.is_imported_memory(MemoryIndex::new(1)));
    assert_eq!(module.table_index(LocalTableIndex::new(4)), TableIndex::new(4));
    assert_eq!(module.local_table_index(TableIndex::new(4)), Some(LocalTableIndex::new(4)));
    assert!(!module.is_imported_table(TableIndex::new(0)));
    assert_eq!(module.global_index(LocalGlobalIndex::new(1)), GlobalIndex::new(1));
    assert_eq!(module.local_global_index(GlobalIndex::new(0)), Some(LocalGlobalIndex::new(0)));
    assert!(!module.is_imported_global(GlobalIndex::new(0)));
}

#[test]
fn exported_signatures_in_order() {
    let module = sample_module();
    let signatures = module.exported_signatures();
    assert_eq!(
        signatures,
        vec![
            FunctionType::new(vec![], vec![ValType::I32]),
            FunctionType::new(vec![ValType::I32], vec![]),
        ]
    );
}

#[test]
fn exports_with_their_types() {
    let module = sample_module();
    let exports = module.exports();
    assert_eq!(exports.len(), 5);
    let all = exports.all();
    assert_eq!(all.len(), 5);
    assert_eq!(all[0].name(), "f");
    assert_eq!(all[0].ty(), &ExternType::Function(FunctionType::new(vec![], vec![ValType::I32])));
    assert_eq!(all[1].name(), "memory");
    assert_eq!(
        all[1].ty(),
        &ExternType::Memory(MemoryType {
            minimum: Pages(16),
            maximum: Some(Pages(144)),
            shared: false
        })
    );
    assert_eq!(all[4].name(), "counter");

    let functions = module.exports().functions();
    assert_eq!(functions.len(), 2);
    assert_eq!(functions[0].name(), "f");
    assert_eq!(functions[1].name(), "g");
    assert_eq!(functions[1].ty(), &FunctionType::new(vec![ValType::I32], vec![]));
    let memories = module.exports().memories();
    assert_eq!(memories.len(), 1);
    assert_eq!(memories[0].name(), "memory");
    let tables = module.exports().tables();
    assert_eq!(tables.len(), 1);
    assert_eq!(tables[0].ty(), &TableType { ty: ValType::FuncRef, minimum: 2, maximum: None });
    let globals = module.exports().globals();
    assert_eq!(globals.len(), 1);
    assert_eq!(globals[0].name(), "counter");
}

#[test]
fn exports_iterator_keeps_what_it_is_given() {
    let items = vec![
        ExportType::new("a", ExternType::Global(GlobalType { ty: ValType::F32, mutability: Mutability::Const })),
        ExportType::new("b", ExternType::Function(FunctionType::new(vec![], vec![]))),
    ];
    let exports = ExportsIterator::new(items, 2);
    assert_eq!(exports.len(), 2);
    let functions = exports.functions();
    assert_eq!(functions.len(), 1);
    assert_eq!(functions[0].name(), "b");
}

#[test]
fn imports_iterator_hands_out_none_by_kind() {
    let make = || {
        ImportsIterator::new(vec![(
            wasm_engine::indices::ImportIndex::Function(FunctionIndex::new(0)),
            Import::new("env", "f", 0, ExternType::Function(FunctionType::new(vec![], vec![]))),
        )])
    };
    assert_eq!(make().len(), 1);
    assert!(make().functions().is_empty());
    assert!(make().memories().is_empty());
    assert!(make().tables().is_empty());
    assert!(make().globals().is_empty());
    let all = make().all();
    assert_eq!(all[0].1.module(), "env");
    assert_eq!(all[0].1.name(), "f");
    assert_eq!(all[0].1.index(), 0);
}

#[test]
fn custom_sections_by_name() {
    let module = sample_module();
    assert_eq!(module.custom_sections("name"), vec![&[1u8, 2, 3][..]]);
    assert_eq!(module.custom_sections("producers"), vec![&[4u8, 5][..]]);
    assert!(module.custom_sections("other").is_empty());
}

#[test]
fn module_names() {
    let mut module = sample_module();
    assert_eq!(module.name(), "<module>");
    module.name = Some("calc".to_string());
    assert_eq!(module.name(), "calc");
    assert_eq!(module.id.id(), "7");
    assert_eq!(ModuleId::new(1234567890).id(), "1234567890");
    assert_eq!(ModuleId::new(0).id(), "0");
}

#[test]
fn imported_function_types_come_first() {
    let module = sample_module();
    assert_eq!(
        module.imported_function_types(),
        vec![
            FunctionType::new(vec![ValType::I32], vec![]),
            FunctionType::new(vec![], vec![ValType::I32]),
        ]
    );
}

#[test]
fn passive_elements() {
    let module = sample_module();
    assert_eq!(
        module.get_passive_element(ElemIndex::new(3)),
        Some(&[FunctionIndex::new(2), FunctionIndex::new(4)][..])
    );
    assert_eq!(module.get_passive_element(ElemIndex::new(0)), None);
}

#[test]
fn a_new_module_holds_nothing() {
    let module = ModuleInfo::new(ModuleId::new(0));
    assert!(module.exports.is_empty());
    assert!(module.imports.is_empty());
    assert!(module.functions.is_empty());
    assert_eq!(module.import_counts, EntityCounts::default());
    assert!(module.exported_signatures().is_empty());
    assert_eq!(module.exports().len(), 0);
}

#[test]
fn modules_are_equal_whatever_their_identifiers() {
    let first = sample_module();
    let mut second = sample_module();
    second.id = ModuleId::new(8);
    assert!(first == second);
    second.function_names.insert(2, "f".to_string());
    assert!(first != second);
    let mut third = sample_module();
    third.function_names.insert(2, "f".to_string());
    assert!(second == third);
    third.name = Some("m".to_string());
    assert!(second != third);
}

#[test]
fn modules_are_equal_in_whatever_order_their_maps_were_filled() {
    let mut first = ModuleInfo::new(ModuleId::new(1));
    first.exports.insert("a".to_string(), ExportIndex::Function(FunctionIndex::new(0)));
    first.exports.insert("b".to_string(), ExportIndex::Function(FunctionIndex::new(1)));
    let mut second = ModuleInfo::new(ModuleId::new(2));
    second.exports.insert("b".to_string(), ExportIndex::Function(FunctionIndex::new(1)));
    second.exports.insert("a".to_string(), ExportIndex::Function(FunctionIndex::new(0)));
    assert!(first == second);
    second.exports.insert("a".to_string(), ExportIndex::Function(FunctionIndex::new(1)));
    assert!(first != second);
}

#[test]
fn modules_that_differ_in_one_list_are_not_equal() {
    let first = sample_module();
    let mut second = sample_module();
    second.custom_sections_data[1] = vec![4, 6];
    assert!(first != second);
    let mut third = sample_module();
    third.signatures[0] = FunctionType::new(vec![ValType::I64], vec![]);
    assert!(first != third);
    let mut fourth = sample_module();
    fourth.passive_elements.insert(3, vec![FunctionIndex::new(2)]);
    assert!(first != fourth);
    let mut fifth = sample_module();
    fifth.import_counts.tables = 1;
    assert!(first != fifth);
}

#[test]
fn a_module_survives_archiving() {
    let mut module = sample_module();
    module.function_names.insert(4, "last".to_string());
    module.function_names.insert(2, "f".to_string());
    module.name = Some("sample".to_string());
    let archivable = wasm_engine::module::ArchivableModuleInfo::from(sample_named());
    assert_eq!(
        archivable.function_names.iter().map(|(k, v)| (*k, v.as_str())).collect::<Vec<_>>(),
        vec![(2, "f"), (4, "last")]
    );
    assert_eq!(
        archivable.exports.iter().map(|(name, _)| name.as_str()).collect::<Vec<_>>(),
        vec!["f", "memory", "g", "table", "counter"]
    );
    let back = ModuleInfo::from(archivable, ModuleId::new(99));
    assert!(back == module);
    assert_eq!(back.id.id(), "99");
    assert_eq!(back.function_names.get(&4).map(String::as_str), Some("last"));
    assert_eq!(
        back.exports.keys().map(String::as_str).collect::<Vec<_>>(),
        vec!["f", "memory", "g", "table", "counter"]
    );
}

fn sample_named() -> ModuleInfo {
    let mut module = sample_module();
    module.function_names.insert(4, "last".to_string());
    module.function_names.insert(2, "f".to_string());
    module.name = Some("sample".to_string());
    module
}
