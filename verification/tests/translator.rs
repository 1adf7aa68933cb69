use wasm_engine::indices::{
    CustomSectionIndex, ExportIndex, FunctionIndex, GlobalIndex, ImportIndex, MemoryIndex,
    SignatureIndex,
};
use wasm_engine::machine::WpType;
use wasm_engine::module::{ArchivableModuleInfo, EntityCounts, ModuleId, ModuleInfo};
use wasm_engine::translator::{ModuleTranslationState, TypeOrFuncType, WasmError};
use wasm_engine::types::{FunctionType, MemoryType, Pages, ValType};

fn module_with_imports() -> ModuleInfo {
    let mut module = ModuleInfo::new(ModuleId::new(3));
    module.name = Some("m".to_string());
    module.signatures.push(FunctionType::new(vec![ValType::I32], vec![]));
    module.functions.push(SignatureIndex::new(0));
    module.functions.push(SignatureIndex::new(0));
    module.memories.push(MemoryType { minimum: Pages(1), maximum: None, shared: false });
    module.import_counts = EntityCounts { functions: 2, tables: 0, memories: 1, globals: 0 };
    module.imports.insert(
        ("host".to_string(), "hit".to_string(), 0),
        ImportIndex::Function(FunctionIndex::new(0)),
    );
    module.imports.insert(
        ("host".to_string(), "memory".to_string(), 1),
        ImportIndex::Memory(MemoryIndex::new(0)),
    );
    module.imports.insert(
        ("host".to_string(), "gas".to_string(), 2),
        ImportIndex::Function(FunctionIndex::new(1)),
    );
    module.exports.insert("again".to_string(), ExportIndex::Function(FunctionIndex::new(1)));
    module.exports.insert("g".to_string(), ExportIndex::Global(GlobalIndex::new(0)));
    module.custom_sections.insert("name".to_string(), CustomSectionIndex::new(0));
    module.custom_sections_data.push(vec![1]);
    module
}

#[test]
fn import_map_names_the_imported_functions() {
    let mut state = ModuleTranslationState::new();
    assert!(state.import_map.is_empty());
    state.build_import_map(&module_with_imports());
    assert_eq!(state.import_map.len(), 2);
    assert_eq!(state.import_map.get(&0).map(String::as_str), Some("hit"));
    assert_eq!(state.import_map.get(&1).map(String::as_str), Some("gas"));
}

#[test]
fn block_types() {
    let mut state = ModuleTranslationState::new();
    state.wasm_types.push((vec![WpType::I32, WpType::I64], vec![WpType::F32]));
    for ty in [
        WpType::I32,
        WpType::I64,
        WpType::F32,
        WpType::F64,
        WpType::V128,
        WpType::ExternRef,
        WpType::FuncRef,
    ] {
        assert_eq!(state.blocktype_params_results(TypeOrFuncType::Type(ty)), Ok((vec![], vec![ty])));
    }
    assert_eq!(
        state.blocktype_params_results(TypeOrFuncType::Type(WpType::EmptyBlockType)),
        Ok((vec![], vec![]))
    );
    assert_eq!(
        state.blocktype_params_results(TypeOrFuncType::Type(WpType::Func)),
        Err(WasmError::Unsupported("blocktype_params_results: type Func".to_string()))
    );
    assert_eq!(
        state.blocktype_params_results(TypeOrFuncType::Type(WpType::ExnRef)),
        Err(WasmError::Unsupported("blocktype_params_results: type ExnRef".to_string()))
    );
    assert_eq!(
        state.blocktype_params_results(TypeOrFuncType::FuncType(0)),
        Ok((vec![WpType::I32, WpType::I64], vec![WpType::F32]))
    );
}

#[test]
fn a_module_survives_being_archived() {
    let module = module_with_imports();
    let archivable = ArchivableModuleInfo::from(module_with_imports());
    assert_eq!(archivable.imports.len(), 3);
    assert_eq!(archivable.imports[1].0, ("host".to_string(), "memory".to_string(), 1));
    assert_eq!(archivable.exports[0], ("again".to_string(), ExportIndex::Function(FunctionIndex::new(1))));
    assert_eq!(archivable.custom_sections, vec![("name".to_string(), CustomSectionIndex::new(0))]);
    let back = ModuleInfo::from(archivable, ModuleId::new(9));
    assert_eq!(back.id, ModuleId::new(9));
    assert_eq!(back.name, module.name);
    assert_eq!(back.imports, module.imports);
    assert_eq!(
        back.imports.keys().collect::<Vec<_>>(),
        module.imports.keys().collect::<Vec<_>>()
    );
    assert_eq!(back.exports, module.exports);
    assert_eq!(
        back.exports.keys().collect::<Vec<_>>(),
        module.exports.keys().collect::<Vec<_>>()
    );
    assert_eq!(back.custom_sections, module.custom_sections);
    assert_eq!(back.signatures, module.signatures);
    assert_eq!(back.functions, module.functions);
    assert_eq!(back.memories, module.memories);
    assert_eq!(back.import_counts, module.import_counts);
    assert_eq!(back.custom_sections_data, module.custom_sections_data);
}

#[test]
fn module_check() {
    let mut module = module_with_imports();
    // the export `g` names a global that the module does not hold
    assert!(!module.check());
    module.exports.insert("g".to_string(), ExportIndex::Memory(MemoryIndex::new(0)));
    assert!(module.check());
    module.functions.push(SignatureIndex::new(1));
    assert!(!module.check());
    module.signatures.push(FunctionType::new(vec![], vec![]));
    assert!(module.check());
    module.import_counts.functions = 4;
    assert!(!module.check());
    module.import_counts.functions = 3;
    module.custom_sections.insert("other".to_string(), CustomSectionIndex::new(1));
    assert!(!module.check());
}
