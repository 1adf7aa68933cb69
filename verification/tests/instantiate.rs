use wasm_engine::artifact::UniversalArtifact;
use wasm_engine::engine::{Tunables, VMLocalFunction};
use wasm_engine::indices::FunctionIndex;
use wasm_engine::compilation::{DataInitializerLocation, OwnedDataInitializer};
use wasm_engine::indices::{MemoryIndex, TableIndex};
use wasm_engine::instance::{
    initialize_memory, initialize_table, instantiate, memory_creation_failed, start_of_segment,
    start_outcome, write_data_segment, write_element_segment, FastGasCounter, InstanceConfig,
    InstantiationError, RuntimeError, StackMeter,
};
use wasm_engine::module::OwnedTableInitializer;
use wasm_engine::module::{EntityCounts, GlobalInit};
use wasm_engine::resolver::{
    Export, ExportFunction, LinkError, NamedResolver, NullResolver, VMFunction,
    VMFunctionKind, VMImport, VMImportType,
};
use wasm_engine::sig_registry::VMSharedSignatureIndex;
use wasm_engine::trap::TrapCode;
use wasm_engine::types::{
    GlobalType, MemoryStyle, MemoryType, Mutability, Pages, TableStyle, TableType, ValType,
};
use wasm_engine::vm::FunctionBodyPtr;
use std::collections::BTreeMap;

struct Generous;

impl Tunables for Generous {
    fn memory_style(&self, _memory: &MemoryType) -> MemoryStyle {
        MemoryStyle::Dynamic { offset_guard_size: 0 }
    }
    fn table_style(&self, _table: &TableType) -> TableStyle {
        TableStyle::CallerChecksSignature
    }
    fn create_vm_memory(&self, ty: &MemoryType, _: &MemoryStyle, index: usize) -> Result<usize, String> {
        if ty.minimum.0 > 100 {
            Err("the minimum requested memory is greater than the maximum allowed memory".to_string())
        } else {
            Ok(0x1000 * (index + 1))
        }
    }
    fn create_vm_table(&self, ty: &TableType, _: &TableStyle, index: usize) -> Result<usize, String> {
        if ty.ty != ValType::FuncRef {
            Err("tables of this type are not supported".to_string())
        } else {
            Ok(0x100 * (index + 1))
        }
    }
}

struct Env;

impl NamedResolver for Env {
    fn resolve_by_name(&self, module: &str, field: &str) -> Option<Export> {
        if module == "env" && field == "f" {
            Some(Export::Function(ExportFunction {
                vm_function: VMFunction {
                    address: 0xF00,
                    host_env: 0,
                    signature: VMSharedSignatureIndex::new(0),
                    kind: VMFunctionKind::Static,
                },
                metadata: None,
            }))
        } else {
            None
        }
    }
}

fn artifact(memory_pages: u32) -> UniversalArtifact {
    UniversalArtifact {
        import_counts: EntityCounts { functions: 1, tables: 0, memories: 0, globals: 0 },
        start_function: None,
        imports: vec![VMImport {
            import_no: 0,
            module: "env".to_string(),
            field: "f".to_string(),
            ty: VMImportType::Function(VMSharedSignatureIndex::new(0)),
        }],
        function_call_trampolines: vec![0x4000],
        dynamic_function_trampolines: vec![FunctionBodyPtr(0x5000)],
        functions: vec![VMLocalFunction {
            body: FunctionBodyPtr(0x6000),
            length: 4,
            signature: VMSharedSignatureIndex::new(0),
        }],
        exported_functions: vec![("f".to_string(), FunctionIndex::new(1))],
        signatures: vec![VMSharedSignatureIndex::new(0)],
        local_memories: vec![(
            MemoryType { minimum: Pages(memory_pages), maximum: None, shared: false },
            MemoryStyle::Dynamic { offset_guard_size: 0 },
        )],
        data_segments: vec![],
        passive_data: BTreeMap::new(),
        local_tables: vec![(
            TableType { ty: ValType::FuncRef, minimum: 2, maximum: None },
            TableStyle::CallerChecksSignature,
        )],
        element_segments: vec![],
        passive_elements: BTreeMap::new(),
        local_globals: vec![(
            GlobalType { ty: ValType::I32, mutability: Mutability::Var },
            GlobalInit::I32Const(1),
        )],
    }
}

fn config() -> InstanceConfig {
    InstanceConfig { gas_counter: FastGasCounter::new(1000, 1), stack_limit: 100_000 }
}

#[test]
fn instance_is_made_of_imports_and_definitions() {
    let handle = instantiate(&artifact(1), &Generous, &Env, config()).unwrap();
    assert_eq!(handle.imports.functions.len(), 1);
    assert_eq!(handle.imports.functions[0].body, FunctionBodyPtr(0xF00));
    assert_eq!(handle.memories, vec![0x1000]);
    assert_eq!(handle.tables, vec![0x100]);
    assert_eq!(
        handle.globals,
        vec![(GlobalType { ty: ValType::I32, mutability: Mutability::Var }, GlobalInit::I32Const(1))]
    );
    assert_eq!(handle.config, config());
}

#[test]
fn missing_import_fails_instantiation() {
    match instantiate(&artifact(1), &Generous, &NullResolver {}, config()) {
        Err(InstantiationError::Link(LinkError::UnknownImport { module, field, .. })) => {
            assert_eq!(module, "env");
            assert_eq!(field, "f");
        }
        other => panic!("unexpected result: {:?}", other),
    }
}

#[test]
fn memory_that_cannot_be_created_is_a_resource_error() {
    match instantiate(&artifact(101), &Generous, &Env, config()) {
        Err(InstantiationError::Link(LinkError::Resource(message))) => assert_eq!(
            message,
            "Failed to create memory: the minimum requested memory is greater than the maximum allowed memory"
        ),
        other => panic!("unexpected result: {:?}", other),
    }
    match memory_creation_failed("no") {
        InstantiationError::Link(LinkError::Resource(message)) => {
            assert_eq!(message, "Failed to create memory: no")
        }
        other => panic!("unexpected error: {:?}", other),
    }
}

#[test]
fn table_that_cannot_be_created_is_a_resource_error() {
    let mut artifact = artifact(1);
    artifact.local_tables[0].0.ty = ValType::ExternRef;
    match instantiate(&artifact, &Generous, &Env, config()) {
        Err(InstantiationError::Link(LinkError::Resource(message))) => {
            assert_eq!(message, "tables of this type are not supported")
        }
        other => panic!("unexpected result: {:?}", other),
    }
}

#[test]
fn data_segments_are_bounds_checked() {
    let mut memory = vec![0u8; 8];
    assert_eq!(write_data_segment(&mut memory, 2, &[1, 2, 3]), Ok(()));
    assert_eq!(memory, vec![0, 0, 1, 2, 3, 0, 0, 0]);
    assert_eq!(write_data_segment(&mut memory, 5, &[9, 9, 9]), Ok(()));
    assert_eq!(memory, vec![0, 0, 1, 2, 3, 9, 9, 9]);
    assert_eq!(write_data_segment(&mut memory, 6, &[7, 7, 7]), Err(TrapCode::MemoryOutOfBounds));
    assert_eq!(memory, vec![0, 0, 1, 2, 3, 9, 9, 9]);
    assert_eq!(write_data_segment(&mut memory, 9, &[]), Err(TrapCode::MemoryOutOfBounds));
    assert_eq!(write_data_segment(&mut memory, 8, &[]), Ok(()));
    assert_eq!(write_data_segment(&mut memory, usize::MAX, &[1]), Err(TrapCode::MemoryOutOfBounds));
}

#[test]
fn element_segments_are_bounds_checked() {
    let mut table = vec![None; 4];
    let elements = [FunctionIndex::new(7), FunctionIndex::new(8)];
    assert_eq!(write_element_segment(&mut table, 1, &elements), Ok(()));
    assert_eq!(table, vec![None, Some(FunctionIndex::new(7)), Some(FunctionIndex::new(8)), None]);
    assert_eq!(write_element_segment(&mut table, 3, &elements), Err(TrapCode::TableOutOfBounds));
    assert_eq!(table, vec![None, Some(FunctionIndex::new(7)), Some(FunctionIndex::new(8)), None]);
}

#[test]
fn stack_limit() {
    // A function with 32750 f64 locals under a limit of 100000 bytes.
    let mut meter = StackMeter::new(100_000);
    assert_eq!(meter.enter(32750 * 8), Err(TrapCode::StackOverflow));
    assert_eq!(meter.remaining, 100_000);
    // Frames that fit are taken and given back.
    assert_eq!(meter.enter(60_000), Ok(()));
    assert_eq!(meter.enter(40_000), Ok(()));
    assert_eq!(meter.remaining, 0);
    assert_eq!(meter.enter(1), Err(TrapCode::StackOverflow));
    meter.leave(40_000);
    meter.leave(60_000);
    assert_eq!(meter.remaining, 100_000);
}

fn data(memory: usize, offset: usize, data: &[u8]) -> OwnedDataInitializer {
    OwnedDataInitializer {
        location: DataInitializerLocation {
            memory_index: MemoryIndex::new(memory),
            base: None,
            offset,
        },
        data: data.to_vec(),
    }
}

#[test]
fn data_segments_are_copied_in_order() {
    let segments = [data(0, 0, &[1, 1, 1]), data(1, 0, &[9; 100]), data(0, 2, &[2, 2]), data(0, 1, &[3])];
    let mut memory = vec![0u8; 6];
    assert_eq!(initialize_memory(&mut memory, 0, &segments, &[None, None, None, Some(4)]), Ok(()));
    // the third segment overwrites the end of the first; the fourth starts at 4 + 1
    assert_eq!(memory, vec![1, 1, 2, 2, 0, 3]);
    // the second segment is for another memory, which is too small for it
    let mut other = vec![0u8; 10];
    assert_eq!(
        initialize_memory(&mut other, 1, &segments, &[None, None, None, None]),
        Err(TrapCode::MemoryOutOfBounds)
    );
    assert_eq!(other, vec![0u8; 10]);
}

#[test]
fn a_data_segment_out_of_bounds_ends_the_copying() {
    let segments = [data(0, 1, &[1, 2]), data(0, 3, &[7, 7]), data(0, 0, &[5])];
    let mut memory = vec![0u8; 4];
    assert_eq!(
        initialize_memory(&mut memory, 0, &segments, &[None, None, None]),
        Err(TrapCode::MemoryOutOfBounds)
    );
    // the first segment was copied, the second and third were not
    assert_eq!(memory, vec![0, 1, 2, 0]);
}

#[test]
fn segment_starts() {
    assert_eq!(start_of_segment(None, 5), Some(5));
    assert_eq!(start_of_segment(Some(10), 5), Some(15));
    assert_eq!(start_of_segment(Some(u32::MAX), 0), Some(u32::MAX as usize));
    assert_eq!(start_of_segment(Some(u32::MAX), 1), None);
    assert_eq!(start_of_segment(None, u32::MAX as usize + 1), None);
}

#[test]
fn element_segments_are_written_in_order() {
    let f = FunctionIndex::new;
    let segments = [
        OwnedTableInitializer {
            table_index: TableIndex::new(0),
            base: None,
            offset: 0,
            elements: vec![f(1), f(2)],
        },
        OwnedTableInitializer {
            table_index: TableIndex::new(0),
            base: None,
            offset: 1,
            elements: vec![f(3)],
        },
        OwnedTableInitializer {
            table_index: TableIndex::new(0),
            base: None,
            offset: 2,
            elements: vec![f(4)],
        },
    ];
    let mut table = vec![None; 2];
    assert_eq!(
        initialize_table(&mut table, 0, &segments, &[None, None, None]),
        Err(TrapCode::TableOutOfBounds)
    );
    assert_eq!(table, vec![Some(f(1)), Some(f(3))]);
    let mut table = vec![None; 3];
    assert_eq!(initialize_table(&mut table, 0, &segments, &[None, None, None]), Ok(()));
    assert_eq!(table, vec![Some(f(1)), Some(f(3)), Some(f(4))]);
    let mut other = vec![None; 1];
    assert_eq!(initialize_table(&mut other, 1, &segments, &[None, None, None]), Ok(()));
    assert_eq!(other, vec![None]);
}

#[test]
fn a_trap_of_the_start_function_is_a_start_error() {
    assert!(start_outcome(None).is_ok());
    match start_outcome(Some(TrapCode::GasLimitExceeded)) {
        Err(InstantiationError::Start(error)) => {
            assert_eq!(error, RuntimeError::from_trap(TrapCode::GasLimitExceeded));
            assert_eq!(error.message(), "gas limit exceeded");
        }
        other => panic!("unexpected outcome: {:?}", other),
    }
}
