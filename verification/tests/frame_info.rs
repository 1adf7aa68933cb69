use wasm_engine::code_memory::{CodeMemory, LimitedMemoryPool};
use wasm_engine::compilation::{
    Compilation, CompileError, CompileModuleInfo, CompiledFunction, CompiledFunctionFrameInfo,
    Features, FunctionBody, InstructionAddressMap,
};
use wasm_engine::compiler::{to_compile_error, CodegenError, Singlepass};
use wasm_engine::engine::{UniversalEngineInner, UniversalExecutable, VMLocalFunction};
use wasm_engine::frame_info::{
    check_indirect_call, FrameInfo, FrameInfoRegistry, VMCallerCheckedAnyfunc,
};
use wasm_engine::indices::{LocalFunctionIndex, SignatureIndex};
use wasm_engine::module::{ModuleId, ModuleInfo};
use wasm_engine::sig_registry::VMSharedSignatureIndex;
use wasm_engine::trap::{TrapCode, TrapInformation};
use wasm_engine::types::{FunctionType, ValType};
use wasm_engine::vm::FunctionBodyPtr;

fn registry() -> FrameInfoRegistry {
    let mut registry = FrameInfoRegistry::new();
    let functions = [
        VMLocalFunction {
            body: FunctionBodyPtr(0x1000),
            length: 0x40,
            signature: VMSharedSignatureIndex::new(0),
        },
        VMLocalFunction {
            body: FunctionBodyPtr(0x1040),
            length: 0x20,
            signature: VMSharedSignatureIndex::new(1),
        },
    ];
    let infos = [
        CompiledFunctionFrameInfo {
            traps: vec![
                TrapInformation { code_offset: 0x10, trap_code: TrapCode::IntegerDivisionByZero },
                TrapInformation { code_offset: 0x30, trap_code: TrapCode::BadSignature },
            ],
            address_map: vec![
                InstructionAddressMap { srcloc: 100, code_offset: 0x08, code_len: 0x10 },
                InstructionAddressMap { srcloc: 104, code_offset: 0x18, code_len: 0x20 },
            ],
        },
        CompiledFunctionFrameInfo {
            traps: vec![TrapInformation { code_offset: 0, trap_code: TrapCode::StackOverflow }],
            address_map: vec![],
        },
    ];
    registry.register(&functions, &infos);
    registry
}

#[test]
fn addresses_are_found_in_their_function() {
    let registry = registry();
    assert_eq!(registry.lookup_frame_info(0xFFF), None);
    assert_eq!(
        registry.lookup_frame_info(0x1000),
        Some(FrameInfo { local_index: LocalFunctionIndex::new(0), code_offset: 0, srcloc: None })
    );
    assert_eq!(
        registry.lookup_frame_info(0x1008),
        Some(FrameInfo {
            local_index: LocalFunctionIndex::new(0),
            code_offset: 8,
            srcloc: Some(100)
        })
    );
    assert_eq!(
        registry.lookup_frame_info(0x1037),
        Some(FrameInfo {
            local_index: LocalFunctionIndex::new(0),
            code_offset: 0x37,
            srcloc: Some(104)
        })
    );
    assert_eq!(
        registry.lookup_frame_info(0x103F),
        Some(FrameInfo { local_index: LocalFunctionIndex::new(0), code_offset: 0x3F, srcloc: None })
    );
    assert_eq!(
        registry.lookup_frame_info(0x1040),
        Some(FrameInfo { local_index: LocalFunctionIndex::new(1), code_offset: 0, srcloc: None })
    );
    assert_eq!(registry.lookup_frame_info(0x1060), None);
    assert_eq!(registry.lookup_frame_info(usize::MAX), None);
}

#[test]
fn traps_are_found_at_their_site() {
    let registry = registry();
    assert_eq!(
        registry.lookup_trap_info(0x1010),
        Some(TrapInformation { code_offset: 0x10, trap_code: TrapCode::IntegerDivisionByZero })
    );
    assert_eq!(
        registry.lookup_trap_info(0x1030),
        Some(TrapInformation { code_offset: 0x30, trap_code: TrapCode::BadSignature })
    );
    assert_eq!(
        registry.lookup_trap_info(0x1040),
        Some(TrapInformation { code_offset: 0, trap_code: TrapCode::StackOverflow })
    );
    assert_eq!(registry.lookup_trap_info(0x1011), None);
    assert_eq!(registry.lookup_trap_info(0x2000), None);
}

#[test]
fn indirect_call_type_mismatch() {
    // A table with a funcref of type `(i32) -> i32`, registered as 5.
    let unary = VMCallerCheckedAnyfunc {
        func_ptr: 0x1000,
        type_index: VMSharedSignatureIndex::new(5),
        vmctx: 0x9000,
    };
    let table = [Some(unary), None];
    // It is called with the expected type `() -> i32`, registered as 6.
    assert_eq!(
        check_indirect_call(&table, 0, VMSharedSignatureIndex::new(6)),
        Err(TrapCode::BadSignature)
    );
    // A call with its own type succeeds afterwards.
    assert_eq!(check_indirect_call(&table, 0, VMSharedSignatureIndex::new(5)), Ok(unary));
    assert_eq!(
        check_indirect_call(&table, 1, VMSharedSignatureIndex::new(5)),
        Err(TrapCode::IndirectCallToNull)
    );
    assert_eq!(
        check_indirect_call(&table, 2, VMSharedSignatureIndex::new(5)),
        Err(TrapCode::TableOutOfBounds)
    );
    assert_eq!(
        check_indirect_call(&[], 0, VMSharedSignatureIndex::new(5)),
        Err(TrapCode::TableOutOfBounds)
    );
}

fn tiny_executable() -> UniversalExecutable {
    let mut module = ModuleInfo::new(ModuleId::new(0));
    module.signatures.push(FunctionType::new(vec![], vec![ValType::I32]));
    module.functions.push(SignatureIndex::new(0));
    let info = CompileModuleInfo {
        features: Features::new(),
        module,
        memory_styles: vec![],
        table_styles: vec![],
    };
    let compilation = Compilation {
        functions: vec![CompiledFunction {
            body: FunctionBody { body: vec![0xB8, 0x2A, 0, 0, 0, 0xC3] },
            relocations: vec![],
            jt_offsets: vec![],
            frame_info: CompiledFunctionFrameInfo { traps: vec![], address_map: vec![] },
        }],
        custom_sections: vec![],
        function_call_trampolines: vec![FunctionBody { body: vec![0xC3] }],
        dynamic_function_trampolines: vec![],
        debug: None,
    };
    UniversalExecutable::new(compilation, info, vec![], 0)
}

#[test]
fn a_pool_hands_out_its_regions_once() {
    let mut pool = LimitedMemoryPool::new();
    pool.add(0x10_0000, 0x1000);
    pool.add(0x20_0000, 0x1000);
    assert_eq!(pool.len(), 2);
    let mut engine: UniversalEngineInner<()> = UniversalEngineInner::new(None, Features::new());
    engine.set_pool(pool);
    let executable = tiny_executable();
    assert_eq!(executable.features(), Features::new());
    assert_eq!(executable.cpu_features(), 0);
    let first = engine.load_pooled(&executable, &[]).ok().unwrap();
    assert_eq!(first.functions[0].body, FunctionBodyPtr(0x20_0000));
    let second = engine.load_pooled(&executable, &[]).ok().unwrap();
    assert_eq!(second.functions[0].body, FunctionBodyPtr(0x10_0000));
    match engine.load_pooled(&executable, &[]) {
        Err(CompileError::Resource(message)) => {
            assert_eq!(message, "no code memory is left in the pool")
        }
        _ => panic!("an empty pool handed out a region"),
    }
    engine.add_region(0x30_0000, 0x1000);
    let third = engine.load_pooled(&executable, &[]).ok().unwrap();
    assert_eq!(third.functions[0].body, FunctionBodyPtr(0x30_0000));
    let mut empty = LimitedMemoryPool::new();
    assert!(empty.get().is_none());
    let memory = CodeMemory::new(0x30_0000, 16);
    assert_eq!(memory.base(), 0x30_0000);
}

#[test]
fn codegen_errors_become_compile_errors() {
    assert_eq!(
        to_compile_error(CodegenError { message: "no register left".to_string() }),
        CompileError::Codegen("no register left".to_string())
    );
    let mut config = Singlepass::new();
    config.enable_pic();
    config.enable_stack_check(true);
    let compiler = config.compiler();
    assert!(compiler.config().checks_stack());
    assert!(compiler.config().canonicalizes_nans());
}

#[test]
fn serialized_artifacts_have_one_extension() {
    assert_eq!(wasm_engine::artifact::UniversalArtifact::get_default_extension(), "wasmu");
}
