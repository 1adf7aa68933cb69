use wasm_engine::compilation::{CompileError, CompileModuleInfo, Features};
use wasm_engine::compiler::{
    expand_locals, gas_argument, read_locals, validate_module, FunctionBodyData, IntrinsicKind, Singlepass,
    SinglepassCompiler,
};
use wasm_engine::emitter::{Location, GPR};
use wasm_engine::indices::{LocalFunctionIndex, SignatureIndex};
use wasm_engine::machine::{CallingConvention, WpType};
use wasm_engine::module::{EntityCounts, ModuleId, ModuleInfo};
use wasm_engine::target::{Architecture, CpuFeature, OperatingSystem, Target};
use wasm_engine::types::{FunctionType, ValType};

fn dummy_compilation_ingredients() -> (CompileModuleInfo, Vec<FunctionBodyData>) {
    let compile_info = CompileModuleInfo {
        features: Features::new(),
        module: ModuleInfo::new(ModuleId::new(0)),
        memory_styles: Vec::new(),
        table_styles: Vec::new(),
    };
    (compile_info, Vec::new())
}

fn host_features() -> u64 {
    CpuFeature::SSE2.bit() | CpuFeature::SSE42.bit() | CpuFeature::AVX.bit()
}

#[test]
fn errors_for_unsupported_targets() {
    let compiler = SinglepassCompiler::new(Singlepass::new());

    // Compile for 32bit Linux
    let linux32 = Target::new(Architecture::I686, OperatingSystem::Linux, host_features());
    let (info, inputs) = dummy_compilation_ingredients();
    let result = compiler.compile_module(&linux32, &info, &inputs);
    match result.unwrap_err() {
        CompileError::UnsupportedTarget(name) => assert_eq!(name, "i686"),
        error => panic!("Unexpected error: {:?}", error),
    };

    // Compile for win32
    let win32 = Target::new(Architecture::I686, OperatingSystem::Windows, host_features());
    let (info, inputs) = dummy_compilation_ingredients();
    let result = compiler.compile_module(&win32, &info, &inputs);
    match result.unwrap_err() {
        CompileError::UnsupportedTarget(name) => assert_eq!(name, "i686"), // Windows should be checked before architecture
        error => panic!("Unexpected error: {:?}", error),
    };
}

#[test]
fn avx_is_needed() {
    let compiler = SinglepassCompiler::new(Singlepass::new());
    let old = Target::new(
        Architecture::X86_64,
        OperatingSystem::Linux,
        CpuFeature::SSE2.bit() | CpuFeature::BMI1.bit(),
    );
    let (mut info, inputs) = dummy_compilation_ingredients();
    info.features.multi_value = false;
    match compiler.compile_module(&old, &info, &inputs).unwrap_err() {
        CompileError::UnsupportedTarget(name) => assert_eq!(name, "x86_64 without AVX"),
        error => panic!("Unexpected error: {:?}", error),
    };
    assert!(!old.has(CpuFeature::AVX));
    assert!(old.has(CpuFeature::BMI1));
    assert!(old.has(CpuFeature::SSE2));
}

#[test]
fn multi_value_is_not_supported() {
    let compiler = SinglepassCompiler::new(Singlepass::new());
    let target = Target::new(Architecture::X86_64, OperatingSystem::Linux, host_features());
    let (info, inputs) = dummy_compilation_ingredients();
    assert!(info.features.multi_value);
    match compiler.compile_module(&target, &info, &inputs).unwrap_err() {
        CompileError::UnsupportedFeature(name) => assert_eq!(name, "multivalue"),
        error => panic!("Unexpected error: {:?}", error),
    };
}

fn module_with_functions() -> CompileModuleInfo {
    let mut module = ModuleInfo::new(ModuleId::new(0));
    module.signatures.push(FunctionType::new(vec![ValType::I32], vec![]));
    module.signatures.push(FunctionType::new(vec![], vec![ValType::I32]));
    module.functions.push(SignatureIndex::new(0)); // imported
    module.functions.push(SignatureIndex::new(1));
    module.functions.push(SignatureIndex::new(0));
    module.import_counts = EntityCounts { functions: 1, tables: 0, memories: 0, globals: 0 };
    let config = Singlepass::new();
    let target = Target::new(Architecture::X86_64, OperatingSystem::Linux, host_features());
    CompileModuleInfo {
        features: config.default_features_for_target(&target),
        module,
        memory_styles: Vec::new(),
        table_styles: Vec::new(),
    }
}

#[test]
fn plan_lists_what_is_compiled() {
    let compiler = SinglepassCompiler::new(Singlepass::new());
    let target = Target::new(Architecture::X86_64, OperatingSystem::Windows, host_features());
    let info = module_with_functions();
    let inputs = vec![
        // (func (result i32) i32.const 42)
        FunctionBodyData { data: vec![0x00, 0x41, 0x2a, 0x0b], module_offset: 30 },
        // (func (param i32) (local i64 i64 f32) )
        FunctionBodyData { data: vec![0x02, 0x02, 0x7e, 0x01, 0x7d, 0x0b], module_offset: 36 },
    ];
    let plan = compiler.compile_module(&target, &info, &inputs).unwrap();
    assert_eq!(plan.calling_convention, CallingConvention::WindowsFastcall);
    assert_eq!(plan.pointer_width, 8);
    assert_eq!(plan.import_trampolines, vec![FunctionType::new(vec![ValType::I32], vec![])]);
    assert_eq!(plan.dynamic_function_trampolines, plan.import_trampolines);
    assert_eq!(
        plan.function_call_trampolines,
        vec![
            FunctionType::new(vec![ValType::I32], vec![]),
            FunctionType::new(vec![], vec![ValType::I32]),
        ]
    );
    assert_eq!(plan.functions.len(), 2);
    assert_eq!(plan.functions[0].index, LocalFunctionIndex::new(0));
    assert_eq!(plan.functions[0].signature, FunctionType::new(vec![], vec![ValType::I32]));
    assert!(plan.functions[0].locals.is_empty());
    assert_eq!(plan.functions[1].index, LocalFunctionIndex::new(1));
    assert_eq!(plan.functions[1].signature, FunctionType::new(vec![ValType::I32], vec![]));
    assert_eq!(plan.functions[1].locals, vec![WpType::I64, WpType::I64, WpType::F32]);
}

#[test]
fn a_body_whose_locals_do_not_parse_fails_the_plan() {
    let compiler = SinglepassCompiler::new(Singlepass::new());
    let target = Target::new(Architecture::X86_64, OperatingSystem::Linux, host_features());
    let info = module_with_functions();
    let inputs = vec![
        FunctionBodyData { data: vec![0x00, 0x0b], module_offset: 30 },
        // announces one declaration and ends
        FunctionBodyData { data: vec![0x01], module_offset: 36 },
    ];
    match compiler.compile_module(&target, &info, &inputs) {
        Err(CompileError::Wasm(message)) => assert!(!message.is_empty()),
        other => panic!("unexpected result: {:?}", other),
    }
}

#[test]
fn locals_are_read_and_written_out() {
    // 32750 locals of type f64, declared at once
    let locals = read_locals(&[0x01, 0xee, 0xff, 0x01, 0x7c, 0x0b], 0).unwrap();
    assert_eq!(locals.len(), 32750);
    assert!(locals.iter().all(|ty| *ty == WpType::F64));
    let locals = read_locals(&[0x03, 0x01, 0x7f, 0x02, 0x7e, 0x01, 0x70, 0x0b], 0).unwrap();
    assert_eq!(locals, vec![WpType::I32, WpType::I64, WpType::I64, WpType::FuncRef]);
    assert_eq!(read_locals(&[0x00], 0), Ok(vec![]));
    assert!(matches!(read_locals(&[], 0), Err(CompileError::Wasm(_))));
    assert!(matches!(read_locals(&[0x01, 0x01, 0x00], 0), Err(CompileError::Wasm(_))));
}

#[test]
fn expand_locals_repeats_each_type() {
    assert_eq!(
        expand_locals(&[(2, WpType::I32), (0, WpType::F32), (1, WpType::ExternRef)]),
        vec![WpType::I32, WpType::I32, WpType::ExternRef]
    );
    assert!(expand_locals(&[]).is_empty());
}

#[test]
fn validation() {
    let features = Features::new();
    // (module (func (export "f") (result i32) i32.const 42))
    let hello: [u8; 37] = [
        0x00, 0x61, 0x73, 0x6d, 0x01, 0x00, 0x00, 0x00, 0x01, 0x05, 0x01, 0x60, 0x00, 0x01, 0x7f,
        0x03, 0x02, 0x01, 0x00, 0x07, 0x05, 0x01, 0x01, 0x66, 0x00, 0x00, 0x0a, 0x06, 0x01, 0x04,
        0x00, 0x41, 0x2a, 0x0b, 0x00, 0x00, 0x00,
    ];
    assert_eq!(validate_module(&features, &hello[..34]), Ok(()));
    // the function leaves an i32 where it announces no result
    let mut wrong = hello[..34].to_vec();
    wrong[12] = 0x00;
    wrong.remove(14);
    wrong[9] = 0x04;
    assert!(matches!(validate_module(&features, &wrong), Err(CompileError::Validate(_))));
    assert!(matches!(validate_module(&features, b"not wasm"), Err(CompileError::Validate(_))));
    // validation is a function of the bytes
    assert_eq!(validate_module(&features, b"not wasm"), validate_module(&features, b"not wasm"));
}

#[test]
fn default_configuration() {
    let mut config = Singlepass::new();
    assert!(config.canonicalizes_nans());
    assert!(!config.checks_stack());
    config.enable_stack_check(true);
    config.canonicalize_nans(false);
    assert!(config.checks_stack());
    assert!(!config.canonicalizes_nans());
    let compiler = SinglepassCompiler::new(config);
    assert!(compiler.config().checks_stack());
    let target = Target::new(Architecture::X86_64, OperatingSystem::Linux, host_features());
    let features = compiler.config().default_features_for_target(&target);
    assert!(!features.multi_value);
    assert!(features.bulk_memory);
    assert_eq!(target.default_calling_convention(), Some(CallingConvention::SystemV));
    assert_eq!(Architecture::X86_64.pointer_width(), Some(8));
    assert_eq!(Architecture::Unknown.pointer_width(), None);
    let _ = IntrinsicKind::Gas;
}

#[test]
fn gas_imports_are_intrinsics() {
    let config = Singlepass::new();
    let gas = FunctionType::new(vec![ValType::I32], vec![]);
    let gas64 = FunctionType::new(vec![ValType::I64], vec![]);
    assert_eq!(config.intrinsic_for("gas", &gas), Some(IntrinsicKind::Gas));
    assert_eq!(config.intrinsic_for("gas64", &gas64), Some(IntrinsicKind::Gas));
    // another name or another signature is an import like any other
    assert_eq!(config.intrinsic_for("hit", &gas), None);
    assert_eq!(config.intrinsic_for("gas", &gas64), None);
    assert_eq!(config.intrinsic_for("gas64", &gas), None);
    assert_eq!(config.intrinsic_for("gas", &FunctionType::new(vec![ValType::I32], vec![ValType::I32])), None);
}

#[test]
fn only_literal_gas_is_charged_inline() {
    assert_eq!(gas_argument(Location::Imm32(126)), Some(126));
    assert_eq!(gas_argument(Location::Imm64(8589934592)), Some(8589934592));
    assert_eq!(gas_argument(Location::GPR(GPR::RSI)), None);
    assert_eq!(gas_argument(Location::Memory(GPR::RBP, -8)), None);
}
