use wasm_engine::code_memory::{CodeMemory, Protection};
use wasm_engine::compilation::{
    Compilation, CompileError, CompileModuleInfo, CompiledFunction, CompiledFunctionFrameInfo,
    CustomSection, CustomSectionProtection, DataInitializerLocation, Features, FunctionBody,
    LibCall, OwnedDataInitializer, Relocation, RelocationKind, RelocationTarget,
};
use wasm_engine::engine::{
    Compiler, EngineId, ModuleMiddleware, UniversalEngineInner, UniversalExecutable, VMLocalFunction,
};
use wasm_engine::indices::{
    ExportIndex, FunctionIndex, ImportIndex, JumpTable, LocalFunctionIndex, MemoryIndex,
    SectionIndex, SignatureIndex,
};
use wasm_engine::link::{apply_relocation, value_of, write_le, Addresses};
use wasm_engine::module::{EntityCounts, GlobalInit, ModuleId, ModuleInfo};
use wasm_engine::resolver::VMImportType;
use wasm_engine::sig_registry::VMSharedSignatureIndex;
use wasm_engine::types::{
    FunctionType, GlobalType, MemoryStyle, MemoryType, Mutability, Pages, ValType,
};
use wasm_engine::vm::FunctionBodyPtr;

fn function(body: Vec<u8>, relocations: Vec<Relocation>, jt_offsets: Vec<u32>) -> CompiledFunction {
    CompiledFunction {
        body: FunctionBody { body },
        relocations,
        jt_offsets,
        frame_info: CompiledFunctionFrameInfo { traps: vec![], address_map: vec![] },
    }
}

/// A module with one imported function and two local ones, a custom data
/// section and a custom code section.
fn sample_executable() -> UniversalExecutable {
    let mut module = ModuleInfo::new(ModuleId::new(0));
    module.signatures.push(FunctionType::new(vec![ValType::I32], vec![]));
    module.signatures.push(FunctionType::new(vec![], vec![ValType::I32]));
    module.functions.push(SignatureIndex::new(0)); // imported
    module.functions.push(SignatureIndex::new(1));
    module.functions.push(SignatureIndex::new(0));
    module.import_counts = EntityCounts { functions: 1, tables: 0, memories: 0, globals: 0 };
    module.imports.insert(
        ("env".to_string(), "f".to_string(), 0),
        ImportIndex::Function(FunctionIndex::new(0)),
    );
    module.exports.insert("main".to_string(), ExportIndex::Function(FunctionIndex::new(1)));
    module.exports.insert("memory".to_string(), ExportIndex::Memory(MemoryIndex::new(0)));
    module.memories.push(MemoryType { minimum: Pages(1), maximum: None, shared: false });
    module.globals.push(GlobalType { ty: ValType::I32, mutability: Mutability::Const });
    module.global_initializers.push(GlobalInit::I32Const(5));
    module.start_function = Some(FunctionIndex::new(2));
    let compile_info = CompileModuleInfo {
        features: Features::new(),
        module,
        memory_styles: vec![MemoryStyle::Dynamic { offset_guard_size: 4096 }],
        table_styles: vec![],
    };
    let compilation = Compilation {
        functions: vec![
            // 20 bytes; calls the second function, and refers to the rodata
            function(
                vec![0x90; 20],
                vec![
                    Relocation {
                        kind: RelocationKind::X86PCRel4,
                        reloc_target: RelocationTarget::LocalFunc(LocalFunctionIndex::new(1)),
                        offset: 1,
                        addend: -4,
                    },
                    Relocation {
                        kind: RelocationKind::Abs8,
                        reloc_target: RelocationTarget::CustomSection(SectionIndex::new(0)),
                        offset: 8,
                        addend: 2,
                    },
                ],
                vec![],
            ),
            // 5 bytes; refers to the runtime and to its own jump table
            function(
                vec![0xCC; 17],
                vec![
                    Relocation {
                        kind: RelocationKind::Abs8,
                        reloc_target: RelocationTarget::LibCall(LibCall(1)),
                        offset: 0,
                        addend: 0,
                    },
                    Relocation {
                        kind: RelocationKind::X86PCRel8,
                        reloc_target: RelocationTarget::JumpTable(
                            LocalFunctionIndex::new(1),
                            JumpTable::new(0),
                        ),
                        offset: 9,
                        addend: 0,
                    },
                ],
                vec![12],
            ),
        ],
        custom_sections: vec![
            CustomSection {
                protection: CustomSectionProtection::Read,
                bytes: vec![7; 10],
                relocations: vec![Relocation {
                    kind: RelocationKind::Abs8,
                    reloc_target: RelocationTarget::LocalFunc(LocalFunctionIndex::new(0)),
                    offset: 2,
                    addend: 0,
                }],
            },
            CustomSection {
                protection: CustomSectionProtection::ReadExecute,
                bytes: vec![0xC3; 3],
                relocations: vec![],
            },
        ],
        function_call_trampolines: vec![
            FunctionBody { body: vec![0xA0; 4] },
            FunctionBody { body: vec![0xA1; 16] },
        ],
        dynamic_function_trampolines: vec![FunctionBody { body: vec![0xD0; 33] }],
        debug: None,
    };
    let data = vec![OwnedDataInitializer {
        location: DataInitializerLocation {
            memory_index: MemoryIndex::new(0),
            base: None,
            offset: 8,
        },
        data: vec![1, 2, 3],
    }];
    UniversalExecutable::new(compilation, compile_info, data, 0x40)
}

#[test]
fn executable_is_put_together() {
    let executable = sample_executable();
    assert_eq!(executable.function_bodies.len(), 2);
    assert_eq!(executable.function_bodies[0].body, vec![0x90; 20]);
    assert_eq!(executable.function_relocations[1].len(), 2);
    assert_eq!(executable.function_jt_offsets[1], vec![12]);
    assert_eq!(executable.custom_sections[0].bytes, vec![7; 10]);
    assert_eq!(executable.custom_section_relocations[0].len(), 1);
    assert_eq!(executable.custom_section_relocations[1].len(), 0);
    assert_eq!(executable.cpu_features, 0x40);
}

#[test]
fn load_places_links_and_publishes() {
    let executable = sample_executable();
    let mut engine: UniversalEngineInner<()> = UniversalEngineInner::new(None, Features::new());
    let base = 0x10_0000usize;
    let memory = CodeMemory::new(base, 0x10000);
    let libcalls = [0x7000_0000usize, 0x7000_1000];
    let artifact = engine.load(&executable, memory, &libcalls).unwrap();

    // Code, 16-byte aligned one after the other: the function bodies at 0
    // and 32, the call trampolines at 64 and 80, the dynamic import
    // trampoline at 96 (33 bytes), the executable section at 144; data from
    // the next page on.
    assert_eq!(
        artifact.functions,
        vec![
            VMLocalFunction {
                body: FunctionBodyPtr(base),
                length: 20,
                signature: VMSharedSignatureIndex::new(1),
            },
            VMLocalFunction {
                body: FunctionBodyPtr(base + 32),
                length: 17,
                signature: VMSharedSignatureIndex::new(0),
            },
        ]
    );
    assert_eq!(artifact.function_call_trampolines, vec![base + 64, base + 80]);
    assert_eq!(artifact.dynamic_function_trampolines, vec![FunctionBodyPtr(base + 96)]);
    assert_eq!(
        artifact.signatures,
        vec![VMSharedSignatureIndex::new(0), VMSharedSignatureIndex::new(1)]
    );
    assert_eq!(artifact.imports.len(), 1);
    assert_eq!(artifact.imports[0].module, "env");
    assert_eq!(artifact.imports[0].field, "f");
    assert_eq!(artifact.imports[0].import_no, 0);
    assert_eq!(artifact.imports[0].ty, VMImportType::Function(VMSharedSignatureIndex::new(0)));
    assert_eq!(artifact.exported_functions, vec![("main".to_string(), FunctionIndex::new(1))]);
    assert_eq!(artifact.function_by_export_field("main"), Some(FunctionIndex::new(1)));
    assert_eq!(artifact.function_by_export_field("memory"), None);
    assert_eq!(artifact.start_function(), Some(FunctionIndex::new(2)));
    assert_eq!(
        artifact.local_memories,
        vec![(
            MemoryType { minimum: Pages(1), maximum: None, shared: false },
            MemoryStyle::Dynamic { offset_guard_size: 4096 }
        )]
    );
    assert_eq!(
        artifact.local_globals,
        vec![(GlobalType { ty: ValType::I32, mutability: Mutability::Const }, GlobalInit::I32Const(5))]
    );
    assert_eq!(artifact.data_segments.len(), 1);
    assert_eq!(artifact.data_segments[0].data, vec![1, 2, 3]);
    let extent = artifact.function_extent(LocalFunctionIndex::new(1)).unwrap();
    assert_eq!(extent.address, FunctionBodyPtr(base + 32));
    assert_eq!(extent.length, 17);
    assert!(artifact.function_extent(LocalFunctionIndex::new(2)).is_none());
    assert_eq!(artifact.function_trampoline(1), Some(base + 80));
    assert_eq!(artifact.function_trampoline(2), None);

    // The engine knows the signatures now.
    assert_eq!(
        engine.lookup_signature(VMSharedSignatureIndex::new(1)),
        Some(FunctionType::new(vec![], vec![ValType::I32]))
    );
    assert_eq!(engine.lookup_signature(VMSharedSignatureIndex::new(2)), None);
}

#[test]
fn image_is_laid_out_and_relocated() {
    let executable = sample_executable();
    let base = 0x10_0000usize;
    let mut memory = CodeMemory::new(base, 0x10000);
    let placement = wasm_engine::engine::place(&executable, &mut memory).unwrap();
    assert_eq!(memory.executable_len(), 4096);
    assert_eq!(memory.image().len(), 4096 + 64);
    assert_eq!(placement.code.iter().map(|e| e.offset).collect::<Vec<_>>(), vec![0, 32, 64, 80, 96]);
    assert_eq!(placement.code.iter().map(|e| e.len).collect::<Vec<_>>(), vec![20, 17, 4, 16, 33]);
    // the data section first, the executable section second
    assert_eq!(placement.sections[0].offset, 4096);
    assert_eq!(placement.sections[0].len, 10);
    assert_eq!(placement.sections[1].offset, 144);
    assert_eq!(placement.sections[1].len, 3);
    {
        let image = memory.image();
        assert_eq!(&image[0..20], &[0x90; 20]);
        assert_eq!(&image[20..32], &[0; 12]);
        assert_eq!(&image[32..49], &[0xCC; 17]);
        assert_eq!(&image[64..68], &[0xA0; 4]);
        assert_eq!(&image[80..96], &[0xA1; 16]);
        assert_eq!(&image[96..129], &[0xD0; 33]);
        assert_eq!(&image[144..147], &[0xC3; 3]);
        assert!(image[147..4096].iter().all(|b| *b == 0));
        assert_eq!(&image[4096..4106], &[7; 10]);
    }
    assert_eq!(memory.protection(), Protection::ReadWrite);

    let libcalls = [0x7000_0000usize, 0x7000_1000];
    wasm_engine::engine::link_module(&executable, &mut memory, &placement, &libcalls);
    let image = memory.image();
    // first function: the distance from its site at 1 to the second function at 32, less 4
    assert_eq!(&image[1..5], &27u32.to_le_bytes());
    // and the address of the data section, plus 2
    assert_eq!(&image[8..16], &((base + 4096 + 2) as u64).to_le_bytes());
    // second function: the address of the second built-in routine
    assert_eq!(&image[32..40], &0x7000_1000u64.to_le_bytes());
    // and the distance from its site at 41 to its jump table at 32 + 12
    assert_eq!(&image[41..49], &3u64.to_le_bytes());
    // the data section: the address of the first function
    assert_eq!(&image[4098..4106], &(base as u64).to_le_bytes());
    assert_eq!(&image[4096..4098], &[7, 7]);

    memory.publish();
    assert_eq!(memory.protection(), Protection::ReadExecute);
}

#[test]
fn image_that_does_not_fit_is_a_resource_error() {
    let executable = sample_executable();
    let mut engine: UniversalEngineInner<()> = UniversalEngineInner::new(None, Features::new());
    let memory = CodeMemory::new(0x10_0000, 4096 + 63);
    match engine.load(&executable, memory, &[0, 0]) {
        Err(CompileError::Resource(message)) => assert_eq!(
            message,
            "failed to allocate memory for functions: not enough code memory for the module"
        ),
        _ => panic!("an image was placed in a memory too small for it"),
    }
    let memory = CodeMemory::new(0x10_0000, 4096 + 64);
    assert!(engine.load(&executable, memory, &[0, 0]).is_ok());
}

#[test]
fn signatures_are_shared_between_modules() {
    let mut engine: UniversalEngineInner<()> = UniversalEngineInner::new(None, Features::new());
    let first = engine.register_signature(FunctionType::new(vec![], vec![ValType::I32]).as_ref());
    assert_eq!(first, VMSharedSignatureIndex::new(0));
    let executable = sample_executable();
    let artifact = engine.load(&executable, CodeMemory::new(0x20_0000, 0x10000), &[0, 0]).unwrap();
    // `() -> i32` was registered before; `(i32) -> ()` is new
    assert_eq!(
        artifact.signatures,
        vec![VMSharedSignatureIndex::new(1), VMSharedSignatureIndex::new(0)]
    );
    assert_eq!(artifact.functions[0].signature, VMSharedSignatureIndex::new(0));
    assert_eq!(artifact.functions[1].signature, VMSharedSignatureIndex::new(1));
}

#[test]
fn headless_engine_has_no_compiler() {
    let engine: UniversalEngineInner<()> = UniversalEngineInner::new(None, Features::new());
    match engine.compiler() {
        Err(CompileError::Codegen(message)) => assert_eq!(
            message,
            "The UniversalEngine is operating in headless mode, so it can only execute already compiled Modules."
        ),
        _ => panic!("a headless engine has a compiler"),
    }
    let engine = UniversalEngineInner::new(Some(5u8), Features::new());
    assert_eq!(engine.compiler(), Ok(&5u8));
    assert_eq!(engine.features(), &Features::new());
}

#[test]
fn relocation_values() {
    // absolute: target plus addend
    assert_eq!(value_of(RelocationKind::Abs8, 0x5000, 0x1234, 0x10), 0x1244);
    assert_eq!(value_of(RelocationKind::Abs8, 0x5000, 0x1234, -0x34), 0x1200);
    // relative: counted from the site, cut to the width
    assert_eq!(value_of(RelocationKind::X86PCRel4, 0x1000, 0x1100, -4), 0xFC);
    assert_eq!(value_of(RelocationKind::X86PCRel4, 0x1100, 0x1000, -4), 0xFFFF_FEFC);
    assert_eq!(value_of(RelocationKind::X86PCRel8, 0x1100, 0x1000, 0), 0xFFFF_FFFF_FFFF_FF00);
    assert_eq!(value_of(RelocationKind::X86PCRel8, 0x1000, 0x1100, 0), 0x100);
}

#[test]
fn relocation_is_written_at_its_site() {
    let mut image = vec![0xEEu8; 16];
    let functions = [0x4000usize];
    let jt: [Vec<u32>; 1] = [vec![]];
    let addresses = Addresses { functions: &functions, jt_offsets: &jt, sections: &[], libcalls: &[] };
    let r = Relocation {
        kind: RelocationKind::X86PCRel4,
        reloc_target: RelocationTarget::LocalFunc(LocalFunctionIndex::new(0)),
        offset: 3,
        addend: -4,
    };
    // the body starts 2 bytes into an image placed at 0x1000: the site is at 0x1005
    apply_relocation(&mut image, 0x1000, 2, &r, &addresses);
    let mut expected = vec![0xEEu8; 16];
    expected[5..9].copy_from_slice(&(0x4000u32 - 0x1005 - 4).to_le_bytes());
    assert_eq!(image, expected);
    write_le(&mut image, 14, 0xABCD, 2);
    assert_eq!(&image[14..], &[0xCD, 0xAB]);
}

#[test]
fn engine_ids() {
    assert_eq!(EngineId::new(42).id(), "42");
    assert_eq!(EngineId::new(0).id(), "0");
    assert_eq!(EngineId::new(usize::MAX).id(), usize::MAX.to_string());
}

struct Stub;

impl wasm_engine::engine::Compiler for Stub {
    type Middleware = ();

    fn get_middlewares(&self) -> &[()] {
        &[]
    }

    fn validate_module(&self, features: &Features, data: &[u8]) -> Result<(), CompileError> {
        wasm_engine::compiler::validate_module(features, data)
    }

    fn compile_module(
        &self,
        target: &wasm_engine::target::Target,
        _compile_info: &CompileModuleInfo,
        _module_translation: &wasm_engine::translator::ModuleTranslationState,
        function_body_inputs: &[wasm_engine::compiler::FunctionBodyData],
    ) -> Result<Compilation, CompileError> {
        if target.architecture != wasm_engine::target::Architecture::X86_64 {
            return Err(CompileError::UnsupportedTarget("not x86_64".to_string()));
        }
        Ok(Compilation {
            functions: function_body_inputs
                .iter()
                .map(|input| function(input.data.clone(), vec![], vec![]))
                .collect(),
            custom_sections: vec![],
            function_call_trampolines: vec![FunctionBody { body: vec![0xC3] }],
            dynamic_function_trampolines: vec![],
            debug: None,
        })
    }
}

struct Styles;

impl wasm_engine::engine::Tunables for Styles {
    fn memory_style(&self, memory: &MemoryType) -> MemoryStyle {
        MemoryStyle::Static { bound: memory.minimum, offset_guard_size: 0x8000 }
    }
    fn table_style(&self, _table: &wasm_engine::types::TableType) -> wasm_engine::types::TableStyle {
        wasm_engine::types::TableStyle::CallerChecksSignature
    }
    fn create_vm_memory(&self, _: &MemoryType, _: &MemoryStyle, _: usize) -> Result<usize, String> {
        Ok(0)
    }
    fn create_vm_table(
        &self,
        _: &wasm_engine::types::TableType,
        _: &wasm_engine::types::TableStyle,
        _: usize,
    ) -> Result<usize, String> {
        Ok(0)
    }
}

fn translation() -> wasm_engine::engine::ModuleTranslation {
    let mut module = ModuleInfo::new(ModuleId::new(1));
    module.signatures.push(FunctionType::new(vec![], vec![ValType::I32]));
    module.functions.push(SignatureIndex::new(0));
    module.memories.push(MemoryType { minimum: Pages(3), maximum: None, shared: false });
    module.exports.insert("f".to_string(), ExportIndex::Function(FunctionIndex::new(0)));
    wasm_engine::engine::ModuleTranslation {
        module,
        function_body_inputs: vec![wasm_engine::compiler::FunctionBodyData {
            data: vec![0x00, 0x41, 0x2a, 0x0b],
            module_offset: 30,
        }],
        data_initializers: vec![],
        module_translation_state: Some(wasm_engine::translator::ModuleTranslationState::new()),
    }
}

fn x86_64() -> wasm_engine::target::Target {
    wasm_engine::target::Target::new(
        wasm_engine::target::Architecture::X86_64,
        wasm_engine::target::OperatingSystem::Linux,
        0x40,
    )
}

#[test]
fn compile_then_load() {
    let mut engine = wasm_engine::engine::Universal::new(Stub)
        .target(x86_64())
        .engine(x86_64(), Features::new(), EngineId::new(1));
    assert_eq!(engine.id().id(), "1");
    assert_eq!(engine.target(), &x86_64());
    let executable = engine.compile(translation(), &Styles).ok().unwrap();
    assert_eq!(
        executable.compile_info.memory_styles,
        vec![MemoryStyle::Static { bound: Pages(3), offset_guard_size: 0x8000 }]
    );
    assert_eq!(executable.cpu_features, 0x40);
    assert_eq!(executable.function_bodies.len(), 1);
    assert!(executable.check(0));
    assert!(executable.validate(0).is_ok());
    let artifact = engine
        .inner_mut()
        .load(&executable, CodeMemory::new(0x40_0000, 0x2000), &[])
        .ok()
        .unwrap();
    assert_eq!(artifact.function_by_export_field("f"), Some(FunctionIndex::new(0)));
    assert_eq!(artifact.functions[0].body, FunctionBodyPtr(0x40_0000));
    assert_eq!(artifact.functions[0].length, 4);
    assert_eq!(artifact.function_call_trampolines, vec![0x40_0000 + 16]);
}

#[test]
fn an_engine_is_built_with_its_pool() {
    let mut pool = wasm_engine::code_memory::LimitedMemoryPool::new();
    pool.add(0x50_0000, 0x2000);
    let mut engine = wasm_engine::engine::Universal::new(Stub)
        .pool(pool)
        .features(Features::new())
        .engine(x86_64(), Features::new(), EngineId::new(4));
    let executable = engine.compile(translation(), &Styles).ok().unwrap();
    let artifact = engine.inner_mut().load_pooled(&executable, &[]).ok().unwrap();
    assert_eq!(artifact.functions[0].body, FunctionBodyPtr(0x50_0000));
    assert!(engine.inner_mut().load_pooled(&executable, &[]).is_err());
    assert!(engine.inner_mut().validate(b"junk").is_err());
}

#[test]
fn headless_engine_compiles_nothing() {
    let engine = wasm_engine::engine::Universal::<Stub>::headless().engine(
        x86_64(),
        Features::new(),
        EngineId::new(2),
    );
    match engine.compile(translation(), &Styles) {
        Err(CompileError::Codegen(message)) => assert_eq!(
            message,
            "The UniversalEngine is operating in headless mode, so it can only execute already compiled Modules."
        ),
        _ => panic!("a headless engine compiled a module"),
    }
    assert!(matches!(engine.validate(b"\0asm"), Err(CompileError::Codegen(_))));
}

#[test]
fn engine_hands_on_what_the_compiler_says() {
    let other = wasm_engine::target::Target::new(
        wasm_engine::target::Architecture::Aarch64,
        wasm_engine::target::OperatingSystem::Linux,
        0,
    );
    let engine = wasm_engine::engine::Universal::new(Stub).engine(
        other,
        Features::new(),
        EngineId::new(3),
    );
    assert_eq!(engine.target(), &other);
    match engine.compile(translation(), &Styles) {
        Err(CompileError::UnsupportedTarget(name)) => assert_eq!(name, "not x86_64"),
        _ => panic!("the error of the compiler was lost"),
    }
    assert!(matches!(engine.validate(b"junk"), Err(CompileError::Validate(_))));
}

#[test]
fn corrupted_executables_are_told_apart() {
    let mut executable = sample_executable();
    assert!(executable.check(2));
    // only one built-in routine is known
    assert!(!executable.check(1));
    assert!(executable.validate(1).is_err());
    // a relocation past the end of its function
    executable.function_relocations[0][0].offset = 17;
    assert!(!executable.check(2));
    executable.function_relocations[0][0].offset = 16;
    assert!(executable.check(2));
    // a missing trampoline
    executable.function_call_trampolines.pop();
    assert!(!executable.check(2));
    match executable.validate(2) {
        Err(wasm_engine::executable::DeserializeError::CorruptedBinary(message)) => {
            assert_eq!(message, "the executable does not hold what its module announces")
        }
        _ => panic!("a corrupted executable was taken"),
    }
}

struct Renames(&'static str);

impl wasm_engine::engine::ModuleMiddleware for Renames {
    fn transform_module_info(&self, module: &mut ModuleInfo) {
        let before = module.name.take().unwrap_or_default();
        module.name = Some(format!("{}{}", before, self.0));
    }
}

struct Renaming(Vec<Renames>);

impl wasm_engine::engine::Compiler for Renaming {
    type Middleware = Renames;

    fn get_middlewares(&self) -> &[Renames] {
        &self.0
    }

    fn validate_module(&self, features: &Features, data: &[u8]) -> Result<(), CompileError> {
        Stub.validate_module(features, data)
    }

    fn compile_module(
        &self,
        target: &wasm_engine::target::Target,
        compile_info: &CompileModuleInfo,
        module_translation: &wasm_engine::translator::ModuleTranslationState,
        function_body_inputs: &[wasm_engine::compiler::FunctionBodyData],
    ) -> Result<Compilation, CompileError> {
        if compile_info.module.name.as_deref() != Some("ab") {
            return Err(CompileError::Codegen("the middlewares were not applied".to_string()));
        }
        Stub.compile_module(target, compile_info, module_translation, function_body_inputs)
    }
}

#[test]
fn middlewares_are_applied_in_order_before_the_compiler_runs() {
    let engine = wasm_engine::engine::Universal::new(Renaming(vec![Renames("a"), Renames("b")]))
        .target(x86_64())
        .engine(x86_64(), Features::new(), EngineId::new(4));
    let executable = engine.compile(translation(), &Styles).ok().unwrap();
    assert_eq!(executable.compile_info.module.name.as_deref(), Some("ab"));
    assert_eq!(Stub.get_middlewares().len(), 0);
}

#[test]
fn no_middleware_leaves_the_module_as_it_is() {
    let mut module = ModuleInfo::new(ModuleId::new(1));
    module.name = Some("m".to_string());
    ().transform_module_info(&mut module);
    wasm_engine::engine::apply_on_module_info(&[(), ()], &mut module);
    assert_eq!(module.name.as_deref(), Some("m"));
    wasm_engine::engine::apply_on_module_info(&[Renames("x"), Renames("y")], &mut module);
    assert_eq!(module.name.as_deref(), Some("mxy"));
}
