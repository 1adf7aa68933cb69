//! Single-pass compilation of a module: what is compiled for which target,
//! and in which order.

use crate::compilation::{
    CompileError, CompileErrorView, CompileModuleInfo, Features,
};
use crate::indices::{FunctionIndex, LocalFunctionIndex};
use crate::machine::{CallingConvention, WpType};
use crate::module::ModuleInfo;
use crate::target::{
    architecture_name, default_convention, has_feature, Architecture, CpuFeature, Target,
};
use crate::types::{function_type_views, FunctionType, FunctionTypeView, ValType};
use vstd::prelude::*;

verus! {

/// A type of value or block in a WebAssembly binary, as the parser reads it.
#[verifier::external_type_specification]
#[verifier::external_body]
pub struct ExParsedType(wasmparser::Type);

/// The kind that a parsed type is, variant for variant.
#[verifier::external_body]
fn wp_type(ty: wasmparser::Type) -> WpType {
    match ty {
        wasmparser::Type::I32 => WpType::I32,
        wasmparser::Type::I64 => WpType::I64,
        wasmparser::Type::F32 => WpType::F32,
        wasmparser::Type::F64 => WpType::F64,
        wasmparser::Type::V128 => WpType::V128,
        wasmparser::Type::FuncRef => WpType::FuncRef,
        wasmparser::Type::ExternRef => WpType::ExternRef,
        wasmparser::Type::ExnRef => WpType::ExnRef,
        wasmparser::Type::Func => WpType::Func,
        wasmparser::Type::EmptyBlockType => WpType::EmptyBlockType,
    }
}

/// What the parser reads as the local declarations at the start of a
/// function body: how many locals of which type, declaration by declaration,
/// or what it says is wrong with them. `offset` is where the body stands in
/// the module, for the message.
pub uninterp spec fn local_declarations(data: Seq<u8>, offset: usize) -> Result<
    Seq<(u32, WpType)>,
    Seq<char>,
>;

/// `FunctionBody::get_locals_reader` and the reader's iterator: the local
/// declarations at the start of a function body, or the parser's message.
/// The parser adds positions in the body to `offset`, so the end of the body
/// must be a position that can be written.
#[verifier::external_body]
fn read_local_declarations(data: &[u8], offset: usize) -> (declarations: Result<
    Vec<(u32, WpType)>,
    String,
>)
    requires
        offset + data@.len() <= usize::MAX,
    ensures
        match local_declarations(data@, offset) {
            Ok(read) => declarations matches Ok(d) && d@ == read,
            Err(message) => declarations matches Err(m) && m@ == message,
        },
{
    let reader = wasmparser::FunctionBody::new(offset, data).get_locals_reader();
    let reader = reader.map_err(|error| error.to_string())?;
    reader.into_iter().map(
        |local| local.map(|(count, ty)| (count, wp_type(ty))).map_err(|error| error.to_string()),
    ).collect()
}

/// Whether the validator accepts a module for the given features, with or
/// without the instructions whose results differ between machines.
pub uninterp spec fn module_is_valid(
    data: Seq<u8>,
    features: Features,
    deterministic_only: bool,
) -> bool;

/// `Validator::validate_all`, with the validator's features set from
/// `features` and `deterministic_only`: nothing if and only if the validator
/// accepts the module, else the validator's message, of which nothing is
/// claimed.
#[verifier::external_body]
fn validate_all(data: &[u8], features: &Features, deterministic_only: bool) -> (verdict: Result<
    (),
    String,
>)
    ensures
        verdict is Ok <==> module_is_valid(data@, *features, deterministic_only),
{
    let mut validator = wasmparser::Validator::new();
    validator.wasm_features(wasmparser::WasmFeatures {
        reference_types: features.reference_types, multi_value: features.multi_value,
        bulk_memory: features.bulk_memory, module_linking: features.module_linking,
        simd: features.simd, threads: features.threads, tail_call: features.tail_call,
        deterministic_only, multi_memory: features.multi_memory,
        exceptions: features.exceptions, memory64: features.memory64,
    });
    validator.validate_all(data).map_err(|error| error.to_string())
}

/// Validates a module for the given features. Instructions whose results
/// differ between machines are allowed. A module that the validator refuses
/// gives a validation error that carries the validator's message.
pub fn validate_module(features: &Features, data: &[u8]) -> (verdict: Result<(), CompileError>)
    ensures
        verdict is Ok <==> module_is_valid(data@, *features, false),
        verdict matches Err(error) ==> error is Validate,
{
    match validate_all(data, features, false) {
        Ok(()) => Ok(()),
        Err(message) => Err(CompileError::Validate(message)),
    }
}

/// The locals that `declarations` declare, written out: each type as many
/// times as its declaration says.
pub open spec fn expanded(declarations: Seq<(u32, WpType)>, n: nat) -> Seq<WpType>
    decreases n,
{
    if n == 0 {
        Seq::empty()
    } else {
        expanded(declarations, (n - 1) as nat) + Seq::new(
            declarations[n - 1].0 as nat,
            |i: int| declarations[n - 1].1,
        )
    }
}

/// Writes out the locals that `declarations` declare.
pub fn expand_locals(declarations: &[(u32, WpType)]) -> (locals: Vec<WpType>)
    ensures
        locals@ == expanded(declarations@, declarations@.len()),
{
    let mut locals: Vec<WpType> = Vec::new();
    let mut n: usize = 0;
    while n < declarations.len()
        invariant
            n <= declarations@.len(),
            locals@ == expanded(declarations@, n as nat),
        decreases declarations@.len() - n,
    {
        let (count, ty) = declarations[n];
        let ghost before = locals@;
        let mut i: u32 = 0;
        while i < count
            invariant
                i <= count,
                locals@ == before + Seq::new(i as nat, |k: int| ty),
            decreases count - i,
        {
            locals.push(ty);
            i += 1;
        }
        n += 1;
    }
    locals
}

/// The locals of a function, arguments excluded, as its body declares them.
pub fn read_locals(data: &[u8], offset: usize) -> (locals: Result<Vec<WpType>, CompileError>)
    requires
        offset + data@.len() <= usize::MAX,
    ensures
        match local_declarations(data@, offset) {
            Ok(declarations) => locals matches Ok(l) && l@ == expanded(
                declarations,
                declarations.len(),
            ),
            Err(message) => locals matches Err(error) && error@ == CompileErrorView::Wasm(message),
        },
{
    match read_local_declarations(data, offset) {
        Ok(declarations) => Ok(expand_locals(declarations.as_slice())),
        Err(message) => Err(CompileError::Wasm(message)),
    }
}

/// The body of a function in a WebAssembly binary.
#[derive(Debug, PartialEq, Eq)]
pub struct FunctionBodyData {
    /// The body of the function, containing both locals and code.
    pub data: Vec<u8>,
    /// Offset of the body in the module.
    pub module_offset: usize,
}

/// Compiler intrinsics: imports that are compiled to inline code.
#[derive(Clone, Copy, Debug, PartialEq, Eq, Structural)]
pub enum IntrinsicKind {
    /// The import charges gas.
    Gas,
}

/// An import that is compiled to inline code.
#[derive(Debug)]
pub struct Intrinsic {
    /// What the import does.
    pub kind: IntrinsicKind,
    /// The name of the import.
    pub name: String,
    /// The signature of the import.
    pub signature: FunctionType,
}

/// The kind of the first of the first `n` intrinsics that has the given name
/// and signature.
pub open spec fn intrinsic_among(
    intrinsics: Seq<Intrinsic>,
    name: Seq<char>,
    signature: FunctionTypeView,
    n: nat,
) -> Option<IntrinsicKind>
    decreases n,
{
    if n == 0 {
        None
    } else {
        match intrinsic_among(intrinsics, name, signature, (n - 1) as nat) {
            Some(kind) => Some(kind),
            None => if intrinsics[n - 1].name@ == name && intrinsics[n - 1].signature@ == signature {
                Some(intrinsics[n - 1].kind)
            } else {
                None
            },
        }
    }
}

/// Once an intrinsic is found among the first, more intrinsics do not change what is found.
proof fn lemma_intrinsic_stays(
    intrinsics: Seq<Intrinsic>,
    name: Seq<char>,
    signature: FunctionTypeView,
    n: nat,
    m: nat,
)
    requires
        n <= m,
        intrinsic_among(intrinsics, name, signature, n) is Some,
    ensures
        intrinsic_among(intrinsics, name, signature, m) == intrinsic_among(
            intrinsics,
            name,
            signature,
            n,
        ),
    decreases m,
{
    if n < m {
        lemma_intrinsic_stays(intrinsics, name, signature, n, (m - 1) as nat);
    }
}

/// The number of opcodes that a call of a gas intrinsic charges for, where
/// its argument is a literal. A call with a computed argument is no
/// intrinsic: it is left as a call of the import.
pub open spec fn literal_gas(argument: crate::emitter::Location) -> Option<u64> {
    match argument {
        crate::emitter::Location::Imm32(count) => Some(count as u64),
        crate::emitter::Location::Imm64(count) => Some(count),
        _ => None,
    }
}

/// The number of opcodes that a call of a gas intrinsic charges for, where
/// its argument is a literal.
pub fn gas_argument(argument: crate::emitter::Location) -> (count: Option<u64>)
    ensures
        count == literal_gas(argument),
{
    match argument {
        crate::emitter::Location::Imm32(count) => Some(count as u64),
        crate::emitter::Location::Imm64(count) => Some(count),
        _ => None,
    }
}

/// The configuration of the single-pass compiler.
#[derive(Debug)]
pub struct Singlepass {
    enable_nan_canonicalization: bool,
    enable_stack_check: bool,
    intrinsics: Vec<Intrinsic>,
}

impl Singlepass {
    /// Whether a canonical NaN is produced after operations that can give a NaN.
    pub closed spec fn nan_canonicalization(&self) -> bool {
        self.enable_nan_canonicalization
    }

    /// Whether the stack depth is checked on entry to each function.
    pub closed spec fn stack_check(&self) -> bool {
        self.enable_stack_check
    }

    /// The imports that are compiled to inline code.
    pub closed spec fn intrinsics(&self) -> Seq<Intrinsic> {
        self.intrinsics@
    }

    /// Creates a new configuration object with the default configuration
    /// specified: NaNs are canonicalized, the stack is not checked, and the
    /// imports `gas`, which takes an `i32`, and `gas64`, which takes an
    /// `i64`, charge gas.
    pub fn new() -> (config: Self)
        ensures
            config.nan_canonicalization(),
            !config.stack_check(),
            config.intrinsics().len() == 2,
            config.intrinsics()[0].kind == IntrinsicKind::Gas,
            config.intrinsics()[0].name@ == "gas"@,
            config.intrinsics()[0].signature@ == (FunctionTypeView {
                params: seq![ValType::I32],
                results: Seq::empty(),
            }),
            config.intrinsics()[1].kind == IntrinsicKind::Gas,
            config.intrinsics()[1].name@ == "gas64"@,
            config.intrinsics()[1].signature@ == (FunctionTypeView {
                params: seq![ValType::I64],
                results: Seq::empty(),
            }),
    {
        let mut params: Vec<ValType> = Vec::new();
        params.push(ValType::I32);
        let mut params64: Vec<ValType> = Vec::new();
        params64.push(ValType::I64);
        let mut intrinsics: Vec<Intrinsic> = Vec::new();
        intrinsics.push(
            Intrinsic {
                kind: IntrinsicKind::Gas,
                name: "gas".to_string(),
                signature: FunctionType::new(params, Vec::new()),
            },
        );
        intrinsics.push(
            Intrinsic {
                kind: IntrinsicKind::Gas,
                name: "gas64".to_string(),
                signature: FunctionType::new(params64, Vec::new()),
            },
        );
        Self { enable_nan_canonicalization: true, enable_stack_check: false, intrinsics }
    }

    /// What the import called `name` with the given signature is compiled
    /// to inline, if it is an intrinsic: the kind of the first intrinsic of
    /// this name and signature.
    pub fn intrinsic_for(&self, name: &str, signature: &FunctionType) -> (kind: Option<IntrinsicKind>)
        ensures
            kind == intrinsic_among(self.intrinsics(), name@, signature@, self.intrinsics().len()),
    {
        let wanted = name.to_string();
        let mut i: usize = 0;
        while i < self.intrinsics.len()
            invariant
                i <= self.intrinsics@.len(),
                wanted@ == name@,
                intrinsic_among(self.intrinsics@, name@, signature@, i as nat) is None,
            decreases self.intrinsics@.len() - i,
        {
            let intrinsic = &self.intrinsics[i];
            if intrinsic.name == wanted && intrinsic.signature.same(signature) {
                proof {
                    lemma_intrinsic_stays(
                        self.intrinsics@,
                        name@,
                        signature@,
                        (i + 1) as nat,
                        self.intrinsics@.len(),
                    );
                }
                return Some(intrinsic.kind);
            }
            i += 1;
        }
        None
    }

    /// Enable stack check.
    ///
    /// When enabled, an explicit stack depth check will be performed on entry
    /// to each function to prevent stack overflow.
    ///
    /// Note that this doesn't guarantee deterministic execution across
    /// different platforms.
    pub fn enable_stack_check(&mut self, enable: bool)
        ensures
            final(self).stack_check() == enable,
            final(self).nan_canonicalization() == old(self).nan_canonicalization(),
            final(self).intrinsics() == old(self).intrinsics(),
    {
        self.enable_stack_check = enable;
    }

    /// Whether a canonical NaN is produced after operations that can give a NaN.
    pub fn canonicalize_nans(&mut self, enable: bool)
        ensures
            final(self).nan_canonicalization() == enable,
            final(self).stack_check() == old(self).stack_check(),
            final(self).intrinsics() == old(self).intrinsics(),
    {
        self.enable_nan_canonicalization = enable;
    }

    /// Whether the stack depth is checked on entry to each function.
    pub fn checks_stack(&self) -> (enabled: bool)
        ensures
            enabled == self.stack_check(),
    {
        self.enable_stack_check
    }

    /// Whether a canonical NaN is produced after operations that can give a NaN.
    pub fn canonicalizes_nans(&self) -> (enabled: bool)
        ensures
            enabled == self.nan_canonicalization(),
    {
        self.enable_nan_canonicalization
    }

    /// Gets the default features for this compiler in the given target:
    /// the default features without multiple values.
    pub fn default_features_for_target(&self, target: &Target) -> (features: Features)
        ensures
            features == (Features { multi_value: false, ..crate::compilation::default_features() }),
    {
        let mut features = Features::new();
        features.multi_value = false;
        features
    }
}

/// An error of code generation.
#[derive(Debug, PartialEq, Eq)]
pub struct CodegenError {
    /// What went wrong.
    pub message: String,
}

/// The compile error that an error of code generation gives.
pub fn to_compile_error(error: CodegenError) -> (converted: CompileError)
    ensures
        converted@ == CompileErrorView::Codegen(error.message@),
{
    CompileError::Codegen(error.message)
}

impl Singlepass {
    /// Enables position-independent code. Nothing is done: the code that
    /// the single-pass compiler emits is independent of its position anyway.
    pub fn enable_pic(&mut self)
        ensures
            *final(self) == *old(self),
    {
    }

    /// Transform it into the compiler
    pub fn compiler(self) -> (compiler: SinglepassCompiler)
        ensures
            compiler.spec_config() == self,
    {
        SinglepassCompiler::new(self)
    }
}

/// Why the single-pass compiler cannot compile for a target or a set of
/// features, if it cannot.
pub open spec fn unsupported(target: Target, features: Features) -> Option<CompileErrorView> {
    if target.architecture != Architecture::X86_64 {
        Some(CompileErrorView::UnsupportedTarget(architecture_name(target.architecture)))
    } else if !has_feature(target.cpu_features, CpuFeature::AVX) {
        Some(CompileErrorView::UnsupportedTarget("x86_64 without AVX"@))
    } else if features.multi_value {
        Some(CompileErrorView::UnsupportedFeature("multivalue"@))
    } else {
        None
    }
}

/// What is compiled for one local function.
#[derive(Debug, PartialEq, Eq)]
pub struct FunctionPlan {
    /// The function.
    pub index: LocalFunctionIndex,
    /// The type of the function.
    pub signature: FunctionType,
    /// The locals of the function, arguments excluded.
    pub locals: Vec<WpType>,
}

/// What is compiled for a module, and in which order.
#[derive(Debug, PartialEq, Eq)]
pub struct CompilationPlan {
    /// How arguments are passed to the compiled functions.
    pub calling_convention: CallingConvention,
    /// The size of a pointer on the target, in bytes.
    pub pointer_width: u8,
    /// The type of each imported function, by `FunctionIndex`: an import
    /// call trampoline is compiled for each.
    pub import_trampolines: Vec<FunctionType>,
    /// The local functions, by `LocalFunctionIndex`.
    pub functions: Vec<FunctionPlan>,
    /// The signatures of the module, by `SignatureIndex`: a function call
    /// trampoline is compiled for each.
    pub function_call_trampolines: Vec<FunctionType>,
    /// The type of each imported function, by `FunctionIndex`: a dynamic
    /// import trampoline is compiled for each.
    pub dynamic_function_trampolines: Vec<FunctionType>,
}

/// What the local functions of a module are planned as when the first `n`
/// bodies are read: the error of the first body whose locals do not parse,
/// or each function with its type and its locals.
pub open spec fn planned_functions(module: ModuleInfo, inputs: Seq<FunctionBodyData>, n: nat) -> Result<
    Seq<(FunctionTypeView, Seq<WpType>)>,
    CompileErrorView,
>
    decreases n,
{
    if n == 0 {
        Ok(Seq::empty())
    } else {
        match planned_functions(module, inputs, (n - 1) as nat) {
            Err(error) => Err(error),
            Ok(before) => match local_declarations(inputs[n - 1].data@, inputs[n - 1].module_offset) {
                Err(message) => Err(CompileErrorView::Wasm(message)),
                Ok(declarations) => Ok(
                    before.push(
                        (
                            module.function_type(
                                FunctionIndex((module.import_counts.functions + n - 1) as u32),
                            ),
                            expanded(declarations, declarations.len()),
                        ),
                    ),
                ),
            },
        }
    }
}

/// Whether `plan` is what compiling a module for a target is planned as:
/// the error of a target or a feature that is not supported, else the
/// error of the first body whose locals do not parse, else the functions of
/// the module in order, each with its type and its locals, and a trampoline
/// for each signature and for each imported function.
pub open spec fn is_plan_of(
    target: Target,
    compile_info: CompileModuleInfo,
    inputs: Seq<FunctionBodyData>,
    plan: Result<CompilationPlan, CompileError>,
) -> bool {
    match unsupported(target, compile_info.features) {
        Some(error) => plan matches Err(e) && e@ == error,
        None => match planned_functions(
            compile_info.module,
            inputs,
            inputs.len(),
        ) {
            Err(error) => plan matches Err(e) && e@ == error,
            Ok(functions) => plan matches Ok(p) && {
                &&& Some(p.calling_convention) == default_convention(target.operating_system)
                &&& p.pointer_width == 8
                &&& p.functions@.len() == functions.len()
                &&& forall|i: int|
                    0 <= i < functions.len() ==> (#[trigger] p.functions@[i]).index.index() == i
                        && p.functions@[i].signature@ == functions[i].0
                        && p.functions@[i].locals@ == functions[i].1
                &&& function_type_views(p.function_call_trampolines@) == function_type_views(
                    compile_info.module.signatures@,
                )
                &&& p.import_trampolines@.len() == compile_info.module.import_counts.functions
                &&& p.dynamic_function_trampolines@.len()
                    == compile_info.module.import_counts.functions
                &&& forall|i: int|
                    0 <= i < compile_info.module.import_counts.functions ==> (
                    #[trigger] p.import_trampolines@[i])@ == compile_info.module.function_type(
                        FunctionIndex(i as u32),
                    ) && p.dynamic_function_trampolines@[i]@
                        == compile_info.module.function_type(FunctionIndex(i as u32))
            },
        },
    }
}

/// Whether two plans hold the same.
pub open spec fn same_plan(a: CompilationPlan, b: CompilationPlan) -> bool {
    &&& a.calling_convention == b.calling_convention
    &&& a.pointer_width == b.pointer_width
    &&& a.functions@.len() == b.functions@.len()
    &&& forall|i: int|
        0 <= i < a.functions@.len() ==> (#[trigger] a.functions@[i]).index == b.functions@[i].index
            && a.functions@[i].signature@ == b.functions@[i].signature@ && a.functions@[i].locals@
            == b.functions@[i].locals@
    &&& function_type_views(a.import_trampolines@) == function_type_views(b.import_trampolines@)
    &&& function_type_views(a.function_call_trampolines@) == function_type_views(
        b.function_call_trampolines@,
    )
    &&& function_type_views(a.dynamic_function_trampolines@) == function_type_views(
        b.dynamic_function_trampolines@,
    )
}

/// Planning is deterministic: two plans of one module with the same bodies
/// for one target are the same error, or plans that hold the same.
pub proof fn lemma_plan_is_deterministic(
    target: Target,
    compile_info: CompileModuleInfo,
    inputs: Seq<FunctionBodyData>,
    first: Result<CompilationPlan, CompileError>,
    second: Result<CompilationPlan, CompileError>,
)
    requires
        is_plan_of(target, compile_info, inputs, first),
        is_plan_of(target, compile_info, inputs, second),
    ensures
        match (first, second) {
            (Ok(a), Ok(b)) => same_plan(a, b),
            (Err(a), Err(b)) => a@ == b@,
            _ => false,
        },
{
    match (first, second) {
        (Ok(a), Ok(b)) => {
            assert forall|i: int| 0 <= i < a.functions@.len() implies (#[trigger] a.functions@[i]).index
                == b.functions@[i].index && a.functions@[i].signature@ == b.functions@[i].signature@
                && a.functions@[i].locals@ == b.functions@[i].locals@ by {
                assert(a.functions@[i].index.index() == i);
                assert(b.functions@[i].index.index() == i);
            }
            assert forall|i: int| 0 <= i < a.import_trampolines@.len() implies (
            #[trigger] a.import_trampolines@[i])@ == b.import_trampolines@[i]@ by {
                assert(b.import_trampolines@[i]@ == compile_info.module.function_type(
                    FunctionIndex(i as u32),
                ));
            }
            assert forall|i: int| 0 <= i < a.dynamic_function_trampolines@.len() implies (
            #[trigger] a.dynamic_function_trampolines@[i])@ == b.dynamic_function_trampolines@[i]@ by {
                assert(a.import_trampolines@[i]@ == compile_info.module.function_type(
                    FunctionIndex(i as u32),
                ));
                assert(b.import_trampolines@[i]@ == compile_info.module.function_type(
                    FunctionIndex(i as u32),
                ));
            }
            assert(function_type_views(a.import_trampolines@) =~= function_type_views(
                b.import_trampolines@,
            ));
            assert(function_type_views(a.dynamic_function_trampolines@) =~= function_type_views(
                b.dynamic_function_trampolines@,
            ));
        },
        _ => {},
    }
}

/// A compiler that compiles a WebAssembly module with Singlepass.
/// It does the compilation in one pass
pub struct SinglepassCompiler {
    config: Singlepass,
}

impl SinglepassCompiler {
    /// The configuration of the compiler.
    pub closed spec fn spec_config(&self) -> Singlepass {
        self.config
    }

    /// Creates a new Singlepass compiler
    pub fn new(config: Singlepass) -> (compiler: Self)
        ensures
            compiler.spec_config() == config,
    {
        Self { config }
    }

    /// Gets the config for this Compiler
    pub fn config(&self) -> (config: &Singlepass)
        ensures
            *config == self.spec_config(),
    {
        &self.config
    }

    /// Plans the compilation of a module for a target: checks that the
    /// target and the features are supported, reads the locals of every
    /// function, and lists what is compiled, in the order of the module.
    ///
    /// Only x86_64 with AVX is supported, and not the multi-value feature.
    pub fn compile_module(
        &self,
        target: &Target,
        compile_info: &CompileModuleInfo,
        function_body_inputs: &[FunctionBodyData],
    ) -> (plan: Result<CompilationPlan, CompileError>)
        requires
            compile_info.module.wf(),
            function_body_inputs@.len() + compile_info.module.import_counts.functions
                == compile_info.module.functions@.len(),
            unsupported(*target, compile_info.features) is None ==> default_convention(
                target.operating_system,
            ) is Some,
            forall|i: int|
                0 <= i < function_body_inputs@.len() ==> (
                #[trigger] function_body_inputs@[i]).module_offset
                    + function_body_inputs@[i].data@.len() <= usize::MAX,
        ensures
            is_plan_of(*target, *compile_info, function_body_inputs@, plan),
    {
        if target.architecture != Architecture::X86_64 {
            return Err(CompileError::UnsupportedTarget(target.architecture.name().to_string()));
        }
        if !target.has(CpuFeature::AVX) {
            return Err(CompileError::UnsupportedTarget("x86_64 without AVX".to_string()));
        }
        if compile_info.features.multi_value {
            return Err(CompileError::UnsupportedFeature("multivalue".to_string()));
        }
        let calling_convention = match target.default_calling_convention() {
            Some(convention) => convention,
            None => CallingConvention::SystemV,
        };
        let module = &compile_info.module;
        let import_trampolines = module.imported_function_types();
        let mut functions: Vec<FunctionPlan> = Vec::new();
        let mut i: usize = 0;
        while i < function_body_inputs.len()
            invariant
                module == &compile_info.module,
                module.wf(),
                unsupported(*target, compile_info.features) is None,
                function_body_inputs@.len() + module.import_counts.functions == module.functions@.len(),
                i <= function_body_inputs@.len(),
                functions@.len() == i,
                forall|k: int|
                    0 <= k < function_body_inputs@.len() ==> (
                    #[trigger] function_body_inputs@[k]).module_offset
                        + function_body_inputs@[k].data@.len() <= usize::MAX,
                planned_functions(*module, function_body_inputs@, i as nat) matches Ok(planned)
                    && planned.len() == i && forall|k: int|
                    0 <= k < i ==> (#[trigger] functions@[k]).index.index() == k
                        && functions@[k].signature@ == planned[k].0 && functions@[k].locals@
                        == planned[k].1,
            decreases function_body_inputs@.len() - i,
        {
            let input = &function_body_inputs[i];
            let locals = match read_locals(input.data.as_slice(), input.module_offset) {
                Ok(locals) => locals,
                Err(error) => {
                    proof {
                        lemma_plan_error_stays(
                            *module,
                            function_body_inputs@,
                            (i + 1) as nat,
                            function_body_inputs@.len(),
                        );
                    }
                    return Err(error);
                },
            };
            let function = module.functions[module.import_counts.functions + i];
            let signature = module.signatures[function.index()].duplicate();
            functions.push(FunctionPlan { index: LocalFunctionIndex::new(i), signature, locals });
            i += 1;
        }
        let mut function_call_trampolines: Vec<FunctionType> = Vec::new();
        let mut s: usize = 0;
        while s < module.signatures.len()
            invariant
                s <= module.signatures@.len(),
                function_call_trampolines@.len() == s,
                forall|k: int|
                    0 <= k < s ==> (#[trigger] function_call_trampolines@[k])@ == module.signatures@[k]@,
            decreases module.signatures@.len() - s,
        {
            function_call_trampolines.push(module.signatures[s].duplicate());
            s += 1;
        }
        let dynamic_function_trampolines = module.imported_function_types();
        assert(function_type_views(function_call_trampolines@) =~= function_type_views(
            module.signatures@,
        ));
        Ok(
            CompilationPlan {
                calling_convention,
                pointer_width: 8,
                import_trampolines,
                functions,
                function_call_trampolines,
                dynamic_function_trampolines,
            },
        )
    }
}

/// Once the locals of a body have failed to parse, reading more bodies gives the same error.
proof fn lemma_plan_error_stays(module: ModuleInfo, inputs: Seq<FunctionBodyData>, n: nat, m: nat)
    requires
        n <= m,
        planned_functions(module, inputs, n) is Err,
    ensures
        planned_functions(module, inputs, m) == planned_functions(module, inputs, n),
    decreases m,
{
    if n < m {
        lemma_plan_error_stays(module, inputs, n, (m - 1) as nat);
    }
}

} // verus!
