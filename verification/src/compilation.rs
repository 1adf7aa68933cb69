//! What a compiler hands to the engine: function bodies, trampolines, custom
//! sections, and the relocations still to be applied to them.

use crate::indices::{GlobalIndex, JumpTable, LocalFunctionIndex, MemoryIndex, SectionIndex};
use crate::module::ModuleInfo;
use crate::trap::TrapInformation;
use crate::types::{MemoryStyle, TableStyle};
use vstd::prelude::*;

verus! {

/// The machine code of one function or trampoline.
#[derive(Debug, PartialEq, Eq)]
pub struct FunctionBody {
    /// The function body bytes.
    pub body: Vec<u8>,
}

/// How the site of a relocation is patched.
#[derive(Clone, Copy, Debug, PartialEq, Eq, Structural, Hash)]
pub enum RelocationKind {
    /// The absolute 64-bit address of the target.
    Abs8,
    /// The distance from the site to the target, in 32 bits.
    X86PCRel4,
    /// The distance from the site to the target, in 64 bits.
    X86PCRel8,
}

/// A built-in routine of the runtime that compiled code may call.
#[derive(Clone, Copy, Debug, PartialEq, Eq, Structural, Hash)]
pub struct LibCall(pub u32);

/// What a relocation refers to.
#[derive(Clone, Copy, Debug, PartialEq, Eq, Structural, Hash)]
pub enum RelocationTarget {
    /// A function defined in the module.
    LocalFunc(LocalFunctionIndex),
    /// A built-in routine of the runtime.
    LibCall(LibCall),
    /// A jump table of a function defined in the module.
    JumpTable(LocalFunctionIndex, JumpTable),
    /// A custom section of the compiled output.
    CustomSection(SectionIndex),
}

/// A patch still to be made in emitted code, once the address of its target is known.
#[derive(Clone, Copy, Debug, PartialEq, Eq, Structural, Hash)]
pub struct Relocation {
    /// How the site is patched.
    pub kind: RelocationKind,
    /// What the relocation refers to.
    pub reloc_target: RelocationTarget,
    /// The offset of the site, from the start of the code it is in.
    pub offset: u32,
    /// A number added to the address of the target.
    pub addend: i64,
}

/// What may be done with the memory that holds a custom section.
#[derive(Clone, Copy, Debug, PartialEq, Eq, Structural, Hash)]
pub enum CustomSectionProtection {
    /// The section holds data that is read.
    Read,
    /// The section holds code that is read and executed.
    ReadExecute,
}

/// A section of compiled output next to the function bodies: stub code or
/// read-only data.
#[derive(Debug, PartialEq, Eq)]
pub struct CustomSection {
    /// What may be done with the memory that holds the section.
    pub protection: CustomSectionProtection,
    /// The contents of the section.
    pub bytes: Vec<u8>,
    /// The relocations that apply to the section.
    pub relocations: Vec<Relocation>,
}

/// Where the debug information of the compiled output is.
#[derive(Clone, Copy, Debug, PartialEq, Eq, Structural)]
pub struct Dwarf {
    /// The section that holds the unwind information.
    pub eh_frame: SectionIndex,
}

/// One step of the map from native code to the source.
#[derive(Clone, Copy, Debug, PartialEq, Eq, Structural)]
pub struct InstructionAddressMap {
    /// The position in the WebAssembly source.
    pub srcloc: u32,
    /// The offset of the first native instruction generated for it.
    pub code_offset: usize,
    /// The length of the native code generated for it.
    pub code_len: usize,
}

/// What is known of a compiled function for backtraces and traps.
#[derive(Debug, PartialEq, Eq)]
pub struct CompiledFunctionFrameInfo {
    /// Where in the function's code a trap can occur, and which.
    pub traps: Vec<TrapInformation>,
    /// The map from the function's code to offsets in the source.
    pub address_map: Vec<InstructionAddressMap>,
}

/// The result of compiling one function.
#[derive(Debug, PartialEq, Eq)]
pub struct CompiledFunction {
    /// The function body.
    pub body: FunctionBody,
    /// The relocations (in the body)
    pub relocations: Vec<Relocation>,
    /// The offset of each jump table of the function, from the start of its body.
    pub jt_offsets: Vec<u32>,
    /// The frame information.
    pub frame_info: CompiledFunctionFrameInfo,
}

/// Everything a compiler produces for a module.
#[derive(Debug, PartialEq, Eq)]
pub struct Compilation {
    /// Compiled code for the function bodies, by `LocalFunctionIndex`.
    pub functions: Vec<CompiledFunction>,
    /// Custom sections for the module, by `SectionIndex`.
    pub custom_sections: Vec<CustomSection>,
    /// Trampolines to call a function defined locally in the wasm via a
    /// provided array of values, by `SignatureIndex`.
    pub function_call_trampolines: Vec<FunctionBody>,
    /// Trampolines to call a dynamic function defined in a host, from a
    /// function defined locally in the wasm, by `FunctionIndex` of the import.
    pub dynamic_function_trampolines: Vec<FunctionBody>,
    /// Where the debug information is, if there is any.
    pub debug: Option<Dwarf>,
}

/// The features of WebAssembly that a module may use.
#[derive(Clone, Copy, Debug, PartialEq, Eq, Structural)]
pub struct Features {
    /// Threads proposal should be enabled
    pub threads: bool,
    /// Reference Types proposal should be enabled
    pub reference_types: bool,
    /// SIMD proposal should be enabled
    pub simd: bool,
    /// Bulk Memory proposal should be enabled
    pub bulk_memory: bool,
    /// Multi Value proposal should be enabled
    pub multi_value: bool,
    /// Tail call proposal should be enabled
    pub tail_call: bool,
    /// Module Linking proposal should be enabled
    pub module_linking: bool,
    /// Multi Memory proposal should be enabled
    pub multi_memory: bool,
    /// 64-bit Memory proposal should be enabled
    pub memory64: bool,
    /// Wasm exceptions proposal should be enabled
    pub exceptions: bool,
}

impl Features {
    /// The features that are on by default: bulk memory and multiple values.
    pub fn new() -> (features: Self)
        ensures
            features == default_features(),
    {
        Features {
            threads: false,
            reference_types: false,
            simd: false,
            bulk_memory: true,
            multi_value: true,
            tail_call: false,
            module_linking: false,
            multi_memory: false,
            memory64: false,
            exceptions: false,
        }
    }
}

/// The features that are on by default: bulk memory and multiple values.
pub open spec fn default_features() -> Features {
    Features {
        threads: false,
        reference_types: false,
        simd: false,
        bulk_memory: true,
        multi_value: true,
        tail_call: false,
        module_linking: false,
        multi_memory: false,
        memory64: false,
        exceptions: false,
    }
}

/// Where in a memory a data segment is written.
#[derive(Clone, Copy, Debug, PartialEq, Eq, Structural)]
pub struct DataInitializerLocation {
    /// The index of the memory to initialize.
    pub memory_index: MemoryIndex,
    /// Optionally a global variable base to initialize at.
    pub base: Option<GlobalIndex>,
    /// A constant offset to initialize at.
    pub offset: usize,
}

/// A data segment: bytes written into a memory at instantiation.
#[derive(Debug, PartialEq, Eq)]
pub struct OwnedDataInitializer {
    /// The location where the initialization is to be performed.
    pub location: DataInitializerLocation,
    /// The initialization owned data.
    pub data: Vec<u8>,
}

/// A module with what the embedder chose for it: the style of each memory
/// and of each table.
pub struct CompileModuleInfo {
    /// The features used for compiling the module
    pub features: Features,
    /// The module information
    pub module: ModuleInfo,
    /// The memory styles used for compiling, by `MemoryIndex`.
    pub memory_styles: Vec<MemoryStyle>,
    /// The table plans used for compiling, by `TableIndex`.
    pub table_styles: Vec<TableStyle>,
}

/// Why a module could not be compiled.
#[derive(Debug, PartialEq, Eq)]
pub enum CompileError {
    /// A Wasm translation error occured.
    Wasm(String),
    /// A compilation error occured.
    Codegen(String),
    /// The module did not pass validation.
    Validate(String),
    /// The compiler doesn't support a Wasm feature
    UnsupportedFeature(String),
    /// The compiler cannot compile for the given target.
    UnsupportedTarget(String),
    /// Insufficient resources available for execution.
    Resource(String),
}

/// What a compile error says.
pub enum CompileErrorView {
    /// A Wasm translation error occured.
    Wasm(Seq<char>),
    /// A compilation error occured.
    Codegen(Seq<char>),
    /// The module did not pass validation.
    Validate(Seq<char>),
    /// The compiler doesn't support a Wasm feature
    UnsupportedFeature(Seq<char>),
    /// The compiler cannot compile for the given target.
    UnsupportedTarget(Seq<char>),
    /// Insufficient resources available for execution.
    Resource(Seq<char>),
}

impl View for CompileError {
    type V = CompileErrorView;

    open spec fn view(&self) -> CompileErrorView {
        match *self {
            CompileError::Wasm(m) => CompileErrorView::Wasm(m@),
            CompileError::Codegen(m) => CompileErrorView::Codegen(m@),
            CompileError::Validate(m) => CompileErrorView::Validate(m@),
            CompileError::UnsupportedFeature(m) => CompileErrorView::UnsupportedFeature(m@),
            CompileError::UnsupportedTarget(m) => CompileErrorView::UnsupportedTarget(m@),
            CompileError::Resource(m) => CompileErrorView::Resource(m@),
        }
    }
}

} // verus!
