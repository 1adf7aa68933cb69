//! The universal engine: it takes what a compiler produced for a module,
//! places it in code memory, links it, and publishes it as an artifact that
//! can be instantiated.

use crate::artifact::UniversalArtifact;
use crate::code_memory::{
    contents, executable_image, extent_of, image_of, laid_out, lemma_laid_out_holds, CodeMemory,
    CodeMemoryView, Extent, LimitedMemoryPool, Protection, ARCH_FUNCTION_ALIGNMENT,
    DATA_SECTION_ALIGNMENT, PAGE_SIZE,
};
use crate::compilation::{
    Compilation, CompileError, CompileErrorView, CompileModuleInfo, CompiledFunctionFrameInfo,
    CustomSection, CustomSectionProtection, Dwarf, Features, FunctionBody, OwnedDataInitializer,
    Relocation, RelocationTarget,
};
use crate::compiler::FunctionBodyData;
use crate::executable::DeserializeError;
use crate::indices::{ExportIndex, FunctionIndex, ImportIndex, SignatureIndex};
use crate::link::{relocated_all, relocation_width, relocations_fit, Addresses, AddressesView};
use crate::module::{export_entries, import_entries, GlobalInit, ModuleInfo, OwnedTableInitializer};
use crate::resolver::{VMImport, VMImportType};
use crate::sig_registry::{
    after_register, distinct, registered_index, SignatureRegistry, VMSharedSignatureIndex,
};
use crate::target::Target;
use crate::translator::ModuleTranslationState;
use crate::types::{
    function_type_views, FunctionType, FunctionTypeView, GlobalType, MemoryStyle, MemoryType,
    TableStyle, TableType,
};
use crate::vm::FunctionBodyPtr;
use vstd::prelude::*;

verus! {

/// A unique identifier for an Engine.
#[derive(Debug, PartialEq, Eq, Structural, PartialOrd, Ord)]
pub struct EngineId {
    id: usize,
}

impl EngineId {
    /// The number that identifies the engine.
    pub closed spec fn number(self) -> nat {
        self.id as nat
    }

    /// The identifier with the given number.
    pub fn new(id: usize) -> (engine_id: Self)
        ensures
            engine_id.number() == id,
    {
        EngineId { id }
    }

    /// Format this identifier as a string: its number in decimal.
    pub fn id(&self) -> (text: String)
        ensures
            text@ == crate::text::decimal(self.number()),
    {
        crate::text::usize_to_string(self.id)
    }
}

/// A wasm module compiled to some shape, ready to be loaded with `UniversalEngine` to produce an
/// `UniversalArtifact`.
///
/// This is the result obtained after validating and compiling a WASM module with any of the
/// supported compilers.
pub struct UniversalExecutable {
    /// The machine code of each local function, by `LocalFunctionIndex`.
    pub function_bodies: Vec<FunctionBody>,
    /// The relocations of each local function, by `LocalFunctionIndex`.
    pub function_relocations: Vec<Vec<Relocation>>,
    /// The offsets of the jump tables of each local function, by `LocalFunctionIndex`.
    pub function_jt_offsets: Vec<Vec<u32>>,
    /// What is known of each local function for backtraces, by `LocalFunctionIndex`.
    pub function_frame_info: Vec<CompiledFunctionFrameInfo>,
    /// The trampoline that calls into a function of each signature, by `SignatureIndex`.
    pub function_call_trampolines: Vec<FunctionBody>,
    /// The trampoline that calls out to each imported function, by `FunctionIndex`.
    pub dynamic_function_trampolines: Vec<FunctionBody>,
    /// The custom sections, by `SectionIndex`.
    pub custom_sections: Vec<CustomSection>,
    /// The relocations of each custom section, by `SectionIndex`.
    pub custom_section_relocations: Vec<Vec<Relocation>>,
    /// Where the debug information is, if there is any.
    pub debug: Option<Dwarf>,
    /// The module, with the styles of its memories and tables.
    pub compile_info: CompileModuleInfo,
    /// The data segments of the module.
    pub data_initializers: Vec<OwnedDataInitializer>,
    /// The CPU features the code was compiled for, one bit each.
    pub cpu_features: u64,
}

/// Whether `executable` is what a compiler produced, taken apart into
/// bodies, relocations, jump tables and frame information, together with
/// the module it was compiled from, its data segments and the CPU features
/// it was compiled for.
pub open spec fn assembled(
    executable: UniversalExecutable,
    compilation: Compilation,
    compile_info: CompileModuleInfo,
    data_initializers: Vec<OwnedDataInitializer>,
    cpu_features: u64,
) -> bool {
    &&& executable.function_bodies@.len() == compilation.functions@.len()
    &&& executable.function_relocations@.len() == compilation.functions@.len()
    &&& executable.function_jt_offsets@.len() == compilation.functions@.len()
    &&& executable.function_frame_info@.len() == compilation.functions@.len()
    &&& forall|i: int|
        0 <= i < compilation.functions@.len() ==> {
            &&& (#[trigger] executable.function_bodies@[i]) == compilation.functions@[i].body
            &&& executable.function_relocations@[i] == compilation.functions@[i].relocations
            &&& executable.function_jt_offsets@[i] == compilation.functions@[i].jt_offsets
            &&& executable.function_frame_info@[i] == compilation.functions@[i].frame_info
        }
    &&& executable.function_call_trampolines == compilation.function_call_trampolines
    &&& executable.dynamic_function_trampolines == compilation.dynamic_function_trampolines
    &&& executable.custom_sections@.len() == compilation.custom_sections@.len()
    &&& executable.custom_section_relocations@.len() == compilation.custom_sections@.len()
    &&& forall|i: int|
        0 <= i < compilation.custom_sections@.len() ==> {
            &&& (#[trigger] executable.custom_sections@[i]).protection
                == compilation.custom_sections@[i].protection
            &&& executable.custom_sections@[i].bytes == compilation.custom_sections@[i].bytes
            &&& executable.custom_sections@[i].relocations@.len() == 0
            &&& executable.custom_section_relocations@[i]
                == compilation.custom_sections@[i].relocations
        }
    &&& executable.debug == compilation.debug
    &&& executable.compile_info == compile_info
    &&& executable.data_initializers == data_initializers
    &&& executable.cpu_features == cpu_features
}

impl UniversalExecutable {
    /// Puts together what a compiler produced and what the module holds.
    #[verifier::loop_isolation(false)]
    pub fn new(
        compilation: Compilation,
        compile_info: CompileModuleInfo,
        data_initializers: Vec<OwnedDataInitializer>,
        cpu_features: u64,
    ) -> (executable: Self)
        ensures
            assembled(executable, compilation, compile_info, data_initializers, cpu_features),
    {
        let Compilation {
            functions,
            custom_sections,
            function_call_trampolines,
            dynamic_function_trampolines,
            debug,
        } = compilation;
        let ghost all_functions = functions@;
        let ghost all_sections = custom_sections@;
        let mut function_bodies: Vec<FunctionBody> = Vec::new();
        let mut function_relocations: Vec<Vec<Relocation>> = Vec::new();
        let mut function_jt_offsets: Vec<Vec<u32>> = Vec::new();
        let mut function_frame_info: Vec<CompiledFunctionFrameInfo> = Vec::new();
        let mut functions = functions;
        let mut rest: Vec<crate::compilation::CompiledFunction> = Vec::new();
        // The functions are taken from the back, so they are turned round first.
        while functions.len() > 0
            invariant
                functions@.len() + rest@.len() == all_functions.len(),
                forall|k: int| 0 <= k < functions@.len() ==> functions@[k] == all_functions[k],
                forall|k: int|
                    0 <= k < rest@.len() ==> rest@[k] == all_functions[all_functions.len() - 1 - k],
            decreases functions@.len(),
        {
            let f = functions.pop().unwrap();
            rest.push(f);
        }
        while rest.len() > 0
            invariant
                rest@.len() + function_bodies@.len() == all_functions.len(),
                function_relocations@.len() == function_bodies@.len(),
                function_jt_offsets@.len() == function_bodies@.len(),
                function_frame_info@.len() == function_bodies@.len(),
                forall|k: int|
                    0 <= k < rest@.len() ==> rest@[k] == all_functions[all_functions.len() - 1 - k],
                forall|i: int|
                    0 <= i < function_bodies@.len() ==> {
                        &&& (#[trigger] function_bodies@[i]) == all_functions[i].body
                        &&& function_relocations@[i] == all_functions[i].relocations
                        &&& function_jt_offsets@[i] == all_functions[i].jt_offsets
                        &&& function_frame_info@[i] == all_functions[i].frame_info
                    },
            decreases rest@.len(),
        {
            let f = rest.pop().unwrap();
            function_bodies.push(f.body);
            function_relocations.push(f.relocations);
            function_jt_offsets.push(f.jt_offsets);
            function_frame_info.push(f.frame_info);
        }
        let mut sections = custom_sections;
        let mut turned: Vec<CustomSection> = Vec::new();
        while sections.len() > 0
            invariant
                sections@.len() + turned@.len() == all_sections.len(),
                forall|k: int| 0 <= k < sections@.len() ==> sections@[k] == all_sections[k],
                forall|k: int|
                    0 <= k < turned@.len() ==> turned@[k] == all_sections[all_sections.len() - 1 - k],
            decreases sections@.len(),
        {
            let section = sections.pop().unwrap();
            turned.push(section);
        }
        let mut kept: Vec<CustomSection> = Vec::new();
        let mut custom_section_relocations: Vec<Vec<Relocation>> = Vec::new();
        while turned.len() > 0
            invariant
                turned@.len() + kept@.len() == all_sections.len(),
                custom_section_relocations@.len() == kept@.len(),
                forall|k: int|
                    0 <= k < turned@.len() ==> turned@[k] == all_sections[all_sections.len() - 1 - k],
                forall|i: int|
                    0 <= i < kept@.len() ==> {
                        &&& (#[trigger] kept@[i]).protection == all_sections[i].protection
                        &&& kept@[i].bytes == all_sections[i].bytes
                        &&& kept@[i].relocations@.len() == 0
                        &&& custom_section_relocations@[i] == all_sections[i].relocations
                    },
            decreases turned@.len(),
        {
            let section = turned.pop().unwrap();
            let CustomSection { protection, bytes, relocations } = section;
            custom_section_relocations.push(relocations);
            kept.push(CustomSection { protection, bytes, relocations: Vec::new() });
        }
        UniversalExecutable {
            function_bodies,
            function_relocations,
            function_jt_offsets,
            function_frame_info,
            function_call_trampolines,
            dynamic_function_trampolines,
            custom_sections: kept,
            custom_section_relocations,
            debug,
            compile_info,
            data_initializers,
            cpu_features,
        }
    }
}

/// The signatures held once the first `n` of `types` have been registered in order.
pub open spec fn register_all(sigs: Seq<FunctionTypeView>, types: Seq<FunctionTypeView>, n: nat) -> Seq<
    FunctionTypeView,
>
    decreases n,
{
    if n == 0 {
        sigs
    } else {
        after_register(register_all(sigs, types, (n - 1) as nat), types[n - 1])
    }
}

/// Registering types in order keeps what was registered before at its index,
/// keeps the signatures distinct, and adds at most one signature for each type.
pub proof fn lemma_register_all(sigs: Seq<FunctionTypeView>, types: Seq<FunctionTypeView>, n: nat)
    requires
        distinct(sigs),
    ensures
        distinct(register_all(sigs, types, n)),
        sigs.len() <= register_all(sigs, types, n).len() <= sigs.len() + n,
    decreases n,
{
    if n > 0 {
        lemma_register_all(sigs, types, (n - 1) as nat);
    }
}

/// Registering more types never leaves fewer signatures.
pub proof fn lemma_register_all_grows(
    sigs: Seq<FunctionTypeView>,
    types: Seq<FunctionTypeView>,
    m: nat,
    n: nat,
)
    requires
        m <= n,
    ensures
        register_all(sigs, types, m).len() <= register_all(sigs, types, n).len(),
    decreases n,
{
    if m < n {
        lemma_register_all_grows(sigs, types, m, (n - 1) as nat);
    }
}

/// Registers each of `types` in order and returns the index of each. The
/// registry must have room for those of them that it does not hold yet.
pub fn register_types(registry: &mut SignatureRegistry, types: &[FunctionType]) -> (indices: Vec<
    VMSharedSignatureIndex,
>)
    requires
        old(registry).wf(),
        register_all(old(registry)@, function_type_views(types@), types@.len()).len() <= u32::MAX,
    ensures
        final(registry).wf(),
        final(registry)@ == register_all(old(registry)@, function_type_views(types@), types@.len()),
        indices@.len() == types@.len(),
        forall|i: int|
            0 <= i < types@.len() ==> (#[trigger] indices@[i]).0 == registered_index(
                register_all(old(registry)@, function_type_views(types@), i as nat),
                types@[i]@,
            ),
{
    let ghost start = registry@;
    let ghost views = function_type_views(types@);
    let mut indices: Vec<VMSharedSignatureIndex> = Vec::new();
    let mut i: usize = 0;
    proof {
        registry.lemma_wf();
    }
    while i < types.len()
        invariant
            i <= types@.len(),
            views == function_type_views(types@),
            distinct(start),
            register_all(start, views, types@.len()).len() <= u32::MAX,
            registry.wf(),
            registry@ == register_all(start, views, i as nat),
            indices@.len() == i,
            forall|k: int|
                0 <= k < i ==> (#[trigger] indices@[k]).0 == registered_index(
                    register_all(start, views, k as nat),
                    types@[k]@,
                ),
        decreases types@.len() - i,
    {
        proof {
            lemma_register_all(start, views, i as nat);
            lemma_register_all_grows(start, views, (i + 1) as nat, types@.len() as nat);
        }
        let index = registry.register(types[i].as_ref());
        indices.push(index);
        i += 1;
    }
    indices
}

/// The bytes of each body.
pub open spec fn bodies(functions: Seq<FunctionBody>) -> Seq<Seq<u8>> {
    Seq::new(functions.len(), |i: int| functions[i].body@)
}

/// The bytes of those of the first `n` sections that have the given protection, in order.
pub open spec fn sections_with(
    sections: Seq<CustomSection>,
    protection: CustomSectionProtection,
    n: nat,
) -> Seq<Seq<u8>>
    decreases n,
{
    if n == 0 {
        Seq::empty()
    } else {
        let before = sections_with(sections, protection, (n - 1) as nat);
        if sections[n - 1].protection == protection {
            before.push(sections[n - 1].bytes@)
        } else {
            before
        }
    }
}

/// Borrows the bytes of each body.
fn body_slices<'a>(functions: &'a [FunctionBody], slices: &mut Vec<&'a [u8]>)
    ensures
        contents(final(slices)@) == contents(old(slices)@) + bodies(functions@),
{
    let ghost start = contents(slices@);
    let mut i: usize = 0;
    while i < functions.len()
        invariant
            i <= functions@.len(),
            contents(slices@) == start + bodies(functions@).take(i as int),
        decreases functions@.len() - i,
    {
        let ghost before = slices@;
        slices.push(functions[i].body.as_slice());
        assert(contents(slices@) =~= contents(before).push(functions@[i as int].body@));
        i += 1;
    }
}

/// Borrows the bytes of the sections that have the given protection, in order.
fn section_slices<'a>(sections: &'a [CustomSection], protection: CustomSectionProtection) -> (slices:
    Vec<&'a [u8]>)
    ensures
        contents(slices@) == sections_with(sections@, protection, sections@.len()),
{
    let mut slices: Vec<&'a [u8]> = Vec::new();
    let mut i: usize = 0;
    while i < sections.len()
        invariant
            i <= sections@.len(),
            contents(slices@) == sections_with(sections@, protection, i as nat),
        decreases sections@.len() - i,
    {
        if sections[i].protection == protection {
            let ghost before = slices@;
            slices.push(sections[i].bytes.as_slice());
        }
        i += 1;
    }
    slices
}

impl UniversalExecutable {
    /// The function bodies and trampolines of the executable in the order in
    /// which they are placed in memory: the function bodies, the call
    /// trampolines, and the dynamic import trampolines.
    pub open spec fn code(&self) -> Seq<Seq<u8>> {
        bodies(self.function_bodies@) + bodies(self.function_call_trampolines@) + bodies(
            self.dynamic_function_trampolines@,
        )
    }

    /// The executable sections in the order in which they are placed in memory.
    pub open spec fn executable_sections(&self) -> Seq<Seq<u8>> {
        sections_with(
            self.custom_sections@,
            CustomSectionProtection::ReadExecute,
            self.custom_sections@.len(),
        )
    }

    /// The data sections in the order in which they are placed in memory.
    pub open spec fn data(&self) -> Seq<Seq<u8>> {
        sections_with(self.custom_sections@, CustomSectionProtection::Read, self.custom_sections@.len())
    }

    /// The image of the executable in memory before it is linked.
    pub open spec fn image(&self) -> Seq<u8> {
        image_of(self.code(), self.executable_sections(), self.data())
    }

    /// The position in the image of the item at `i` of the code followed by
    /// the executable sections.
    pub open spec fn code_offset(&self, i: nat) -> nat {
        crate::code_memory::laid_out(
            self.code() + self.executable_sections(),
            ARCH_FUNCTION_ALIGNMENT as nat,
            i,
        ).len()
    }

    /// The position in the image of the custom section at `k`.
    pub open spec fn section_offset(&self, k: int) -> nat {
        if self.custom_sections@[k].protection == CustomSectionProtection::ReadExecute {
            self.code_offset(
                self.code().len() + sections_with(
                    self.custom_sections@,
                    CustomSectionProtection::ReadExecute,
                    k as nat,
                ).len(),
            )
        } else {
            executable_image(self.code(), self.executable_sections()).len()
                + crate::code_memory::laid_out(
                self.data(),
                DATA_SECTION_ALIGNMENT as nat,
                sections_with(self.custom_sections@, CustomSectionProtection::Read, k as nat).len(),
            ).len()
        }
    }
}

/// Whether the module holds the entity that `import` names, and a style for
/// it where it is a memory.
pub open spec fn import_held(info: CompileModuleInfo, import: ImportIndex) -> bool {
    match import {
        ImportIndex::Function(i) => i.index() < info.module.functions@.len(),
        ImportIndex::Table(i) => i.index() < info.module.tables@.len(),
        ImportIndex::Memory(i) => i.index() < info.module.memories@.len() && i.index()
            < info.memory_styles@.len(),
        ImportIndex::Global(i) => i.index() < info.module.globals@.len(),
    }
}

/// The type the module expects of `import`, where the signature at each
/// `SignatureIndex` has been registered as `shared` says.
pub open spec fn vm_import_type(
    info: CompileModuleInfo,
    shared: Seq<VMSharedSignatureIndex>,
    import: ImportIndex,
) -> VMImportType {
    match import {
        ImportIndex::Function(i) => VMImportType::Function(
            shared[info.module.functions@[i.index() as int].index() as int],
        ),
        ImportIndex::Table(i) => VMImportType::Table(info.module.tables@[i.index() as int]),
        ImportIndex::Memory(i) => VMImportType::Memory(
            info.module.memories@[i.index() as int],
            info.memory_styles@[i.index() as int],
        ),
        ImportIndex::Global(i) => VMImportType::Global(info.module.globals@[i.index() as int]),
    }
}

/// The imports of the module, each with the type the module expects of it.
pub fn vm_imports(info: &CompileModuleInfo, shared: &[VMSharedSignatureIndex]) -> (imports: Vec<VMImport>)
    requires
        info.module.wf(),
        shared@.len() == info.module.signatures@.len(),
        forall|k: int|
            0 <= k < import_entries(info.module.imports).len() ==> import_held(
                *info,
                (#[trigger] import_entries(info.module.imports)[k]).1,
            ),
    ensures
        imports@.len() == import_entries(info.module.imports).len(),
        forall|k: int|
            0 <= k < imports@.len() ==> {
                &&& (#[trigger] imports@[k]).module@ == import_entries(info.module.imports)[k].0.0
                &&& imports@[k].field@ == import_entries(info.module.imports)[k].0.1
                &&& imports@[k].import_no == import_entries(info.module.imports)[k].0.2
                &&& imports@[k].ty == vm_import_type(
                    *info,
                    shared@,
                    import_entries(info.module.imports)[k].1,
                )
            },
{
    let module = &info.module;
    let mut imports: Vec<VMImport> = Vec::new();
    let count = crate::module::import_count(&module.imports);
    let mut k: usize = 0;
    while k < count
        invariant
            info.module.wf(),
            module == &info.module,
            shared@.len() == info.module.signatures@.len(),
            forall|j: int|
                0 <= j < import_entries(info.module.imports).len() ==> import_held(
                    *info,
                    (#[trigger] import_entries(info.module.imports)[j]).1,
                ),
            count == import_entries(info.module.imports).len(),
            k <= count,
            imports@.len() == k,
            forall|j: int|
                0 <= j < k ==> {
                    &&& (#[trigger] imports@[j]).module@ == import_entries(info.module.imports)[j].0.0
                    &&& imports@[j].field@ == import_entries(info.module.imports)[j].0.1
                    &&& imports@[j].import_no == import_entries(info.module.imports)[j].0.2
                    &&& imports@[j].ty == vm_import_type(
                        *info,
                        shared@,
                        import_entries(info.module.imports)[j].1,
                    )
                },
        decreases count - k,
    {
        if let Some((key, entity)) = crate::module::import_at(&module.imports, k) {
            let ty = match entity {
                ImportIndex::Function(i) => {
                    let sig_idx = module.functions[i.index()];
                    VMImportType::Function(shared[sig_idx.index()])
                },
                ImportIndex::Table(i) => VMImportType::Table(module.tables[i.index()]),
                ImportIndex::Memory(i) => VMImportType::Memory(
                    module.memories[i.index()],
                    info.memory_styles[i.index()],
                ),
                ImportIndex::Global(i) => VMImportType::Global(module.globals[i.index()]),
            };
            imports.push(
                VMImport { module: key.0.clone(), field: key.1.clone(), import_no: key.2, ty },
            );
        }
        k += 1;
    }
    imports
}

/// The functions among the first `n` exports, each with its name.
pub open spec fn exported_function_entries(entries: Seq<(Seq<char>, ExportIndex)>, n: nat) -> Seq<
    (Seq<char>, FunctionIndex),
>
    decreases n,
{
    if n == 0 {
        Seq::empty()
    } else {
        let before = exported_function_entries(entries, (n - 1) as nat);
        match entries[n - 1].1 {
            ExportIndex::Function(i) => before.push((entries[n - 1].0, i)),
            _ => before,
        }
    }
}

/// What each exported function is called and which function it is.
pub open spec fn named_functions(exported: Seq<(String, FunctionIndex)>) -> Seq<
    (Seq<char>, FunctionIndex),
> {
    Seq::new(exported.len(), |i: int| (exported[i].0@, exported[i].1))
}

/// The exported functions of a module, each with its name, in the order of export.
pub fn exported_functions(module: &ModuleInfo) -> (exported: Vec<(String, FunctionIndex)>)
    ensures
        named_functions(exported@) == exported_function_entries(
            export_entries(module.exports),
            export_entries(module.exports).len(),
        ),
{
    let mut exported: Vec<(String, FunctionIndex)> = Vec::new();
    let count = crate::module::export_count(&module.exports);
    let mut n: usize = 0;
    while n < count
        invariant
            count == export_entries(module.exports).len(),
            n <= count,
            named_functions(exported@) == exported_function_entries(
                export_entries(module.exports),
                n as nat,
            ),
        decreases count - n,
    {
        if let Some((name, export)) = crate::module::export_at(&module.exports, n) {
            match export {
                ExportIndex::Function(i) => {
                    exported.push((name.clone(), *i));
                },
                _ => {},
            }
        }
        n += 1;
    }
    exported
}

/// Pairs each local entity with its style: those of `types` and `styles`
/// from position `from` on.
pub fn local_pairs<T: Copy, S: Copy>(types: &[T], styles: &[S], from: usize) -> (pairs: Vec<(T, S)>)
    requires
        from <= types@.len(),
        types@.len() == styles@.len(),
    ensures
        pairs@.len() == types@.len() - from,
        forall|i: int| 0 <= i < pairs@.len() ==> #[trigger] pairs@[i] == (types@[from + i], styles@[from + i]),
{
    let mut pairs: Vec<(T, S)> = Vec::new();
    let mut i: usize = from;
    while i < types.len()
        invariant
            from <= i <= types@.len(),
            types@.len() == styles@.len(),
            pairs@.len() == i - from,
            forall|k: int|
                0 <= k < pairs@.len() ==> #[trigger] pairs@[k] == (types@[from + k], styles@[from + k]),
        decreases types@.len() - i,
    {
        pairs.push((types[i], styles[i]));
        i += 1;
    }
    pairs
}

/// A copy of data segments.
pub fn copy_data_initializers(segments: &[OwnedDataInitializer]) -> (copy: Vec<OwnedDataInitializer>)
    ensures
        copy@.len() == segments@.len(),
        forall|i: int|
            0 <= i < copy@.len() ==> (#[trigger] copy@[i]).location == segments@[i].location
                && copy@[i].data@ == segments@[i].data@,
{
    let mut copy: Vec<OwnedDataInitializer> = Vec::new();
    let mut i: usize = 0;
    while i < segments.len()
        invariant
            i <= segments@.len(),
            copy@.len() == i,
            forall|k: int|
                0 <= k < i ==> (#[trigger] copy@[k]).location == segments@[k].location && copy@[k].data@
                    == segments@[k].data@,
        decreases segments@.len() - i,
    {
        copy.push(
            OwnedDataInitializer {
                location: segments[i].location,
                data: crate::executable::copy_bytes(segments[i].data.as_slice()),
            },
        );
        i += 1;
    }
    copy
}

/// A copy of element segments.
pub fn copy_table_initializers(segments: &[OwnedTableInitializer]) -> (copy: Vec<OwnedTableInitializer>)
    ensures
        copy@.len() == segments@.len(),
        forall|i: int|
            0 <= i < copy@.len() ==> {
                &&& (#[trigger] copy@[i]).table_index == segments@[i].table_index
                &&& copy@[i].base == segments@[i].base
                &&& copy@[i].offset == segments@[i].offset
                &&& copy@[i].elements@ == segments@[i].elements@
            },
{
    let mut copy: Vec<OwnedTableInitializer> = Vec::new();
    let mut i: usize = 0;
    while i < segments.len()
        invariant
            i <= segments@.len(),
            copy@.len() == i,
            forall|k: int|
                0 <= k < i ==> {
                    &&& (#[trigger] copy@[k]).table_index == segments@[k].table_index
                    &&& copy@[k].base == segments@[k].base
                    &&& copy@[k].offset == segments@[k].offset
                    &&& copy@[k].elements@ == segments@[k].elements@
                },
        decreases segments@.len() - i,
    {
        let source = &segments[i];
        let mut elements: Vec<FunctionIndex> = Vec::new();
        let mut j: usize = 0;
        while j < source.elements.len()
            invariant
                j <= source.elements@.len(),
                elements@ == source.elements@.take(j as int),
            decreases source.elements@.len() - j,
        {
            elements.push(source.elements[j]);
            j += 1;
        }
        copy.push(
            OwnedTableInitializer {
                table_index: source.table_index,
                base: source.base,
                offset: source.offset,
                elements,
            },
        );
        i += 1;
    }
    copy
}

/// The image with the relocations of the first `n` bodies applied, body by
/// body in order, where the body at `k` starts `offsets[k]` bytes into the image.
pub open spec fn linked(
    image: Seq<u8>,
    base: int,
    offsets: Seq<nat>,
    relocations: Seq<Vec<Relocation>>,
    addresses: AddressesView,
    n: nat,
) -> Seq<u8>
    decreases n,
{
    if n == 0 {
        image
    } else {
        relocated_all(
            linked(image, base, offsets, relocations, addresses, (n - 1) as nat),
            base,
            offsets[n - 1] as int,
            relocations[n - 1]@,
            addresses,
            relocations[n - 1]@.len(),
        )
    }
}

/// The positions as numbers.
pub open spec fn positions(offsets: Seq<usize>) -> Seq<nat> {
    Seq::new(offsets.len(), |i: int| offsets[i] as nat)
}

/// Applies the relocations of each body to a writable code memory, body by
/// body in order, where the body at `k` starts `offsets[k]` bytes into the image.
pub fn link_bodies(
    memory: &mut CodeMemory,
    offsets: &[usize],
    relocations: &[Vec<Relocation>],
    addresses: &Addresses<'_>,
)
    requires
        old(memory).wf(),
        old(memory)@.protection == Protection::ReadWrite,
        offsets@.len() == relocations@.len(),
        forall|k: int|
            0 <= k < relocations@.len() ==> relocations_fit(
                (#[trigger] relocations@[k])@,
                addresses@,
                offsets@[k] as int,
                old(memory)@.image.len() as int,
            ),
    ensures
        final(memory).wf(),
        final(memory)@ == (CodeMemoryView {
            image: linked(
                old(memory)@.image,
                old(memory)@.base as int,
                positions(offsets@),
                relocations@,
                addresses@,
                relocations@.len(),
            ),
            ..old(memory)@
        }),
        final(memory)@.image.len() == old(memory)@.image.len(),
{
    let ghost start = memory@;
    let mut k: usize = 0;
    while k < relocations.len()
        invariant
            k <= relocations@.len(),
            offsets@.len() == relocations@.len(),
            memory.wf(),
            forall|j: int|
                0 <= j < relocations@.len() ==> relocations_fit(
                    (#[trigger] relocations@[j])@,
                    addresses@,
                    offsets@[j] as int,
                    start.image.len() as int,
                ),
            memory@ == (CodeMemoryView {
                image: linked(
                    start.image,
                    start.base as int,
                    positions(offsets@),
                    relocations@,
                    addresses@,
                    k as nat,
                ),
                ..start
            }),
            memory@.image.len() == start.image.len(),
            start.protection == Protection::ReadWrite,
        decreases relocations@.len() - k,
    {
        memory.relocate(offsets[k], relocations[k].as_slice(), addresses);
        k += 1;
    }
}

/// A function defined in a module, placed in memory.
#[derive(Clone, Copy, Debug, PartialEq, Eq, Structural)]
pub struct VMLocalFunction {
    /// The address of the function body.
    pub body: FunctionBodyPtr,
    /// The length of the function body, in bytes.
    pub length: u32,
    /// The signature of the function, as registered with the engine.
    pub signature: VMSharedSignatureIndex,
}

impl UniversalExecutable {
    /// Whether `r` may stand among the relocations of code of `len` bytes:
    /// its site lies within the code, and its target is something the
    /// executable holds, or one of `libcalls` built-in routines.
    pub open spec fn relocation_allowed(&self, r: Relocation, len: nat, libcalls: nat) -> bool {
        &&& r.offset + relocation_width(r.kind) <= len
        &&& match r.reloc_target {
            RelocationTarget::LocalFunc(f) => f.index() < self.function_bodies@.len(),
            RelocationTarget::LibCall(l) => l.0 < libcalls,
            RelocationTarget::JumpTable(f, jt) => f.index() < self.function_bodies@.len()
                && jt.index() < self.function_jt_offsets@[f.index() as int]@.len(),
            RelocationTarget::CustomSection(s) => s.index() < self.custom_sections@.len(),
        }
    }

    /// The executable holds what its module announces: a body for each local
    /// function, a call trampoline for each signature, an import trampoline
    /// for each imported function, a style for each memory and table; and
    /// every relocation stays within its code and refers to something that
    /// is there.
    pub open spec fn wf(&self, libcalls: nat) -> bool {
        let module = self.compile_info.module;
        &&& module.wf()
        &&& self.compile_info.memory_styles@.len() == module.memories@.len()
        &&& self.compile_info.table_styles@.len() == module.tables@.len()
        &&& self.function_bodies@.len() + module.import_counts.functions == module.functions@.len()
        &&& self.function_relocations@.len() == self.function_bodies@.len()
        &&& self.function_jt_offsets@.len() == self.function_bodies@.len()
        &&& self.function_call_trampolines@.len() == module.signatures@.len()
        &&& self.dynamic_function_trampolines@.len() == module.import_counts.functions
        &&& self.custom_section_relocations@.len() == self.custom_sections@.len()
        &&& module.global_initializers@.len() + module.import_counts.globals == module.globals@.len()
        &&& forall|k: int|
            0 <= k < import_entries(module.imports).len() ==> import_held(
                self.compile_info,
                (#[trigger] import_entries(module.imports)[k]).1,
            )
        &&& forall|i: int, j: int|
            0 <= i < self.function_relocations@.len() && 0 <= j < self.function_relocations@[i]@.len()
                ==> self.relocation_allowed(
                #[trigger] self.function_relocations@[i]@[j],
                self.function_bodies@[i].body@.len(),
                libcalls,
            )
        &&& forall|k: int, j: int|
            0 <= k < self.custom_section_relocations@.len() && 0 <= j
                < self.custom_section_relocations@[k]@.len() ==> self.relocation_allowed(
                #[trigger] self.custom_section_relocations@[k]@[j],
                self.custom_sections@[k].bytes@.len(),
                libcalls,
            )
    }

    /// Where everything is once the image is placed at address `base`.
    pub open spec fn addresses(&self, base: nat, libcalls: Seq<usize>) -> AddressesView {
        AddressesView {
            functions: Seq::new(
                self.function_bodies@.len(),
                |i: int| (base + self.code_offset(i as nat)) as usize,
            ),
            jt_offsets: Seq::new(
                self.function_jt_offsets@.len(),
                |i: int| self.function_jt_offsets@[i]@,
            ),
            sections: Seq::new(
                self.custom_sections@.len(),
                |k: int| (base + self.section_offset(k)) as usize,
            ),
            libcalls,
        }
    }

    /// The image of the executable placed at address `base` and linked: the
    /// relocations of the custom sections applied, then those of the functions.
    pub open spec fn linked_image(&self, base: nat, libcalls: Seq<usize>) -> Seq<u8> {
        let addresses = self.addresses(base, libcalls);
        linked(
            linked(
                self.image(),
                base as int,
                Seq::new(self.custom_sections@.len(), |k: int| self.section_offset(k)),
                self.custom_section_relocations@,
                addresses,
                self.custom_sections@.len(),
            ),
            base as int,
            Seq::new(self.function_bodies@.len(), |i: int| self.code_offset(i as nat)),
            self.function_relocations@,
            addresses,
            self.function_bodies@.len(),
        )
    }
}

/// Among `n` sections there are at most `n` of one protection.
proof fn lemma_sections_with_len(
    sections: Seq<CustomSection>,
    protection: CustomSectionProtection,
    n: nat,
)
    ensures
        sections_with(sections, protection, n).len() <= n,
    decreases n,
{
    if n > 0 {
        lemma_sections_with_len(sections, protection, (n - 1) as nat);
    }
}

/// Among more sections there are no fewer of one protection.
pub proof fn lemma_sections_with_grows(
    sections: Seq<CustomSection>,
    protection: CustomSectionProtection,
    n: nat,
    m: nat,
)
    requires
        n <= m,
    ensures
        sections_with(sections, protection, n).len() <= sections_with(sections, protection, m).len(),
        n < m && sections[n as int].protection == protection ==> sections_with(
            sections,
            protection,
            n,
        ).len() < sections_with(sections, protection, m).len(),
        n < m && sections[n as int].protection == protection ==> sections_with(
            sections,
            protection,
            m,
        )[sections_with(sections, protection, n).len() as int] == sections[n as int].bytes@,
    decreases m,
{
    if n < m {
        lemma_sections_with_grows(sections, protection, n, (m - 1) as nat);
    }
}

/// Everything laid out in an image lies within it, where its extent says.
pub proof fn lemma_extents_in_image(
    functions: Seq<Seq<u8>>,
    executable_sections: Seq<Seq<u8>>,
    data: Seq<Seq<u8>>,
)
    ensures
        executable_image(functions, executable_sections).len() <= image_of(
            functions,
            executable_sections,
            data,
        ).len(),
        executable_image(functions, executable_sections).len() % (PAGE_SIZE as nat) == 0,
        forall|i: int|
            0 <= i < (functions + executable_sections).len() ==> (#[trigger] laid_out(
                functions + executable_sections,
                ARCH_FUNCTION_ALIGNMENT as nat,
                i as nat,
            )).len() + (functions + executable_sections)[i].len() <= executable_image(
                functions,
                executable_sections,
            ).len(),
        forall|j: int|
            0 <= j < data.len() ==> executable_image(functions, executable_sections).len() + (
            #[trigger] laid_out(data, DATA_SECTION_ALIGNMENT as nat, j as nat)).len() + data[j].len()
                <= image_of(functions, executable_sections, data).len(),
{
    let code = functions + executable_sections;
    assert forall|i: int| 0 <= i < code.len() implies (#[trigger] laid_out(
        code,
        ARCH_FUNCTION_ALIGNMENT as nat,
        i as nat,
    )).len() + code[i].len() <= executable_image(functions, executable_sections).len() by {
        lemma_laid_out_holds(code, ARCH_FUNCTION_ALIGNMENT as nat, code.len(), i);
    }
    assert forall|j: int| 0 <= j < data.len() implies executable_image(
        functions,
        executable_sections,
    ).len() + (#[trigger] laid_out(data, DATA_SECTION_ALIGNMENT as nat, j as nat)).len()
        + data[j].len() <= image_of(functions, executable_sections, data).len() by {
        lemma_laid_out_holds(data, DATA_SECTION_ALIGNMENT as nat, data.len(), j);
    }
}

/// Where the code of an executable has been placed in an image.
pub struct Placement {
    /// Where each function body, call trampoline and dynamic import
    /// trampoline is, in this order.
    pub code: Vec<Extent>,
    /// Where each custom section is, in the order of the sections.
    pub sections: Vec<Extent>,
}

/// Places the code and the sections of an executable in a fresh code memory.
///
/// Fails with a resource error, and leaves the memory as it is, if the image
/// does not fit.
pub fn place(executable: &UniversalExecutable, memory: &mut CodeMemory) -> (placed: Result<
    Placement,
    CompileError,
>)
    requires
        old(memory).wf(),
        old(memory)@.image.len() == 0,
        old(memory)@.protection == Protection::ReadWrite,
    ensures
        final(memory).wf(),
        placed is Ok <==> executable.image().len() <= old(memory)@.capacity,
        placed matches Err(error) ==> final(memory)@ == old(memory)@ && error@
            == CompileErrorView::Resource(
            "failed to allocate memory for functions: not enough code memory for the module"@,
        ),
        placed matches Ok(placement) ==> {
            &&& final(memory)@ == (CodeMemoryView {
                image: executable.image(),
                executable_len: executable_image(
                    executable.code(),
                    executable.executable_sections(),
                ).len(),
                ..old(memory)@
            })
            &&& placement.code@.len() == executable.code().len()
            &&& placement.sections@.len() == executable.custom_sections@.len()
            &&& forall|i: int|
                0 <= i < placement.code@.len() ==> (#[trigger] placement.code@[i]).offset
                    == executable.code_offset(i as nat) && placement.code@[i].len
                    == executable.code()[i].len()
            &&& forall|k: int|
                0 <= k < placement.sections@.len() ==> (#[trigger] placement.sections@[k]).offset
                    == executable.section_offset(k) && placement.sections@[k].len
                    == executable.custom_sections@[k].bytes@.len()
            &&& forall|i: int|
                0 <= i < placement.code@.len() ==> (#[trigger] placement.code@[i]).offset
                    + placement.code@[i].len <= executable.image().len()
            &&& forall|k: int|
                0 <= k < placement.sections@.len() ==> (#[trigger] placement.sections@[k]).offset
                    + placement.sections@[k].len <= executable.image().len()
        },
{
    let mut code: Vec<&[u8]> = Vec::new();
    body_slices(executable.function_bodies.as_slice(), &mut code);
    body_slices(executable.function_call_trampolines.as_slice(), &mut code);
    body_slices(executable.dynamic_function_trampolines.as_slice(), &mut code);
    let executable_sections = section_slices(
        executable.custom_sections.as_slice(),
        CustomSectionProtection::ReadExecute,
    );
    let data_sections = section_slices(
        executable.custom_sections.as_slice(),
        CustomSectionProtection::Read,
    );
    let allocation = match memory.allocate(
        code.as_slice(),
        executable_sections.as_slice(),
        data_sections.as_slice(),
    ) {
        Ok(allocation) => allocation,
        Err(_) => {
            return Err(
                CompileError::Resource(
                    "failed to allocate memory for functions: not enough code memory for the module".to_string(),
                ),
            );
        },
    };
    proof {
        lemma_extents_in_image(executable.code(), executable.executable_sections(), executable.data());
    }
    let ghost all = executable.code() + executable.executable_sections();
    let ghost start = executable_image(executable.code(), executable.executable_sections()).len();
    let mut sections: Vec<Extent> = Vec::new();
    let mut next_executable: usize = 0;
    let mut next_data: usize = 0;
    let mut k: usize = 0;
    while k < executable.custom_sections.len()
        invariant
            k <= executable.custom_sections@.len(),
            all == executable.code() + executable.executable_sections(),
            start == executable_image(executable.code(), executable.executable_sections()).len(),
            start + laid_out(
                executable.data(),
                DATA_SECTION_ALIGNMENT as nat,
                executable.data().len(),
            ).len() == memory@.image.len(),
            memory.wf(),
            allocation.executable_sections@.len() == executable.executable_sections().len(),
            allocation.data_sections@.len() == executable.data().len(),
            forall|i: int|
                0 <= i < executable.executable_sections().len()
                    ==> #[trigger] allocation.executable_sections@[i] == extent_of(
                    all,
                    ARCH_FUNCTION_ALIGNMENT as nat,
                    0,
                    executable.code().len() + i,
                ),
            forall|i: int|
                0 <= i < executable.data().len() ==> #[trigger] allocation.data_sections@[i]
                    == extent_of(executable.data(), DATA_SECTION_ALIGNMENT as nat, start, i),
            next_executable == sections_with(
                executable.custom_sections@,
                CustomSectionProtection::ReadExecute,
                k as nat,
            ).len(),
            next_data == sections_with(
                executable.custom_sections@,
                CustomSectionProtection::Read,
                k as nat,
            ).len(),
            sections@.len() == k,
            forall|j: int|
                0 <= j < k ==> (#[trigger] sections@[j]).offset == executable.section_offset(j)
                    && sections@[j].len == executable.custom_sections@[j].bytes@.len()
                    && sections@[j].offset + sections@[j].len <= memory@.image.len(),
        decreases executable.custom_sections@.len() - k,
    {
        proof {
            lemma_sections_with_grows(
                executable.custom_sections@,
                CustomSectionProtection::ReadExecute,
                k as nat,
                executable.custom_sections@.len(),
            );
            lemma_sections_with_grows(
                executable.custom_sections@,
                CustomSectionProtection::Read,
                k as nat,
                executable.custom_sections@.len(),
            );
            lemma_extents_in_image(
                executable.code(),
                executable.executable_sections(),
                executable.data(),
            );
            lemma_sections_with_len(
                executable.custom_sections@,
                CustomSectionProtection::ReadExecute,
                k as nat,
            );
            lemma_sections_with_len(executable.custom_sections@, CustomSectionProtection::Read, k as nat);
        }
        match executable.custom_sections[k].protection {
            CustomSectionProtection::ReadExecute => {
                let extent = allocation.executable_sections[next_executable];
                sections.push(extent);
                next_executable += 1;
            },
            CustomSectionProtection::Read => {
                let extent = allocation.data_sections[next_data];
                sections.push(extent);
                next_data += 1;
            },
        }
        k += 1;
    }
    Ok(Placement { code: allocation.functions, sections })
}

/// The addresses of what lies in an image placed at `base`, from position
/// `from` up to position `to` of `extents`.
pub fn addresses_at(extents: &[Extent], from: usize, to: usize, base: usize) -> (addresses: Vec<usize>)
    requires
        from <= to <= extents@.len(),
        forall|i: int| from <= i < to ==> base + (#[trigger] extents@[i]).offset <= usize::MAX,
    ensures
        addresses@.len() == to - from,
        forall|i: int|
            0 <= i < addresses@.len() ==> #[trigger] addresses@[i] == base + extents@[from + i].offset,
{
    let mut addresses: Vec<usize> = Vec::new();
    let mut i: usize = from;
    while i < to
        invariant
            from <= i <= to <= extents@.len(),
            forall|k: int| from <= k < to ==> base + (#[trigger] extents@[k]).offset <= usize::MAX,
            addresses@.len() == i - from,
            forall|k: int|
                0 <= k < addresses@.len() ==> #[trigger] addresses@[k] == base + extents@[from
                    + k].offset,
        decreases to - i,
    {
        addresses.push(base + extents[i].offset);
        i += 1;
    }
    addresses
}

/// The inner contents of `UniversalEngine`
pub struct UniversalEngineInner<C> {
    /// The compiler
    compiler: Option<C>,
    /// The features to compile the Wasm module with
    features: Features,
    /// The code memory is responsible of publishing the compiled
    /// functions to memory.
    code_memory: Vec<CodeMemory>,
    /// The signature registry is used mainly to operate with trampolines
    /// performantly.
    signatures: SignatureRegistry,
    /// The regions that the host has reserved for code and that are not in use yet.
    pool: LimitedMemoryPool,
}

impl<C> UniversalEngineInner<C> {
    /// The signatures registered with the engine, each at its index.
    pub closed spec fn signatures(&self) -> Seq<FunctionTypeView> {
        self.signatures@
    }

    /// The code memories of the modules loaded so far, in order.
    pub closed spec fn code_memories(&self) -> Seq<CodeMemoryView> {
        Seq::new(self.code_memory@.len(), |i: int| self.code_memory@[i]@)
    }

    /// The compiler of the engine, if it has one.
    pub closed spec fn spec_compiler(&self) -> Option<C> {
        self.compiler
    }

    /// Whether the engine has a compiler.
    pub open spec fn has_compiler(&self) -> bool {
        self.spec_compiler() is Some
    }

    /// The features that modules are compiled with.
    pub closed spec fn spec_features(&self) -> Features {
        self.features
    }

    /// The regions for code that are left in the pool of the engine.
    pub closed spec fn pool(&self) -> Seq<CodeMemoryView> {
        self.pool@
    }

    /// The registry and the pool are well formed.
    pub closed spec fn wf(&self) -> bool {
        self.signatures.wf() && self.pool.wf()
    }

    /// A well-formed engine holds distinct signatures.
    pub proof fn lemma_wf(&self)
        requires
            self.wf(),
        ensures
            distinct(self.signatures()),
    {
        self.signatures.lemma_wf();
    }

    /// Gets the compiler associated to this engine.
    pub fn compiler(&self) -> (compiler: Result<&C, CompileError>)
        ensures
            compiler is Ok <==> self.has_compiler(),
            compiler matches Ok(held) ==> self.spec_compiler() == Some(*held),
            compiler matches Err(error) ==> error@ == CompileErrorView::Codegen(
                "The UniversalEngine is operating in headless mode, so it can only execute already compiled Modules."@,
            ),
    {
        match &self.compiler {
            Some(compiler) => Ok(compiler),
            None => Err(
                CompileError::Codegen(
                    "The UniversalEngine is operating in headless mode, so it can only execute already compiled Modules.".to_string(),
                ),
            ),
        }
    }

    /// The Wasm features
    pub fn features(&self) -> (features: &Features)
        ensures
            *features == self.spec_features(),
    {
        &self.features
    }
}

/// The signature of each local function: what the signature of the function
/// at each position past the imports has been registered as.
pub open spec fn local_signature(
    module: ModuleInfo,
    shared: Seq<VMSharedSignatureIndex>,
    i: int,
) -> VMSharedSignatureIndex {
    shared[module.functions@[module.import_counts.functions + i].index() as int]
}

/// The local functions of an executable placed at `base`: each with the
/// address and the length of its body, and its registered signature.
///
/// Fails if a body is longer than 2³²−1 bytes.
pub fn local_functions(
    executable: &UniversalExecutable,
    code: &[Extent],
    base: usize,
    shared: &[VMSharedSignatureIndex],
) -> (functions: Result<Vec<VMLocalFunction>, CompileError>)
    requires
        executable.compile_info.module.wf(),
        executable.function_bodies@.len() + executable.compile_info.module.import_counts.functions
            == executable.compile_info.module.functions@.len(),
        shared@.len() == executable.compile_info.module.signatures@.len(),
        code@.len() >= executable.function_bodies@.len(),
        forall|i: int|
            0 <= i < executable.function_bodies@.len() ==> (#[trigger] code@[i]).len
                == executable.function_bodies@[i].body@.len() && base + code@[i].offset <= usize::MAX,
    ensures
        functions is Ok <==> forall|i: int|
            0 <= i < executable.function_bodies@.len() ==> (
            #[trigger] executable.function_bodies@[i]).body@.len() <= u32::MAX,
        functions matches Err(error) ==> error@ == CompileErrorView::Codegen(
            "function body length exceeds 4GiB"@,
        ),
        functions matches Ok(placed) ==> placed@.len() == executable.function_bodies@.len()
            && forall|i: int|
            0 <= i < placed@.len() ==> #[trigger] placed@[i] == (VMLocalFunction {
                body: FunctionBodyPtr((base + code@[i].offset) as usize),
                length: code@[i].len as u32,
                signature: local_signature(executable.compile_info.module, shared@, i),
            }),
{
    let module = &executable.compile_info.module;
    let count = executable.function_bodies.len();
    let mut placed: Vec<VMLocalFunction> = Vec::new();
    let mut i: usize = 0;
    while i < count
        invariant
            module == &executable.compile_info.module,
            module.wf(),
            count == executable.function_bodies@.len(),
            count + module.import_counts.functions == module.functions@.len(),
            shared@.len() == module.signatures@.len(),
            code@.len() >= count,
            forall|k: int|
                0 <= k < count ==> (#[trigger] code@[k]).len == executable.function_bodies@[k].body@.len()
                    && base + code@[k].offset <= usize::MAX,
            i <= count,
            placed@.len() == i,
            forall|k: int|
                0 <= k < i ==> (#[trigger] executable.function_bodies@[k]).body@.len() <= u32::MAX,
            forall|k: int|
                0 <= k < i ==> #[trigger] placed@[k] == (VMLocalFunction {
                    body: FunctionBodyPtr((base + code@[k].offset) as usize),
                    length: code@[k].len as u32,
                    signature: local_signature(*module, shared@, k),
                }),
        decreases count - i,
    {
        let extent = code[i];
        if extent.len > u32::MAX as usize {
            return Err(CompileError::Codegen("function body length exceeds 4GiB".to_string()));
        }
        let sig_idx = module.functions[module.import_counts.functions + i];
        placed.push(
            VMLocalFunction {
                body: FunctionBodyPtr(base + extent.offset),
                length: extent.len as u32,
                signature: shared[sig_idx.index()],
            },
        );
        i += 1;
    }
    Ok(placed)
}

/// The positions of the first `count` of `extents`.
pub fn offsets_of(extents: &[Extent], count: usize) -> (offsets: Vec<usize>)
    requires
        count <= extents@.len(),
    ensures
        offsets@.len() == count,
        forall|i: int| 0 <= i < count ==> #[trigger] offsets@[i] == extents@[i].offset,
{
    let mut offsets: Vec<usize> = Vec::new();
    let mut i: usize = 0;
    while i < count
        invariant
            i <= count <= extents@.len(),
            offsets@.len() == i,
            forall|k: int| 0 <= k < i ==> #[trigger] offsets@[k] == extents@[k].offset,
        decreases count - i,
    {
        offsets.push(extents[i].offset);
        i += 1;
    }
    offsets
}

/// Links an executable that has been placed in a writable code memory: the
/// relocations of the custom sections are applied, then those of the functions.
pub fn link_module(
    executable: &UniversalExecutable,
    memory: &mut CodeMemory,
    placement: &Placement,
    libcalls: &[usize],
)
    requires
        old(memory).wf(),
        old(memory)@.protection == Protection::ReadWrite,
        old(memory)@.image == executable.image(),
        executable.wf(libcalls@.len()),
        placement.code@.len() == executable.code().len(),
        placement.sections@.len() == executable.custom_sections@.len(),
        forall|i: int|
            0 <= i < placement.code@.len() ==> (#[trigger] placement.code@[i]).offset
                == executable.code_offset(i as nat) && placement.code@[i].len
                == executable.code()[i].len() && placement.code@[i].offset + placement.code@[i].len
                <= executable.image().len(),
        forall|k: int|
            0 <= k < placement.sections@.len() ==> (#[trigger] placement.sections@[k]).offset
                == executable.section_offset(k) && placement.sections@[k].len
                == executable.custom_sections@[k].bytes@.len() && placement.sections@[k].offset
                + placement.sections@[k].len <= executable.image().len(),
    ensures
        final(memory).wf(),
        final(memory)@ == (CodeMemoryView {
            image: executable.linked_image(old(memory)@.base, libcalls@),
            ..old(memory)@
        }),
{
    let base = memory.base();
    let count = executable.function_bodies.len();
    let function_addresses = addresses_at(placement.code.as_slice(), 0, count, base);
    let section_addresses = addresses_at(
        placement.sections.as_slice(),
        0,
        placement.sections.len(),
        base,
    );
    let addresses = Addresses {
        functions: function_addresses.as_slice(),
        jt_offsets: executable.function_jt_offsets.as_slice(),
        sections: section_addresses.as_slice(),
        libcalls,
    };
    let section_offsets = offsets_of(placement.sections.as_slice(), placement.sections.len());
    let function_offsets = offsets_of(placement.code.as_slice(), count);
    proof {
        let expected = executable.addresses(base as nat, libcalls@);
        assert(addresses@.functions =~= expected.functions);
        assert(addresses@.sections =~= expected.sections);
        assert(positions(section_offsets@) =~= Seq::new(
            executable.custom_sections@.len(),
            |k: int| executable.section_offset(k),
        ));
        assert(positions(function_offsets@) =~= Seq::new(
            executable.function_bodies@.len(),
            |i: int| executable.code_offset(i as nat),
        ));
    }
    link_bodies(
        memory,
        section_offsets.as_slice(),
        executable.custom_section_relocations.as_slice(),
        &addresses,
    );
    link_bodies(
        memory,
        function_offsets.as_slice(),
        executable.function_relocations.as_slice(),
        &addresses,
    );
}

/// What each signature of the module is registered as, where the signatures
/// are registered in order with a registry that holds `sigs`.
pub open spec fn shared_signatures(sigs: Seq<FunctionTypeView>, types: Seq<FunctionTypeView>) -> Seq<int> {
    Seq::new(types.len(), |i: int| registered_index(register_all(sigs, types, i as nat), types[i]))
}

/// Whether `artifact` is what loading `executable` at address `base` gives,
/// where the signatures of the module have been registered as `artifact.signatures`.
pub open spec fn describes(artifact: UniversalArtifact, executable: UniversalExecutable, base: nat) -> bool {
    let info = executable.compile_info;
    let module = info.module;
    let functions = executable.function_bodies@.len();
    let calls = executable.function_call_trampolines@.len();
    &&& artifact.import_counts == module.import_counts
    &&& artifact.start_function == module.start_function
    &&& artifact.signatures@.len() == module.signatures@.len()
    &&& artifact.imports@.len() == import_entries(module.imports).len()
    &&& forall|k: int|
        0 <= k < artifact.imports@.len() ==> {
            &&& (#[trigger] artifact.imports@[k]).module@ == import_entries(module.imports)[k].0.0
            &&& artifact.imports@[k].field@ == import_entries(module.imports)[k].0.1
            &&& artifact.imports@[k].import_no == import_entries(module.imports)[k].0.2
            &&& artifact.imports@[k].ty == vm_import_type(
                info,
                artifact.signatures@,
                import_entries(module.imports)[k].1,
            )
        }
    &&& artifact.functions@.len() == functions
    &&& forall|i: int|
        0 <= i < functions ==> #[trigger] artifact.functions@[i] == (VMLocalFunction {
            body: FunctionBodyPtr((base + executable.code_offset(i as nat)) as usize),
            length: executable.function_bodies@[i].body@.len() as u32,
            signature: local_signature(module, artifact.signatures@, i),
        })
    &&& artifact.function_call_trampolines@.len() == calls
    &&& forall|j: int|
        0 <= j < calls ==> #[trigger] artifact.function_call_trampolines@[j] == base
            + executable.code_offset((functions + j) as nat)
    &&& artifact.dynamic_function_trampolines@.len() == executable.dynamic_function_trampolines@.len()
    &&& forall|j: int|
        0 <= j < executable.dynamic_function_trampolines@.len()
            ==> (#[trigger] artifact.dynamic_function_trampolines@[j]).0 == base
            + executable.code_offset((functions + calls + j) as nat)
    &&& named_functions(artifact.exported_functions@) == exported_function_entries(
        export_entries(module.exports),
        export_entries(module.exports).len(),
    )
    &&& artifact.local_memories@.len() == module.memories@.len() - module.import_counts.memories
    &&& forall|i: int|
        0 <= i < artifact.local_memories@.len() ==> #[trigger] artifact.local_memories@[i] == (
            module.memories@[module.import_counts.memories + i],
            info.memory_styles@[module.import_counts.memories + i],
        )
    &&& artifact.local_tables@.len() == module.tables@.len() - module.import_counts.tables
    &&& forall|i: int|
        0 <= i < artifact.local_tables@.len() ==> #[trigger] artifact.local_tables@[i] == (
            module.tables@[module.import_counts.tables + i],
            info.table_styles@[module.import_counts.tables + i],
        )
    &&& artifact.local_globals@.len() == module.global_initializers@.len()
    &&& forall|i: int|
        0 <= i < artifact.local_globals@.len() ==> #[trigger] artifact.local_globals@[i] == (
            module.globals@[module.import_counts.globals + i],
            module.global_initializers@[i],
        )
    &&& artifact.data_segments@.len() == executable.data_initializers@.len()
    &&& forall|i: int|
        0 <= i < artifact.data_segments@.len() ==> (#[trigger] artifact.data_segments@[i]).location
            == executable.data_initializers@[i].location && artifact.data_segments@[i].data@
            == executable.data_initializers@[i].data@
    &&& artifact.element_segments@.len() == module.table_initializers@.len()
    &&& forall|i: int|
        0 <= i < artifact.element_segments@.len() ==> {
            &&& (#[trigger] artifact.element_segments@[i]).table_index
                == module.table_initializers@[i].table_index
            &&& artifact.element_segments@[i].base == module.table_initializers@[i].base
            &&& artifact.element_segments@[i].offset == module.table_initializers@[i].offset
            &&& artifact.element_segments@[i].elements@ == module.table_initializers@[i].elements@
        }
    &&& artifact.passive_data@ == module.passive_data@
    &&& artifact.passive_elements@ == module.passive_elements@
}

/// Whether every function body of the executable is short enough for its
/// length to be kept in 32 bits.
pub open spec fn bodies_fit(executable: UniversalExecutable) -> bool {
    forall|i: int|
        0 <= i < executable.function_bodies@.len() ==> (
        #[trigger] executable.function_bodies@[i]).body@.len() <= u32::MAX
}

impl<C> UniversalEngineInner<C> {
    /// An engine with the given compiler, if any, that has loaded nothing yet.
    pub fn new(compiler: Option<C>, features: Features) -> (engine: Self)
        ensures
            engine.wf(),
            engine.spec_compiler() == compiler,
            engine.spec_features() == features,
            engine.signatures() == Seq::<FunctionTypeView>::empty(),
            engine.code_memories() == Seq::<CodeMemoryView>::empty(),
            engine.pool() == Seq::<CodeMemoryView>::empty(),
    {
        let engine = UniversalEngineInner {
            compiler,
            features,
            code_memory: Vec::new(),
            signatures: SignatureRegistry::new(),
            pool: LimitedMemoryPool::new(),
        };
        engine
    }

    /// Gives the engine a pool of regions for code, in place of the one it has.
    pub fn set_pool(&mut self, pool: LimitedMemoryPool)
        requires
            old(self).wf(),
            pool.wf(),
        ensures
            final(self).wf(),
            final(self).pool() == pool@,
            final(self).signatures() == old(self).signatures(),
            final(self).code_memories() == old(self).code_memories(),
            final(self).spec_compiler() == old(self).spec_compiler(),
            final(self).spec_features() == old(self).spec_features(),
    {
        self.pool = pool;
    }

    /// Adds a region of `capacity` bytes at address `base` to the pool of the engine.
    pub fn add_region(&mut self, base: usize, capacity: usize)
        requires
            old(self).wf(),
            base + capacity <= usize::MAX,
        ensures
            final(self).wf(),
            final(self).pool() == old(self).pool().push(
                CodeMemoryView {
                    base: base as nat,
                    capacity: capacity as nat,
                    image: Seq::empty(),
                    executable_len: 0,
                    protection: Protection::ReadWrite,
                },
            ),
            final(self).signatures() == old(self).signatures(),
            final(self).code_memories() == old(self).code_memories(),
            final(self).spec_compiler() == old(self).spec_compiler(),
            final(self).spec_features() == old(self).spec_features(),
    {
        self.pool.add(base, capacity);
    }

    /// Validate the module: a headless engine validates nothing; an engine
    /// with a compiler hands on what its compiler says.
    pub fn validate(&self, data: &[u8]) -> (verdict: Result<(), CompileError>)
        where C: Compiler
        ensures
            match self.spec_compiler() {
                Some(compiler) => compiler.may_validate(self.spec_features(), data@, verdict),
                None => verdict matches Err(error) && error@ == CompileErrorView::Codegen(
                    "The UniversalEngine is operating in headless mode, so it can only execute already compiled Modules."@,
                ),
            },
    {
        match self.compiler() {
            Ok(compiler) => compiler.validate_module(self.features(), data),
            Err(error) => Err(error),
        }
    }

    /// Whether `count` more signatures can be registered, whatever they are.
    pub fn has_room_for(&self, count: usize) -> (room: bool)
        requires
            self.wf(),
        ensures
            room == (self.signatures().len() + count <= u32::MAX),
    {
        let held = self.signatures.len();
        held as u128 + count as u128 <= u32::MAX as u128
    }

    /// Register a signature
    pub fn register_signature(&mut self, func_type: crate::types::FunctionTypeRef<'_>) -> (index:
        VMSharedSignatureIndex)
        requires
            old(self).wf(),
            crate::sig_registry::is_registered(old(self).signatures(), func_type@) || old(
                self,
            ).signatures().len() < u32::MAX,
        ensures
            final(self).wf(),
            final(self).signatures() == after_register(old(self).signatures(), func_type@),
            index.0 == registered_index(old(self).signatures(), func_type@),
            final(self).code_memories() == old(self).code_memories(),
            final(self).pool() == old(self).pool(),
            final(self).spec_compiler() == old(self).spec_compiler(),
            final(self).spec_features() == old(self).spec_features(),
    {
        self.signatures.register(func_type)
    }

    /// Lookup a signature
    pub fn lookup_signature(&self, sig: VMSharedSignatureIndex) -> (found: Option<FunctionType>)
        ensures
            found is Some <==> sig.0 < self.signatures().len(),
            found matches Some(ty) ==> ty@ == self.signatures()[sig.0 as int],
    {
        match self.signatures.lookup(sig) {
            Some(ty) => Some(ty.duplicate()),
            None => None,
        }
    }

    /// Loads an executable: registers the signatures of its module, places
    /// its code and sections in `memory`, links them, publishes the memory,
    /// and describes the result as an artifact.
    ///
    /// The signatures stay registered even where loading fails. Loading
    /// fails with a resource error if the image does not fit the memory, and
    /// else with a codegen error if a function body is longer than 2³²−1
    /// bytes; the memory is then dropped.
    pub fn load(&mut self, executable: &UniversalExecutable, memory: CodeMemory, libcalls: &[usize]) -> (loaded:
        Result<UniversalArtifact, CompileError>)
        requires
            old(self).wf(),
            executable.wf(libcalls@.len()),
            memory.wf(),
            memory@.image.len() == 0,
            memory@.protection == Protection::ReadWrite,
            register_all(
                old(self).signatures(),
                function_type_views(executable.compile_info.module.signatures@),
                executable.compile_info.module.signatures@.len(),
            ).len() <= u32::MAX,
        ensures
            final(self).wf(),
            final(self).spec_compiler() == old(self).spec_compiler(),
            final(self).spec_features() == old(self).spec_features(),
            final(self).pool() == old(self).pool(),
            final(self).signatures() == register_all(
                old(self).signatures(),
                function_type_views(executable.compile_info.module.signatures@),
                executable.compile_info.module.signatures@.len(),
            ),
            loaded is Ok <==> executable.image().len() <= memory@.capacity && bodies_fit(*executable),
            loaded matches Err(error) ==> final(self).code_memories() == old(self).code_memories()
                && error@ == if executable.image().len() > memory@.capacity {
                CompileErrorView::Resource(
                    "failed to allocate memory for functions: not enough code memory for the module"@,
                )
            } else {
                CompileErrorView::Codegen("function body length exceeds 4GiB"@)
            },
            loaded matches Ok(artifact) ==> {
                &&& final(self).code_memories() == old(self).code_memories().push(
                    CodeMemoryView {
                        image: executable.linked_image(memory@.base, libcalls@),
                        executable_len: executable_image(
                            executable.code(),
                            executable.executable_sections(),
                        ).len(),
                        protection: Protection::ReadExecute,
                        ..memory@
                    },
                )
                &&& describes(artifact, *executable, memory@.base)
                &&& forall|i: int|
                    0 <= i < artifact.signatures@.len() ==> (#[trigger] artifact.signatures@[i]).0
                        == shared_signatures(
                        old(self).signatures(),
                        function_type_views(executable.compile_info.module.signatures@),
                    )[i]
            },
    {
        let info = &executable.compile_info;
        let module = &info.module;
        let mut memory = memory;
        let base = memory.base();
        let shared = register_types(&mut self.signatures, module.signatures.as_slice());
        let imports = vm_imports(info, shared.as_slice());
        let placement = match place(executable, &mut memory) {
            Ok(placement) => placement,
            Err(error) => {
                return Err(error);
            },
        };
        let functions = match local_functions(
            executable,
            placement.code.as_slice(),
            base,
            shared.as_slice(),
        ) {
            Ok(functions) => functions,
            Err(error) => {
                return Err(error);
            },
        };
        let function_count = executable.function_bodies.len();
        let call_count = executable.function_call_trampolines.len();
        let code_count = placement.code.len();
        let function_call_trampolines = addresses_at(
            placement.code.as_slice(),
            function_count,
            function_count + call_count,
            base,
        );
        let dynamic_addresses = addresses_at(
            placement.code.as_slice(),
            function_count + call_count,
            code_count,
            base,
        );
        let mut dynamic_function_trampolines: Vec<FunctionBodyPtr> = Vec::new();
        let mut j: usize = 0;
        while j < dynamic_addresses.len()
            invariant
                j <= dynamic_addresses@.len(),
                dynamic_function_trampolines@.len() == j,
                forall|k: int|
                    0 <= k < j ==> (#[trigger] dynamic_function_trampolines@[k]).0
                        == dynamic_addresses@[k],
            decreases dynamic_addresses@.len() - j,
        {
            dynamic_function_trampolines.push(FunctionBodyPtr(dynamic_addresses[j]));
            j += 1;
        }
        link_module(executable, &mut memory, &placement, libcalls);

        // Make all code compiled thus far executable.
        memory.publish();

        let local_memories = local_pairs(
            module.memories.as_slice(),
            info.memory_styles.as_slice(),
            module.import_counts.memories,
        );
        let local_tables = local_pairs(
            module.tables.as_slice(),
            info.table_styles.as_slice(),
            module.import_counts.tables,
        );
        let mut local_globals: Vec<(GlobalType, GlobalInit)> = Vec::new();
        let global_count = module.globals.len();
        let mut g: usize = 0;
        while g < module.global_initializers.len()
            invariant
                g <= module.global_initializers@.len(),
                global_count == module.globals@.len(),
                module.global_initializers@.len() + module.import_counts.globals
                    == module.globals@.len(),
                local_globals@.len() == g,
                forall|i: int|
                    0 <= i < g ==> #[trigger] local_globals@[i] == (
                        module.globals@[module.import_counts.globals + i],
                        module.global_initializers@[i],
                    ),
            decreases module.global_initializers@.len() - g,
        {
            local_globals.push(
                (module.globals[module.import_counts.globals + g], module.global_initializers[g]),
            );
            g += 1;
        }
        let artifact = UniversalArtifact {
            import_counts: module.import_counts,
            start_function: module.start_function,
            imports,
            function_call_trampolines,
            dynamic_function_trampolines,
            functions,
            exported_functions: exported_functions(module),
            signatures: shared,
            local_memories,
            data_segments: copy_data_initializers(executable.data_initializers.as_slice()),
            passive_data: module.passive_data.clone(),
            local_tables,
            element_segments: copy_table_initializers(module.table_initializers.as_slice()),
            passive_elements: module.passive_elements.clone(),
            local_globals,
        };
        self.code_memory.push(memory);
        Ok(artifact)
    }
}

impl<C> UniversalEngineInner<C> {
    /// Loads an executable into a region taken from the pool of the engine.
    ///
    /// A pool without regions gives a resource error, and nothing is
    /// registered; else the region that was added last is taken, for good,
    /// and the executable is loaded into it.
    pub fn load_pooled(&mut self, executable: &UniversalExecutable, libcalls: &[usize]) -> (loaded:
        Result<UniversalArtifact, CompileError>)
        requires
            old(self).wf(),
            executable.wf(libcalls@.len()),
            register_all(
                old(self).signatures(),
                function_type_views(executable.compile_info.module.signatures@),
                executable.compile_info.module.signatures@.len(),
            ).len() <= u32::MAX,
        ensures
            final(self).wf(),
            final(self).spec_compiler() == old(self).spec_compiler(),
            final(self).spec_features() == old(self).spec_features(),
            old(self).pool().len() == 0 ==> {
                &&& loaded matches Err(error) && error@ == CompileErrorView::Resource(
                    "no code memory is left in the pool"@,
                )
                &&& final(self).signatures() == old(self).signatures()
                &&& final(self).code_memories() == old(self).code_memories()
                &&& final(self).pool() == old(self).pool()
            },
            old(self).pool().len() > 0 ==> {
                &&& final(self).pool() == old(self).pool().drop_last()
                &&& final(self).signatures() == register_all(
                    old(self).signatures(),
                    function_type_views(executable.compile_info.module.signatures@),
                    executable.compile_info.module.signatures@.len(),
                )
                &&& loaded is Ok <==> executable.image().len() <= old(self).pool().last().capacity
                    && bodies_fit(*executable)
                &&& loaded matches Ok(artifact) ==> describes(
                    artifact,
                    *executable,
                    old(self).pool().last().base,
                ) && final(self).code_memories() == old(self).code_memories().push(
                    CodeMemoryView {
                        image: executable.linked_image(old(self).pool().last().base, libcalls@),
                        executable_len: executable_image(
                            executable.code(),
                            executable.executable_sections(),
                        ).len(),
                        protection: Protection::ReadExecute,
                        ..old(self).pool().last()
                    },
                )
            },
    {
        match self.pool.get() {
            Some(memory) => self.load(executable, memory, libcalls),
            None => Err(CompileError::Resource("no code memory is left in the pool".to_string())),
        }
    }
}

/// A step that changes a module before it is compiled.
pub trait ModuleMiddleware {
    /// Changes what is known of the module.
    fn transform_module_info(&self, module: &mut ModuleInfo)
        ensures
            self.may_transform(*old(module), *final(module)),
    ;

    /// Whether the middleware may turn the module `before` into `after`.
    /// Unless an implementor says more, it may turn it into anything.
    open spec fn may_transform(&self, before: ModuleInfo, after: ModuleInfo) -> bool {
        true
    }
}

/// No middleware: the module stays as it is.
impl ModuleMiddleware for () {
    fn transform_module_info(&self, module: &mut ModuleInfo) {
    }

    open spec fn may_transform(&self, before: ModuleInfo, after: ModuleInfo) -> bool {
        after == before
    }
}

/// A compiler: it validates modules and compiles them for a target.
pub trait Compiler {
    /// The middlewares that the compiler applies to a module.
    type Middleware: ModuleMiddleware;

    /// Validates a module for the given features.
    fn validate_module(&self, features: &Features, data: &[u8]) -> (verdict: Result<
        (),
        CompileError,
    >)
        ensures
            self.may_validate(*features, data@, verdict),
    ;

    /// Whether the compiler may say `verdict` of the module `data` for
    /// `features`. Unless an implementor says more, it may say anything.
    open spec fn may_validate(
        &self,
        features: Features,
        data: Seq<u8>,
        verdict: Result<(), CompileError>,
    ) -> bool {
        true
    }

    /// Compiles a translated module for the given target.
    fn compile_module(
        &self,
        target: &Target,
        compile_info: &CompileModuleInfo,
        module_translation: &ModuleTranslationState,
        function_body_inputs: &[FunctionBodyData],
    ) -> (compiled: Result<Compilation, CompileError>)
        ensures
            self.may_compile(
                *target,
                *compile_info,
                *module_translation,
                function_body_inputs@,
                compiled,
            ),
    ;

    /// Whether the compiler may give `compiled` for the module and the
    /// function bodies it is handed. Unless an implementor says more, it may
    /// give anything.
    open spec fn may_compile(
        &self,
        target: Target,
        compile_info: CompileModuleInfo,
        module_translation: ModuleTranslationState,
        function_body_inputs: Seq<FunctionBodyData>,
        compiled: Result<Compilation, CompileError>,
    ) -> bool {
        true
    }

    /// The middleware chain of the compiler, in the order in which it is
    /// applied.
    fn get_middlewares(&self) -> (middlewares: &[Self::Middleware])
        ensures
            self.may_hold_middlewares(middlewares@),
    ;

    /// Whether `middlewares` may be the middleware chain of the compiler.
    /// Unless an implementor says more, any chain may.
    open spec fn may_hold_middlewares(&self, middlewares: Seq<Self::Middleware>) -> bool {
        true
    }
}

/// An engine delegates the choice of how memories and tables are laid out to
/// an implementor of this trait.
pub trait Tunables {
    /// Construct a `MemoryStyle` for the provided `MemoryType`
    fn memory_style(&self, memory: &MemoryType) -> (style: MemoryStyle)
        ensures
            self.may_choose_memory_style(*memory, style),
    ;

    /// Whether the tunables may choose `style` for `memory`. Unless an
    /// implementor says more, they may choose any.
    open spec fn may_choose_memory_style(&self, memory: MemoryType, style: MemoryStyle) -> bool {
        true
    }

    /// Construct a `TableStyle` for the provided `TableType`
    fn table_style(&self, table: &TableType) -> (style: TableStyle)
        ensures
            self.may_choose_table_style(*table, style),
    ;

    /// Whether the tunables may choose `style` for `table`. Unless an
    /// implementor says more, they may choose any.
    open spec fn may_choose_table_style(&self, table: TableType, style: TableStyle) -> bool {
        true
    }

    /// Create a memory owned by the VM given a [`MemoryType`] and a
    /// [`MemoryStyle`], for the local memory at `index`: the address of its
    /// definition, or why it could not be created.
    fn create_vm_memory(&self, ty: &MemoryType, style: &MemoryStyle, index: usize) -> (created:
        Result<usize, String>)
        ensures
            self.may_create_memory(*ty, *style, index, created),
    ;

    /// Whether creating the local memory at `index` may come to `created`.
    /// Unless an implementor says more, it may come to anything.
    open spec fn may_create_memory(
        &self,
        ty: MemoryType,
        style: MemoryStyle,
        index: usize,
        created: Result<usize, String>,
    ) -> bool {
        true
    }

    /// Create a table owned by the VM given a [`TableType`] and a
    /// [`TableStyle`], for the local table at `index`: the address of its
    /// definition, or why it could not be created.
    fn create_vm_table(&self, ty: &TableType, style: &TableStyle, index: usize) -> (created:
        Result<usize, String>)
        ensures
            self.may_create_table(*ty, *style, index, created),
    ;

    /// Whether creating the local table at `index` may come to `created`.
    /// Unless an implementor says more, it may come to anything.
    open spec fn may_create_table(
        &self,
        ty: TableType,
        style: TableStyle,
        index: usize,
        created: Result<usize, String>,
    ) -> bool {
        true
    }
}

/// The result of translating a WebAssembly binary.
pub struct ModuleTranslation {
    /// The module.
    pub module: ModuleInfo,
    /// The body of each local function, by `LocalFunctionIndex`.
    pub function_body_inputs: Vec<FunctionBodyData>,
    /// The data segments of the module.
    pub data_initializers: Vec<OwnedDataInitializer>,
    /// What was decoded for the translation of functions.
    pub module_translation_state: Option<ModuleTranslationState>,
}

/// Whether the styles are what `tunables` may choose for the memories and
/// the tables of `module`, one for each.
pub open spec fn styles_chosen<T: Tunables>(
    tunables: T,
    module: ModuleInfo,
    memory_styles: Seq<MemoryStyle>,
    table_styles: Seq<TableStyle>,
) -> bool {
    &&& memory_styles.len() == module.memories@.len()
    &&& table_styles.len() == module.tables@.len()
    &&& forall|i: int|
        0 <= i < memory_styles.len() ==> tunables.may_choose_memory_style(
            module.memories@[i],
            #[trigger] memory_styles[i],
        )
    &&& forall|i: int|
        0 <= i < table_styles.len() ==> tunables.may_choose_table_style(
            module.tables@[i],
            #[trigger] table_styles[i],
        )
}

/// Asks the tunables for the style of each memory and of each table.
pub fn choose_styles<T: Tunables>(module: &ModuleInfo, tunables: &T) -> (styles: (
    Vec<MemoryStyle>,
    Vec<TableStyle>,
))
    ensures
        styles_chosen(*tunables, *module, styles.0@, styles.1@),
{
    let mut memory_styles: Vec<MemoryStyle> = Vec::new();
    let mut i: usize = 0;
    while i < module.memories.len()
        invariant
            i <= module.memories@.len(),
            memory_styles@.len() == i,
            forall|k: int|
                0 <= k < i ==> tunables.may_choose_memory_style(
                    module.memories@[k],
                    #[trigger] memory_styles@[k],
                ),
        decreases module.memories@.len() - i,
    {
        memory_styles.push(tunables.memory_style(&module.memories[i]));
        i += 1;
    }
    let mut table_styles: Vec<TableStyle> = Vec::new();
    let mut j: usize = 0;
    while j < module.tables.len()
        invariant
            j <= module.tables@.len(),
            table_styles@.len() == j,
            forall|k: int|
                0 <= k < j ==> tunables.may_choose_table_style(
                    module.tables@[k],
                    #[trigger] table_styles@[k],
                ),
        decreases module.tables@.len() - j,
    {
        table_styles.push(tunables.table_style(&module.tables[j]));
        j += 1;
    }
    (memory_styles, table_styles)
}

/// Whether `stages` are what the module `before` becomes as `middlewares`
/// are applied to it in order: the module itself first, after each
/// middleware what that middleware may turn the stage before into, and
/// `after` last.
pub open spec fn transformed<M: ModuleMiddleware>(
    middlewares: Seq<M>,
    stages: Seq<ModuleInfo>,
    before: ModuleInfo,
    after: ModuleInfo,
) -> bool {
    &&& stages.len() == middlewares.len() + 1
    &&& stages[0] == before
    &&& stages.last() == after
    &&& forall|i: int|
        0 <= i < middlewares.len() ==> (#[trigger] middlewares[i]).may_transform(
            stages[i],
            stages[i + 1],
        )
}

/// Whether applying `middlewares` in order may turn the module `before`
/// into `after`.
pub open spec fn may_apply<M: ModuleMiddleware>(
    middlewares: Seq<M>,
    before: ModuleInfo,
    after: ModuleInfo,
) -> bool {
    exists|stages: Seq<ModuleInfo>| #[trigger] transformed(middlewares, stages, before, after)
}

/// Whether compiling `translation` may come to `compiled` by these steps:
/// the middlewares of the compiler turn the module into that of
/// `compile_info`, the tunables choose the styles in `compile_info`, the compiler gives
/// `outcome` for it, and what it produced is put together into the
/// executable, or its error is handed on.
pub open spec fn compile_steps<C: Compiler, T: Tunables>(
    compiler: C,
    tunables: T,
    target: Target,
    features: Features,
    translation: ModuleTranslation,
    middlewares: Seq<C::Middleware>,
    compile_info: CompileModuleInfo,
    outcome: Result<Compilation, CompileError>,
    compiled: Result<UniversalExecutable, CompileError>,
) -> bool {
    &&& compiler.may_hold_middlewares(middlewares)
    &&& may_apply(middlewares, translation.module, compile_info.module)
    &&& compile_info.features == features
    &&& styles_chosen(
        tunables,
        compile_info.module,
        compile_info.memory_styles@,
        compile_info.table_styles@,
    )
    &&& translation.module_translation_state matches Some(state) && compiler.may_compile(
        target,
        compile_info,
        state,
        translation.function_body_inputs@,
        outcome,
    )
    &&& match outcome {
        Ok(compilation) => compiled matches Ok(executable) && assembled(
            executable,
            compilation,
            compile_info,
            translation.data_initializers,
            target.cpu_features,
        ),
        Err(error) => compiled == Err::<UniversalExecutable, CompileError>(error),
    }
}

/// Whether compiling `translation` with `compiler` and `tunables` may come
/// to `compiled`.
pub open spec fn may_compile_to<C: Compiler, T: Tunables>(
    compiler: C,
    tunables: T,
    target: Target,
    features: Features,
    translation: ModuleTranslation,
    compiled: Result<UniversalExecutable, CompileError>,
) -> bool {
    exists|
        middlewares: Seq<C::Middleware>,
        compile_info: CompileModuleInfo,
        outcome: Result<Compilation, CompileError>,
    | #[trigger]
        compile_steps(
            compiler,
            tunables,
            target,
            features,
            translation,
            middlewares,
            compile_info,
            outcome,
            compiled,
        )
}

/// Whether two executables hold the same: the same code, relocations,
/// jump tables, frame information, trampolines and sections, for the same
/// module with the same styles, data segments and CPU features.
pub open spec fn same_executable(a: UniversalExecutable, b: UniversalExecutable) -> bool {
    &&& a.function_bodies@ == b.function_bodies@
    &&& a.function_relocations@ == b.function_relocations@
    &&& a.function_jt_offsets@ == b.function_jt_offsets@
    &&& a.function_frame_info@ == b.function_frame_info@
    &&& a.function_call_trampolines == b.function_call_trampolines
    &&& a.dynamic_function_trampolines == b.dynamic_function_trampolines
    &&& a.custom_sections@.len() == b.custom_sections@.len()
    &&& forall|i: int|
        0 <= i < a.custom_sections@.len() ==> (#[trigger] a.custom_sections@[i]).protection
            == b.custom_sections@[i].protection && a.custom_sections@[i].bytes
            == b.custom_sections@[i].bytes
    &&& a.custom_section_relocations@ == b.custom_section_relocations@
    &&& a.debug == b.debug
    &&& a.compile_info.module == b.compile_info.module
    &&& a.compile_info.features == b.compile_info.features
    &&& a.compile_info.memory_styles@ == b.compile_info.memory_styles@
    &&& a.compile_info.table_styles@ == b.compile_info.table_styles@
    &&& a.data_initializers == b.data_initializers
    &&& a.cpu_features == b.cpu_features
}

/// Whether the compiler and the tunables are determined: the compiler has
/// one middleware chain, each middleware turns a module into one module,
/// the tunables choose one style for a memory and one for a table, and the
/// compiler gives one result for a module with its styles.
pub open spec fn determined<C: Compiler, T: Tunables>(compiler: C, tunables: T) -> bool {
    &&& forall|first: Seq<C::Middleware>, second: Seq<C::Middleware>|
        #[trigger] compiler.may_hold_middlewares(first) && #[trigger] compiler.may_hold_middlewares(
            second,
        ) ==> first == second
    &&& forall|middleware: C::Middleware, before: ModuleInfo, first: ModuleInfo, second: ModuleInfo|
        #[trigger] middleware.may_transform(before, first) && #[trigger] middleware.may_transform(
            before,
            second,
        ) ==> first == second
    &&& forall|memory: MemoryType, first: MemoryStyle, second: MemoryStyle|
        #[trigger] tunables.may_choose_memory_style(memory, first)
            && #[trigger] tunables.may_choose_memory_style(memory, second) ==> first == second
    &&& forall|table: TableType, first: TableStyle, second: TableStyle|
        #[trigger] tunables.may_choose_table_style(table, first)
            && #[trigger] tunables.may_choose_table_style(table, second) ==> first == second
    &&& forall|
        target: Target,
        one: CompileModuleInfo,
        other: CompileModuleInfo,
        state: ModuleTranslationState,
        inputs: Seq<FunctionBodyData>,
        first: Result<Compilation, CompileError>,
        second: Result<Compilation, CompileError>,
    |
        #[trigger] compiler.may_compile(target, one, state, inputs, first)
            && #[trigger] compiler.may_compile(target, other, state, inputs, second) && one.module
            == other.module && one.features == other.features && one.memory_styles@
            == other.memory_styles@ && one.table_styles@ == other.table_styles@ ==> first == second
}

/// Middlewares that each turn a module into one module turn it into the
/// same modules stage by stage.
proof fn lemma_stages_agree<M: ModuleMiddleware>(
    middlewares: Seq<M>,
    first: Seq<ModuleInfo>,
    second: Seq<ModuleInfo>,
    before: ModuleInfo,
    n: nat,
)
    requires
        n <= middlewares.len(),
        transformed(middlewares, first, before, first.last()),
        transformed(middlewares, second, before, second.last()),
        forall|middleware: M, before: ModuleInfo, first: ModuleInfo, second: ModuleInfo|
            #[trigger] middleware.may_transform(before, first) && #[trigger] middleware.may_transform(
                before,
                second,
            ) ==> first == second,
    ensures
        first[n as int] == second[n as int],
    decreases n,
{
    if n > 0 {
        lemma_stages_agree(middlewares, first, second, before, (n - 1) as nat);
        assert(middlewares[n - 1].may_transform(first[n - 1], first[n - 1 + 1]));
        assert(middlewares[n - 1].may_transform(second[n - 1], second[n - 1 + 1]));
    }
}

/// Compilation is deterministic where the compiler and the tunables are:
/// compiling one translation twice for one target and one set of features
/// gives the same error, or executables that hold the same.
pub proof fn lemma_compile_is_deterministic<C: Compiler, T: Tunables>(
    compiler: C,
    tunables: T,
    target: Target,
    features: Features,
    translation: ModuleTranslation,
    first: Result<UniversalExecutable, CompileError>,
    second: Result<UniversalExecutable, CompileError>,
)
    requires
        determined(compiler, tunables),
        may_compile_to(compiler, tunables, target, features, translation, first),
        may_compile_to(compiler, tunables, target, features, translation, second),
    ensures
        match (first, second) {
            (Ok(a), Ok(b)) => same_executable(a, b),
            (Err(a), Err(b)) => a == b,
            _ => false,
        },
{
    let (m1, info1, outcome1) = choose|
        middlewares: Seq<C::Middleware>,
        compile_info: CompileModuleInfo,
        outcome: Result<Compilation, CompileError>,
    | #[trigger]
        compile_steps(
            compiler,
            tunables,
            target,
            features,
            translation,
            middlewares,
            compile_info,
            outcome,
            first,
        );
    let (m2, info2, outcome2) = choose|
        middlewares: Seq<C::Middleware>,
        compile_info: CompileModuleInfo,
        outcome: Result<Compilation, CompileError>,
    | #[trigger]
        compile_steps(
            compiler,
            tunables,
            target,
            features,
            translation,
            middlewares,
            compile_info,
            outcome,
            second,
        );
    assert(m1 == m2);
    let stages1 = choose|stages: Seq<ModuleInfo>| #[trigger]
        transformed(m1, stages, translation.module, info1.module);
    let stages2 = choose|stages: Seq<ModuleInfo>| #[trigger]
        transformed(m1, stages, translation.module, info2.module);
    lemma_stages_agree(m1, stages1, stages2, translation.module, m1.len());
    assert(info1.module == info2.module);
    assert(info1.memory_styles@ =~= info2.memory_styles@);
    assert(info1.table_styles@ =~= info2.table_styles@);
    assert(outcome1 == outcome2);
    match (first, second) {
        (Ok(a), Ok(b)) => {
            assert forall|i: int| 0 <= i < a.function_bodies@.len() implies {
                &&& a.function_bodies@[i] == b.function_bodies@[i]
                &&& a.function_relocations@[i] == b.function_relocations@[i]
                &&& a.function_jt_offsets@[i] == b.function_jt_offsets@[i]
                &&& a.function_frame_info@[i] == b.function_frame_info@[i]
            } by {
                assert(a.function_bodies@[i] == b.function_bodies@[i]);
            }
            assert forall|i: int| 0 <= i < a.custom_sections@.len() implies {
                &&& a.custom_sections@[i].protection == b.custom_sections@[i].protection
                &&& a.custom_sections@[i].bytes == b.custom_sections@[i].bytes
                &&& a.custom_section_relocations@[i] == b.custom_section_relocations@[i]
            } by {
                assert(a.custom_sections@[i].protection == b.custom_sections@[i].protection);
            }
            assert(a.function_bodies@ =~= b.function_bodies@);
            assert(a.function_relocations@ =~= b.function_relocations@);
            assert(a.function_jt_offsets@ =~= b.function_jt_offsets@);
            assert(a.function_frame_info@ =~= b.function_frame_info@);
            assert(a.custom_section_relocations@ =~= b.custom_section_relocations@);
        },
        _ => {},
    }
}

/// Applies the middlewares to a module, in order.
pub fn apply_on_module_info<M: ModuleMiddleware>(middlewares: &[M], module: &mut ModuleInfo)
    ensures
        may_apply(middlewares@, *old(module), *final(module)),
{
    let ghost mut stages: Seq<ModuleInfo> = seq![*module];
    let mut i: usize = 0;
    while i < middlewares.len()
        invariant
            i <= middlewares@.len(),
            stages.len() == i + 1,
            stages[0] == *old(module),
            stages.last() == *module,
            forall|k: int|
                0 <= k < i ==> (#[trigger] middlewares@[k]).may_transform(stages[k], stages[k + 1]),
        decreases middlewares@.len() - i,
    {
        middlewares[i].transform_module_info(module);
        proof {
            stages = stages.push(*module);
        }
        i += 1;
    }
    assert(transformed(middlewares@, stages, *old(module), *module));
}

/// A WebAssembly `Universal` Engine.
pub struct UniversalEngine<C> {
    inner: UniversalEngineInner<C>,
    /// The target for the compiler
    target: Target,
    engine_id: EngineId,
}

impl<C: Compiler> UniversalEngine<C> {
    /// What the engine holds: its compiler, its registry and its code memories.
    pub closed spec fn inner(&self) -> UniversalEngineInner<C> {
        self.inner
    }

    /// The target that the engine compiles for.
    pub closed spec fn spec_target(&self) -> Target {
        self.target
    }

    /// The identifier of the engine.
    pub closed spec fn spec_id(&self) -> EngineId {
        self.engine_id
    }

    /// Create a new `UniversalEngine` with the given config
    pub fn new(compiler: C, target: Target, features: Features, engine_id: EngineId) -> (engine: Self)
        ensures
            engine.inner().wf(),
            engine.inner().spec_compiler() == Some(compiler),
            engine.inner().spec_features() == features,
            engine.inner().signatures() == Seq::<FunctionTypeView>::empty(),
            engine.inner().code_memories() == Seq::<CodeMemoryView>::empty(),
            engine.inner().pool() == Seq::<CodeMemoryView>::empty(),
            engine.spec_target() == target,
            engine.spec_id() == engine_id,
    {
        Self { inner: UniversalEngineInner::new(Some(compiler), features), target, engine_id }
    }

    /// Create a headless `UniversalEngine`
    ///
    /// A headless engine is an engine without any compiler attached.
    /// This is useful for assuring a minimal runtime for running
    /// WebAssembly modules.
    ///
    /// For example, for running in IoT devices where compilers are very
    /// expensive, or also to optimize startup speed.
    ///
    /// # Important
    ///
    /// Headless engines can't compile or validate any modules,
    /// they just take already processed Modules.
    pub fn headless(target: Target, engine_id: EngineId) -> (engine: Self)
        ensures
            engine.inner().wf(),
            !engine.inner().has_compiler(),
            engine.inner().spec_features() == crate::compilation::default_features(),
            engine.inner().signatures() == Seq::<FunctionTypeView>::empty(),
            engine.inner().code_memories() == Seq::<CodeMemoryView>::empty(),
            engine.inner().pool() == Seq::<CodeMemoryView>::empty(),
            engine.spec_target() == target,
            engine.spec_id() == engine_id,
    {
        Self { inner: UniversalEngineInner::new(None, Features::new()), target, engine_id }
    }

    /// The target
    pub fn target(&self) -> (target: &Target)
        ensures
            *target == self.spec_target(),
    {
        &self.target
    }

    /// A unique identifier for this object.
    pub fn id(&self) -> (id: &EngineId)
        ensures
            *id == self.spec_id(),
    {
        &self.engine_id
    }

    /// What the engine holds, for loading and for the registry of signatures.
    pub fn inner_mut(&mut self) -> (inner: &mut UniversalEngineInner<C>)
        ensures
            *inner == old(self).inner(),
            final(self).inner() == *final(inner),
            final(self).spec_target() == old(self).spec_target(),
            final(self).spec_id() == old(self).spec_id(),
    {
        &mut self.inner
    }

    /// Validates a WebAssembly module.
    ///
    /// A headless engine validates nothing; an engine with a compiler hands
    /// on what its compiler says.
    pub fn validate(&self, binary: &[u8]) -> (verdict: Result<(), CompileError>)
        ensures
            match self.inner().spec_compiler() {
                Some(compiler) => compiler.may_validate(
                    self.inner().spec_features(),
                    binary@,
                    verdict,
                ),
                None => verdict matches Err(error) && error@ == CompileErrorView::Codegen(
                    "The UniversalEngine is operating in headless mode, so it can only execute already compiled Modules."@,
                ),
            },
    {
        self.inner.validate(binary)
    }

    /// Compile a translated WebAssembly module.
    ///
    /// The middlewares of the compiler are applied to the module, the
    /// tunables choose the style of each memory and table, the compiler
    /// compiles the module for the target of the engine, and what it
    /// produced is put together with the module and its data segments.
    /// A headless engine compiles nothing.
    pub fn compile<T: Tunables>(&self, translation: ModuleTranslation, tunables: &T) -> (compiled:
        Result<UniversalExecutable, CompileError>)
        requires
            translation.module_translation_state is Some,
        ensures
            match self.inner().spec_compiler() {
                Some(compiler) => may_compile_to(
                    compiler,
                    *tunables,
                    self.spec_target(),
                    self.inner().spec_features(),
                    translation,
                    compiled,
                ),
                None => compiled matches Err(error) && error@ == CompileErrorView::Codegen(
                    "The UniversalEngine is operating in headless mode, so it can only execute already compiled Modules."@,
                ),
            },
    {
        let compiler = match self.inner.compiler() {
            Ok(compiler) => compiler,
            Err(error) => {
                return Err(error);
            },
        };
        let ghost whole = translation;
        let ModuleTranslation {
            module,
            function_body_inputs,
            data_initializers,
            module_translation_state,
        } = translation;

        // Apply the middleware first
        let mut module = module;
        let middlewares = compiler.get_middlewares();
        apply_on_module_info(middlewares, &mut module);

        let (memory_styles, table_styles) = choose_styles(&module, tunables);
        let compile_info = CompileModuleInfo {
            module,
            features: *self.inner.features(),
            memory_styles,
            table_styles,
        };
        let state = match module_translation_state {
            Some(state) => state,
            None => ModuleTranslationState::new(),
        };

        // Compile the Module
        let outcome = compiler.compile_module(
            &self.target,
            &compile_info,
            &state,
            function_body_inputs.as_slice(),
        );
        let ghost steps = |compiled: Result<UniversalExecutable, CompileError>|
            compile_steps(
                *compiler,
                *tunables,
                self.target,
                self.inner.features,
                whole,
                middlewares@,
                compile_info,
                outcome,
                compiled,
            );
        match outcome {
            Ok(compilation) => {
                let executable = UniversalExecutable::new(
                    compilation,
                    compile_info,
                    data_initializers,
                    self.target.cpu_features,
                );
                assert(steps(Ok(executable)));
                Ok(executable)
            },
            Err(error) => {
                assert(steps(Err(error)));
                Err(error)
            },
        }
    }
}

/// The Universal builder
pub struct Universal<C> {
    compiler: Option<C>,
    target: Option<Target>,
    features: Option<Features>,
    pool: Option<LimitedMemoryPool>,
}

impl<C: Compiler> Universal<C> {
    /// The compiler the engine is built with, if any.
    pub closed spec fn spec_compiler(&self) -> Option<C> {
        self.compiler
    }

    /// The target the engine is built for, if one was set.
    pub closed spec fn spec_target(&self) -> Option<Target> {
        self.target
    }

    /// The features the engine is built with, if they were set.
    pub closed spec fn spec_features(&self) -> Option<Features> {
        self.features
    }

    /// The regions for code of the pool the engine is built with, if one was set.
    pub closed spec fn spec_pool(&self) -> Option<Seq<CodeMemoryView>> {
        match self.pool {
            Some(pool) => Some(pool@),
            None => None,
        }
    }

    /// The pool, if one was set, is well formed.
    pub closed spec fn wf(&self) -> bool {
        self.pool matches Some(pool) ==> pool.wf()
    }

    /// Create a new Universal
    pub fn new(compiler: C) -> (builder: Self)
        ensures
            builder.wf(),
            builder.spec_compiler() == Some(compiler),
            builder.spec_target() is None,
            builder.spec_features() is None,
            builder.spec_pool() is None,
    {
        Self { compiler: Some(compiler), target: None, features: None, pool: None }
    }

    /// Create a new headless Universal
    pub fn headless() -> (builder: Self)
        ensures
            builder.wf(),
            builder.spec_compiler() is None,
            builder.spec_target() is None,
            builder.spec_features() is None,
            builder.spec_pool() is None,
    {
        Self { compiler: None, target: None, features: None, pool: None }
    }

    /// Set the target
    pub fn target(self, target: Target) -> (builder: Self)
        ensures
            builder.wf() == self.wf(),
            builder.spec_target() == Some(target),
            builder.spec_compiler() == self.spec_compiler(),
            builder.spec_features() == self.spec_features(),
            builder.spec_pool() == self.spec_pool(),
    {
        Self { compiler: self.compiler, target: Some(target), features: self.features, pool: self.pool }
    }

    /// Set the code memory pool
    pub fn pool(self, pool: LimitedMemoryPool) -> (builder: Self)
        requires
            pool.wf(),
        ensures
            builder.wf(),
            builder.spec_pool() == Some(pool@),
            builder.spec_compiler() == self.spec_compiler(),
            builder.spec_target() == self.spec_target(),
            builder.spec_features() == self.spec_features(),
    {
        Self { compiler: self.compiler, target: self.target, features: self.features, pool: Some(pool) }
    }

    /// Set the features
    pub fn features(self, features: Features) -> (builder: Self)
        ensures
            builder.wf() == self.wf(),
            builder.spec_features() == Some(features),
            builder.spec_compiler() == self.spec_compiler(),
            builder.spec_target() == self.spec_target(),
            builder.spec_pool() == self.spec_pool(),
    {
        Self { compiler: self.compiler, target: self.target, features: Some(features), pool: self.pool }
    }

    /// Build the `UniversalEngine` for this configuration: for the target
    /// that was set, or else for `host`; with the compiler, if there is one,
    /// and then with the features that were set, or else `default_features`;
    /// without a compiler, a headless engine; with the pool that was set, or
    /// else with a pool without regions.
    pub fn engine(self, host: Target, default_features: Features, engine_id: EngineId) -> (engine:
        UniversalEngine<C>)
        requires
            self.wf(),
        ensures
            engine.inner().pool() == match self.spec_pool() {
                Some(pool) => pool,
                None => Seq::<CodeMemoryView>::empty(),
            },
            engine.inner().wf(),
            engine.spec_id() == engine_id,
            engine.spec_target() == match self.spec_target() {
                Some(target) => target,
                None => host,
            },
            engine.inner().spec_compiler() == self.spec_compiler(),
            engine.inner().spec_features() == match self.spec_compiler() {
                Some(_) => match self.spec_features() {
                    Some(features) => features,
                    None => default_features,
                },
                None => crate::compilation::default_features(),
            },
            engine.inner().signatures() == Seq::<FunctionTypeView>::empty(),
            engine.inner().code_memories() == Seq::<CodeMemoryView>::empty(),
    {
        let target = match self.target {
            Some(target) => target,
            None => host,
        };
        let mut engine = match self.compiler {
            Some(compiler) => {
                let features = match self.features {
                    Some(features) => features,
                    None => default_features,
                };
                UniversalEngine::new(compiler, target, features, engine_id)
            },
            None => UniversalEngine::headless(target, engine_id),
        };
        match self.pool {
            Some(pool) => engine.inner.set_pool(pool),
            None => {},
        }
        engine
    }
}

impl UniversalExecutable {
    /// The features with which this executable was built.
    pub fn features(&self) -> (features: Features)
        ensures
            features == self.compile_info.features,
    {
        self.compile_info.features
    }

    /// The CPU features this executable requires, one bit each.
    pub fn cpu_features(&self) -> (features: u64)
        ensures
            features == self.cpu_features,
    {
        self.cpu_features
    }

    /// Whether each of `relocations` may stand among the relocations of code of `len` bytes.
    fn relocations_allowed(&self, relocations: &[Relocation], len: usize, libcalls: usize) -> (allowed:
        bool)
        requires
            self.function_jt_offsets@.len() == self.function_bodies@.len(),
        ensures
            allowed == forall|j: int|
                0 <= j < relocations@.len() ==> self.relocation_allowed(
                    #[trigger] relocations@[j],
                    len as nat,
                    libcalls as nat,
                ),
    {
        let mut j: usize = 0;
        while j < relocations.len()
            invariant
                self.function_jt_offsets@.len() == self.function_bodies@.len(),
                j <= relocations@.len(),
                forall|k: int|
                    0 <= k < j ==> self.relocation_allowed(
                        #[trigger] relocations@[k],
                        len as nat,
                        libcalls as nat,
                    ),
            decreases relocations@.len() - j,
        {
            let r = &relocations[j];
            let within = r.offset as u128 + crate::link::width_of(r.kind) as u128 <= len as u128;
            let known = match r.reloc_target {
                RelocationTarget::LocalFunc(f) => f.index() < self.function_bodies.len(),
                RelocationTarget::LibCall(l) => (l.0 as usize) < libcalls,
                RelocationTarget::JumpTable(f, jt) => f.index() < self.function_bodies.len()
                    && jt.index() < self.function_jt_offsets[f.index()].len(),
                RelocationTarget::CustomSection(s) => s.index() < self.custom_sections.len(),
            };
            if !(within && known) {
                return false;
            }
            j += 1;
        }
        true
    }

    /// Whether the executable is well formed, where the runtime has
    /// `libcalls` built-in routines.
    pub fn check(&self, libcalls: usize) -> (well_formed: bool)
        ensures
            well_formed == self.wf(libcalls as nat),
    {
        let info = &self.compile_info;
        let module = &info.module;
        if !module.check() {
            return false;
        }
        if !(info.memory_styles.len() == module.memories.len() && info.table_styles.len()
            == module.tables.len() && self.function_bodies.len() == module.functions.len()
            - module.import_counts.functions && self.function_relocations.len()
            == self.function_bodies.len() && self.function_jt_offsets.len()
            == self.function_bodies.len() && self.function_call_trampolines.len()
            == module.signatures.len() && self.dynamic_function_trampolines.len()
            == module.import_counts.functions && self.custom_section_relocations.len()
            == self.custom_sections.len() && module.global_initializers.len() <= module.globals.len()
            && module.global_initializers.len() == module.globals.len()
            - module.import_counts.globals) {
            return false;
        }
        let imports = crate::module::import_count(&module.imports);
        let mut k: usize = 0;
        while k < imports
            invariant
                info == &self.compile_info,
                module == &info.module,
                imports == import_entries(module.imports).len(),
                k <= imports,
                forall|j: int|
                    0 <= j < k ==> import_held(*info, (#[trigger] import_entries(module.imports)[j]).1),
            decreases imports - k,
        {
            if let Some((_key, import)) = crate::module::import_at(&module.imports, k) {
                let held = match import {
                    ImportIndex::Function(i) => i.index() < module.functions.len(),
                    ImportIndex::Table(i) => i.index() < module.tables.len(),
                    ImportIndex::Memory(i) => i.index() < module.memories.len() && i.index()
                        < info.memory_styles.len(),
                    ImportIndex::Global(i) => i.index() < module.globals.len(),
                };
                if !held {
                    return false;
                }
            }
            k += 1;
        }
        let mut i: usize = 0;
        while i < self.function_relocations.len()
            invariant
                self.function_relocations@.len() == self.function_bodies@.len(),
                self.function_jt_offsets@.len() == self.function_bodies@.len(),
                i <= self.function_relocations@.len(),
                forall|a: int, b: int|
                    0 <= a < i && 0 <= b < self.function_relocations@[a]@.len()
                        ==> self.relocation_allowed(
                        #[trigger] self.function_relocations@[a]@[b],
                        self.function_bodies@[a].body@.len(),
                        libcalls as nat,
                    ),
            decreases self.function_relocations@.len() - i,
        {
            if !self.relocations_allowed(
                self.function_relocations[i].as_slice(),
                self.function_bodies[i].body.len(),
                libcalls,
            ) {
                return false;
            }
            i += 1;
        }
        let mut s: usize = 0;
        while s < self.custom_section_relocations.len()
            invariant
                self.custom_section_relocations@.len() == self.custom_sections@.len(),
                self.function_jt_offsets@.len() == self.function_bodies@.len(),
                s <= self.custom_section_relocations@.len(),
                forall|a: int, b: int|
                    0 <= a < s && 0 <= b < self.custom_section_relocations@[a]@.len()
                        ==> self.relocation_allowed(
                        #[trigger] self.custom_section_relocations@[a]@[b],
                        self.custom_sections@[a].bytes@.len(),
                        libcalls as nat,
                    ),
            decreases self.custom_section_relocations@.len() - s,
        {
            if !self.relocations_allowed(
                self.custom_section_relocations[s].as_slice(),
                self.custom_sections[s].bytes.len(),
                libcalls,
            ) {
                return false;
            }
            s += 1;
        }
        true
    }

    /// Checks an executable that was read from bytes before it is loaded:
    /// one that is not well formed is a corrupted binary.
    pub fn validate(&self, libcalls: usize) -> (valid: Result<(), DeserializeError>)
        ensures
            valid is Ok <==> self.wf(libcalls as nat),
            valid matches Err(error) ==> (error matches DeserializeError::CorruptedBinary(message)
                && message@ == "the executable does not hold what its module announces"@),
    {
        if self.check(libcalls) {
            Ok(())
        } else {
            Err(
                DeserializeError::CorruptedBinary(
                    "the executable does not hold what its module announces".to_string(),
                ),
            )
        }
    }
}

} // verus!
