//! Import resolution: connecting what a module imports with what the host
//! exports, and checking that each export has the type the module expects.

use crate::sig_registry::VMSharedSignatureIndex;
use crate::types::{GlobalType, MemoryStyle, MemoryType, TableType};
use crate::vm::FunctionBodyPtr;
use vstd::prelude::*;

verus! {

/// How a host function is called.
#[derive(Clone, Copy, Debug, PartialEq, Eq, Structural)]
pub enum VMFunctionKind {
    /// The function takes its arguments in the native calling convention.
    Static,
    /// The function takes its arguments boxed in an array; it is reached
    /// through a dynamic import trampoline.
    Dynamic,
}

/// A function as the runtime sees it.
#[derive(Clone, Copy, Debug, PartialEq, Eq, Structural)]
pub struct VMFunction {
    /// The address of the function body.
    pub address: usize,
    /// The address of the environment handed to the function as its first argument.
    pub host_env: usize,
    /// The signature of the function, as registered with the engine.
    pub signature: VMSharedSignatureIndex,
    /// How the function is called.
    pub kind: VMFunctionKind,
}

/// The addresses of the host routines that manage a host function's environment.
#[derive(Clone, Copy, Debug, PartialEq, Eq, Structural)]
pub struct ExportFunctionMetadata {
    /// The routine that initializes the environment with the instance, if any.
    pub import_init_function_ptr: Option<usize>,
    /// The routine that clones the environment.
    pub host_env_clone_fn: usize,
    /// The routine that drops the environment.
    pub host_env_drop_fn: usize,
}

/// A function export value.
#[derive(Clone, Copy, Debug, PartialEq, Eq, Structural)]
pub struct ExportFunction {
    /// The function itself.
    pub vm_function: VMFunction,
    /// How to manage the function's environment, where it has one.
    pub metadata: Option<ExportFunctionMetadata>,
}

/// A table export value.
#[derive(Clone, Copy, Debug, PartialEq, Eq, Structural)]
pub struct VMTable {
    /// The address of the table's definition.
    pub definition: usize,
    /// The type of the table.
    pub ty: TableType,
}

/// A memory export value.
#[derive(Clone, Copy, Debug, PartialEq, Eq, Structural)]
pub struct VMMemory {
    /// The address of the memory's definition.
    pub definition: usize,
    /// The type of the memory.
    pub ty: MemoryType,
    /// How the memory is laid out.
    pub style: MemoryStyle,
}

/// A global export value.
#[derive(Clone, Copy, Debug, PartialEq, Eq, Structural)]
pub struct VMGlobal {
    /// The address of the global's definition.
    pub definition: usize,
    /// The type of the global.
    pub ty: GlobalType,
}

/// The value of an export passed from one instance to another.
#[derive(Clone, Copy, Debug, PartialEq, Eq, Structural)]
pub enum Export {
    /// A function export value.
    Function(ExportFunction),
    /// A table export value.
    Table(VMTable),
    /// A memory export value.
    Memory(VMMemory),
    /// A global export value.
    Global(VMGlobal),
}

/// The type a module expects of an import, in the runtime's terms.
#[derive(Clone, Copy, Debug, PartialEq, Eq, Structural)]
pub enum VMImportType {
    /// A function with this registered signature.
    Function(VMSharedSignatureIndex),
    /// A table of this type.
    Table(TableType),
    /// A memory of this type, laid out in this style.
    Memory(MemoryType, MemoryStyle),
    /// A global of this type.
    Global(GlobalType),
}

/// An import of a module, ready to be resolved.
#[derive(Debug)]
pub struct VMImport {
    /// The position of this import among the module's imports.
    pub import_no: u32,
    /// The module the import names.
    pub module: String,
    /// The field the import names.
    pub field: String,
    /// The type the module expects.
    pub ty: VMImportType,
}

/// A resolved function import.
#[derive(Clone, Copy, Debug, PartialEq, Eq, Structural)]
pub struct VMFunctionImport {
    /// The address the module calls.
    pub body: FunctionBodyPtr,
    /// The signature of the function.
    pub signature: VMSharedSignatureIndex,
    /// The address of the environment handed to the function.
    pub environment: usize,
}

/// The environment of a resolved function import, and how the host manages it.
#[derive(Clone, Copy, Debug, PartialEq, Eq, Structural)]
pub enum ImportFunctionEnv {
    /// The function has no environment of its own.
    NoEnv,
    /// The function has an environment, which is cloned for each instance
    /// and dropped with it.
    Env {
        /// The address of the environment.
        env: usize,
        /// The routine that clones the environment.
        clone: usize,
        /// The routine that initializes the environment with the instance, if any.
        initializer: Option<usize>,
        /// The routine that drops the environment.
        destructor: usize,
    },
}

/// A resolved table import.
#[derive(Clone, Copy, Debug, PartialEq, Eq, Structural)]
pub struct VMTableImport {
    /// The address of the table's definition.
    pub definition: usize,
}

/// A resolved memory import.
#[derive(Clone, Copy, Debug, PartialEq, Eq, Structural)]
pub struct VMMemoryImport {
    /// The address of the memory's definition.
    pub definition: usize,
}

/// A resolved global import.
#[derive(Clone, Copy, Debug, PartialEq, Eq, Structural)]
pub struct VMGlobalImport {
    /// The address of the global's definition.
    pub definition: usize,
}

/// The resolved imports of a module, each kind in the order of import.
#[derive(Debug)]
pub struct Imports {
    /// Resolved function imports.
    pub functions: Vec<VMFunctionImport>,
    /// The environment of each function import.
    pub host_function_env_initializers: Vec<ImportFunctionEnv>,
    /// Resolved table imports.
    pub tables: Vec<VMTableImport>,
    /// Resolved memory imports.
    pub memories: Vec<VMMemoryImport>,
    /// Resolved global imports.
    pub globals: Vec<VMGlobalImport>,
}

/// What the resolved imports of a module are.
pub struct ImportsView {
    /// Resolved function imports.
    pub functions: Seq<VMFunctionImport>,
    /// The environment of each function import.
    pub host_function_env_initializers: Seq<ImportFunctionEnv>,
    /// Resolved table imports.
    pub tables: Seq<VMTableImport>,
    /// Resolved memory imports.
    pub memories: Seq<VMMemoryImport>,
    /// Resolved global imports.
    pub globals: Seq<VMGlobalImport>,
}

impl View for Imports {
    type V = ImportsView;

    open spec fn view(&self) -> ImportsView {
        ImportsView {
            functions: self.functions@,
            host_function_env_initializers: self.host_function_env_initializers@,
            tables: self.tables@,
            memories: self.memories@,
            globals: self.globals@,
        }
    }
}

impl Imports {
    /// No imports at all.
    pub fn new() -> (imports: Self)
        ensures
            imports@ == no_imports(),
    {
        Imports {
            functions: Vec::new(),
            host_function_env_initializers: Vec::new(),
            tables: Vec::new(),
            memories: Vec::new(),
            globals: Vec::new(),
        }
    }
}

/// Why an import could not be linked.
#[derive(Debug)]
pub enum LinkError {
    /// Nothing is exported under the name the module imports.
    UnknownImport {
        /// The module the import names.
        module: String,
        /// The field the import names.
        field: String,
        /// The type the module expects.
        expected: VMImportType,
    },
    /// What is exported under the name has another type than the module expects.
    IncompatibleType {
        /// The module the import names.
        module: String,
        /// The field the import names.
        field: String,
        /// The type the module expects.
        expected: VMImportType,
        /// The type of what is exported.
        actual: VMImportType,
    },
    /// The host ran out of a resource.
    Resource(String),
}

/// What a link error says.
pub enum LinkErrorView {
    /// Nothing is exported under the name the module imports.
    UnknownImport { module: Seq<char>, field: Seq<char>, expected: VMImportType },
    /// What is exported under the name has another type than the module expects.
    IncompatibleType {
        module: Seq<char>,
        field: Seq<char>,
        expected: VMImportType,
        actual: VMImportType,
    },
    /// The host ran out of a resource.
    Resource(Seq<char>),
}

impl View for LinkError {
    type V = LinkErrorView;

    open spec fn view(&self) -> LinkErrorView {
        match *self {
            LinkError::UnknownImport { module, field, expected } => LinkErrorView::UnknownImport {
                module: module@,
                field: field@,
                expected,
            },
            LinkError::IncompatibleType {
                module,
                field,
                expected,
                actual,
            } => LinkErrorView::IncompatibleType { module: module@, field: field@, expected, actual },
            LinkError::Resource(message) => LinkErrorView::Resource(message@),
        }
    }
}

/// Import resolver connects imports with available exported values.
pub trait Resolver {
    /// Resolves an import a WebAssembly module to an export it's hooked up to.
    ///
    /// The `index` provided is the index of the import in the wasm module
    /// that's being resolved. For example 1 means that it's the second import
    /// listed in the wasm module.
    ///
    /// The `module` and `field` arguments provided are the module/field names
    /// listed on the import itself.
    fn resolve(&self, index: u32, module: &str, field: &str) -> (export: Option<Export>)
        ensures
            self.may_resolve(index, module@, field@, export),
    ;

    /// Whether `export` is an answer that this resolver may give for the
    /// import at `index` with the given names. A resolver that says nothing
    /// of its answers may give any.
    open spec fn may_resolve(
        &self,
        index: u32,
        module: Seq<char>,
        field: Seq<char>,
        export: Option<Export>,
    ) -> bool {
        true
    }
}

/// Import resolver connects imports with available exported values.
///
/// This is for those who don't care about the `index`, but only about the
/// `module` and `field` for the resolution.
pub trait NamedResolver {
    /// Resolves an import a WebAssembly module to an export it's hooked up to.
    ///
    /// It receives the `module` and `field` names and return the [`Export`] in
    /// case it's found.
    fn resolve_by_name(&self, module: &str, field: &str) -> (export: Option<Export>)
        ensures
            self.may_resolve_by_name(module@, field@, export),
    ;

    /// Whether `export` is an answer that this resolver may give for the
    /// given names. A resolver that says nothing of its answers may give any.
    open spec fn may_resolve_by_name(
        &self,
        module: Seq<char>,
        field: Seq<char>,
        export: Option<Export>,
    ) -> bool {
        true
    }
}

// All NamedResolvers are Resolvers.
impl<T: NamedResolver> Resolver for T {
    /// By default this method will be calling [`NamedResolver::resolve_by_name`],
    /// dismissing the provided `index`.
    fn resolve(&self, index: u32, module: &str, field: &str) -> (export: Option<Export>) {
        self.resolve_by_name(module, field)
    }

    /// The answers for an import are the answers for its names, whatever its index.
    open spec fn may_resolve(
        &self,
        index: u32,
        module: Seq<char>,
        field: Seq<char>,
        export: Option<Export>,
    ) -> bool {
        self.may_resolve_by_name(module, field, export)
    }
}

impl<T: NamedResolver> NamedResolver for &T {
    fn resolve_by_name(&self, module: &str, field: &str) -> (export: Option<Export>) {
        (**self).resolve_by_name(module, field)
    }

    /// A borrowed resolver answers as the resolver does.
    open spec fn may_resolve_by_name(
        &self,
        module: Seq<char>,
        field: Seq<char>,
        export: Option<Export>,
    ) -> bool {
        (**self).may_resolve_by_name(module, field, export)
    }
}

impl NamedResolver for () {
    /// Always returns `None`.
    fn resolve_by_name(&self, module: &str, field: &str) -> (export: Option<Export>)
        ensures
            export is None,
    {
        None
    }

    /// The only answer is none.
    open spec fn may_resolve_by_name(
        &self,
        module: Seq<char>,
        field: Seq<char>,
        export: Option<Export>,
    ) -> bool {
        export is None
    }
}

/// `Resolver` implementation that always resolves to `None`. Equivalent to `()`.
pub struct NullResolver {}

impl Resolver for NullResolver {
    fn resolve(&self, index: u32, module: &str, field: &str) -> (export: Option<Export>)
        ensures
            export is None,
    {
        None
    }

    /// The only answer is none.
    open spec fn may_resolve(
        &self,
        index: u32,
        module: Seq<char>,
        field: Seq<char>,
        export: Option<Export>,
    ) -> bool {
        export is None
    }
}

/// A [`NamedResolver`] that links two resolvers together in a chain: what the
/// first does not resolve is asked of the second.
#[derive(Clone)]
pub struct NamedResolverChain<A: NamedResolver, B: NamedResolver> {
    a: A,
    b: B,
}

/// The first answer where there is one, else the second.
pub open spec fn first_answer(a: Option<Export>, b: Option<Export>) -> Option<Export> {
    if a is Some {
        a
    } else {
        b
    }
}

/// Picks the answer of a chain from the answers of its two links.
pub fn pick_answer(a: Option<Export>, b: Option<Export>) -> (picked: Option<Export>)
    ensures
        picked == first_answer(a, b),
{
    match a {
        Some(export) => Some(export),
        None => b,
    }
}

impl<A: NamedResolver, B: NamedResolver> NamedResolverChain<A, B> {
    /// The resolver that is asked first.
    pub closed spec fn first(&self) -> A {
        self.a
    }

    /// The resolver that is asked where the first has no answer.
    pub closed spec fn second(&self) -> B {
        self.b
    }

    /// Chains `a` in front of `b`: `a` overrides `b`.
    pub fn new(a: A, b: B) -> (chain: Self)
        ensures
            chain.first() == a,
            chain.second() == b,
    {
        NamedResolverChain { a, b }
    }
}

impl<A: NamedResolver, B: NamedResolver> NamedResolver for NamedResolverChain<A, B> {
    fn resolve_by_name(&self, module: &str, field: &str) -> (export: Option<Export>) {
        let first = self.a.resolve_by_name(module, field);
        match first {
            Some(export) => {
                assert(chain_answer(self.first(), self.second(), module@, field@, first, Some(export)));
                Some(export)
            },
            None => {
                let second = self.b.resolve_by_name(module, field);
                assert(chain_answer(self.first(), self.second(), module@, field@, first, second));
                second
            },
        }
    }

    /// The answer of a chain is the answer of the first resolver where it
    /// has one, and else the answer of the second.
    open spec fn may_resolve_by_name(
        &self,
        module: Seq<char>,
        field: Seq<char>,
        export: Option<Export>,
    ) -> bool {
        exists|first: Option<Export>|
            chain_answer(self.first(), self.second(), module, field, first, export)
    }
}

/// Whether `export` is what a chain of `a` and `b` answers for the given
/// names, where `a` answers `first`: `first` itself where it is an export,
/// and else an answer of `b`.
pub open spec fn chain_answer<A: NamedResolver, B: NamedResolver>(
    a: A,
    b: B,
    module: Seq<char>,
    field: Seq<char>,
    first: Option<Export>,
    export: Option<Export>,
) -> bool {
    &&& a.may_resolve_by_name(module, field, first)
    &&& first is Some ==> export == first
    &&& first is None ==> b.may_resolve_by_name(module, field, export)
}

/// A trait for chaining resolvers together.
pub trait ChainableNamedResolver: NamedResolver + Sized {
    /// Chain a resolver in front of the current resolver.
    ///
    /// This will cause the second resolver to override the first.
    fn chain_front<U: NamedResolver>(self, other: U) -> (chain: NamedResolverChain<U, Self>)
        ensures
            chain.first() == other,
            chain.second() == self,
    {
        NamedResolverChain::new(other, self)
    }

    /// Chain a resolver behind the current resolver.
    ///
    /// This will cause the first resolver to override the second.
    fn chain_back<U: NamedResolver>(self, other: U) -> (chain: NamedResolverChain<Self, U>)
        ensures
            chain.first() == self,
            chain.second() == other,
    {
        NamedResolverChain::new(self, other)
    }
}

// We give these chain methods to all types implementing NamedResolver
impl<T: NamedResolver> ChainableNamedResolver for T {
}

/// An exported table can stand for an imported one: the element types match,
/// it is at least as large as asked, and where the import has a maximum, the
/// export has one that does not exceed it.
pub open spec fn compatible_table(ex: TableType, im: TableType) -> bool {
    &&& ex.ty == im.ty
    &&& im.minimum <= ex.minimum
    &&& (im.maximum matches Some(im_max) ==> (ex.maximum matches Some(ex_max) && ex_max <= im_max))
}

/// An exported memory can stand for an imported one: it is at least as large
/// as asked, where the import has a maximum, the export has one that does not
/// exceed it, and both are shared or neither is.
pub open spec fn compatible_memory(ex: MemoryType, im: MemoryType) -> bool {
    &&& im.minimum.0 <= ex.minimum.0
    &&& (im.maximum matches Some(im_max) ==> (ex.maximum matches Some(ex_max) && ex_max.0
        <= im_max.0))
    &&& ex.shared == im.shared
}

/// The guard size of a memory style.
pub open spec fn guard_size(style: MemoryStyle) -> u64 {
    match style {
        MemoryStyle::Dynamic { offset_guard_size } => offset_guard_size,
        MemoryStyle::Static { offset_guard_size, .. } => offset_guard_size,
    }
}

/// An exported memory gives the protections the importing module counts on:
/// where both are static, the export reserves at least as much; and the
/// export's guard region is at least as large.
pub open spec fn compatible_memory_style(ex: MemoryStyle, im: MemoryStyle) -> bool {
    &&& (ex matches MemoryStyle::Static { bound: ex_bound, .. } ==> (im matches MemoryStyle::Static {
        bound: im_bound,
        ..
    } ==> ex_bound.0 >= im_bound.0))
    &&& guard_size(ex) >= guard_size(im)
}

/// Whether the exported table `ex` can stand for the imported table `im`.
pub fn is_compatible_table(ex: &TableType, im: &TableType) -> (compatible: bool)
    ensures
        compatible == compatible_table(*ex, *im),
{
    ex.ty == im.ty && im.minimum <= ex.minimum && match im.maximum {
        None => true,
        Some(im_max) => match ex.maximum {
            None => false,
            Some(ex_max) => ex_max <= im_max,
        },
    }
}

/// Whether the exported memory `ex` can stand for the imported memory `im`.
pub fn is_compatible_memory(ex: &MemoryType, im: &MemoryType) -> (compatible: bool)
    ensures
        compatible == compatible_memory(*ex, *im),
{
    im.minimum.0 <= ex.minimum.0 && match im.maximum {
        None => true,
        Some(im_max) => match ex.maximum {
            None => false,
            Some(ex_max) => ex_max.0 <= im_max.0,
        },
    } && ex.shared == im.shared
}

/// Whether a memory laid out as `ex` protects what a module compiled for `im` expects.
pub fn is_compatible_memory_style(ex: &MemoryStyle, im: &MemoryStyle) -> (compatible: bool)
    ensures
        compatible == compatible_memory_style(*ex, *im),
{
    let bounds_fit = match (ex, im) {
        (MemoryStyle::Static { bound: ex_bound, .. }, MemoryStyle::Static { bound: im_bound, .. }) => {
            ex_bound.0 >= im_bound.0
        },
        _ => true,
    };
    bounds_fit && ex.offset_guard_size() >= im.offset_guard_size()
}

/// The type of an export, in the terms in which imports are typed.
pub open spec fn export_type(export: Export) -> VMImportType {
    match export {
        Export::Function(f) => VMImportType::Function(f.vm_function.signature),
        Export::Table(t) => VMImportType::Table(t.ty),
        Export::Memory(m) => VMImportType::Memory(m.ty, m.style),
        Export::Global(g) => VMImportType::Global(g.ty),
    }
}

/// Whether `export` can stand for an import of type `ty`.
pub open spec fn satisfies(export: Export, ty: VMImportType) -> bool {
    match (export, ty) {
        (Export::Function(ex), VMImportType::Function(im)) => ex.vm_function.signature == im,
        (Export::Table(ex), VMImportType::Table(im)) => compatible_table(ex.ty, im),
        (Export::Memory(ex), VMImportType::Memory(im, im_style)) => compatible_memory(ex.ty, im)
            && compatible_memory_style(ex.style, im_style),
        (Export::Global(ex), VMImportType::Global(im)) => ex.ty == im,
        _ => false,
    }
}

/// The environment record of a function export.
pub open spec fn function_env(ex: ExportFunction) -> ImportFunctionEnv {
    match ex.metadata {
        Some(m) => ImportFunctionEnv::Env {
            env: ex.vm_function.host_env,
            clone: m.host_env_clone_fn,
            initializer: m.import_init_function_ptr,
            destructor: m.host_env_drop_fn,
        },
        None => ImportFunctionEnv::NoEnv,
    }
}

/// No imports at all.
pub open spec fn no_imports() -> ImportsView {
    ImportsView {
        functions: Seq::empty(),
        host_function_env_initializers: Seq::empty(),
        tables: Seq::empty(),
        memories: Seq::empty(),
        globals: Seq::empty(),
    }
}

/// What is said of a dynamic host function for which no trampoline was made.
pub open spec fn missing_trampoline() -> Seq<char> {
    "no trampoline was made for the dynamic function import"@
}

/// The imports `so_far` with one more import linked to the host's `answer`.
///
/// A missing answer is an unknown import; an answer of the wrong type is an
/// incompatible one. A dynamic host function is called at the trampoline made
/// for the function import it resolves, and cannot be linked where none was
/// made.
pub open spec fn link_one(
    so_far: ImportsView,
    import: VMImport,
    answer: Option<Export>,
    trampolines: Seq<FunctionBodyPtr>,
) -> Result<ImportsView, LinkErrorView> {
    match answer {
        None => Err(
            LinkErrorView::UnknownImport {
                module: import.module@,
                field: import.field@,
                expected: import.ty,
            },
        ),
        Some(export) => if !satisfies(export, import.ty) {
            Err(
                LinkErrorView::IncompatibleType {
                    module: import.module@,
                    field: import.field@,
                    expected: import.ty,
                    actual: export_type(export),
                },
            )
        } else {
            match export {
                Export::Function(ex) => if ex.vm_function.kind is Dynamic && so_far.functions.len()
                    >= trampolines.len() {
                    Err(LinkErrorView::Resource(missing_trampoline()))
                } else {
                    Ok(
                    ImportsView {
                        functions: so_far.functions.push(
                            VMFunctionImport {
                                body: match ex.vm_function.kind {
                                    VMFunctionKind::Dynamic => trampolines[so_far.functions.len() as int],
                                    VMFunctionKind::Static => FunctionBodyPtr(ex.vm_function.address),
                                },
                                signature: ex.vm_function.signature,
                                environment: ex.vm_function.host_env,
                            },
                        ),
                        host_function_env_initializers: so_far.host_function_env_initializers.push(
                            function_env(ex),
                        ),
                        ..so_far
                    },
                )
                },
                Export::Table(ex) => Ok(
                    ImportsView {
                        tables: so_far.tables.push(VMTableImport { definition: ex.definition }),
                        ..so_far
                    },
                ),
                Export::Memory(ex) => Ok(
                    ImportsView {
                        memories: so_far.memories.push(VMMemoryImport { definition: ex.definition }),
                        ..so_far
                    },
                ),
                Export::Global(ex) => Ok(
                    ImportsView {
                        globals: so_far.globals.push(VMGlobalImport { definition: ex.definition }),
                        ..so_far
                    },
                ),
            }
        },
    }
}

/// The first `n` of `imports` linked in order to the host's `answers`: the
/// first import that cannot be linked gives the error.
pub open spec fn link_all(
    imports: Seq<VMImport>,
    answers: Seq<Option<Export>>,
    trampolines: Seq<FunctionBodyPtr>,
    n: nat,
) -> Result<ImportsView, LinkErrorView>
    decreases n,
{
    if n == 0 {
        Ok(no_imports())
    } else {
        match link_all(imports, answers, trampolines, (n - 1) as nat) {
            Err(e) => Err(e),
            Ok(so_far) => link_one(so_far, imports[n - 1], answers[n - 1], trampolines),
        }
    }
}

/// The answers that do not matter to the first `n` imports may change.
proof fn lemma_link_all_depends_on_prefix(
    imports: Seq<VMImport>,
    a: Seq<Option<Export>>,
    b: Seq<Option<Export>>,
    trampolines: Seq<FunctionBodyPtr>,
    n: nat,
)
    requires
        forall|i: int| 0 <= i < n ==> a[i] == b[i],
    ensures
        link_all(imports, a, trampolines, n) == link_all(imports, b, trampolines, n),
    decreases n,
{
    if n > 0 {
        lemma_link_all_depends_on_prefix(imports, a, b, trampolines, (n - 1) as nat);
    }
}

/// Links one import to the host's answer for it, adding it to `imports`.
///
/// A missing answer is an unknown import, an answer of the wrong type an
/// incompatible one, and a dynamic function for which no trampoline was made
/// cannot be linked; in each case `imports` stays as it is.
pub fn link_import(
    imports: &mut Imports,
    import: &VMImport,
    answer: Option<Export>,
    finished_dynamic_function_trampolines: &[FunctionBodyPtr],
) -> (linked: Result<(), LinkError>)
    ensures
        match link_one(old(imports)@, *import, answer, finished_dynamic_function_trampolines@) {
            Ok(grown) => linked is Ok && final(imports)@ == grown,
            Err(e) => linked matches Err(err) && err@ == e && final(imports)@ == old(imports)@,
        },
{
    let export = match answer {
        Some(export) => export,
        None => {
            return Err(
                LinkError::UnknownImport {
                    module: import.module.clone(),
                    field: import.field.clone(),
                    expected: import.ty,
                },
            );
        },
    };
    match (export, import.ty) {
        (Export::Function(ex), VMImportType::Function(im)) => {
            if ex.vm_function.signature == im {
                let address = match ex.vm_function.kind {
                    VMFunctionKind::Dynamic => {
                        // A dynamic function is entered through the trampoline
                        // made for the import it resolves.
                        let index = imports.functions.len();
                        if index >= finished_dynamic_function_trampolines.len() {
                            return Err(
                                LinkError::Resource(
                                    "no trampoline was made for the dynamic function import".to_string(),
                                ),
                            );
                        }
                        finished_dynamic_function_trampolines[index]
                    },
                    VMFunctionKind::Static => FunctionBodyPtr(ex.vm_function.address),
                };
                imports.functions.push(
                    VMFunctionImport {
                        body: address,
                        signature: im,
                        environment: ex.vm_function.host_env,
                    },
                );
                let env = match ex.metadata {
                    Some(m) => ImportFunctionEnv::Env {
                        env: ex.vm_function.host_env,
                        clone: m.host_env_clone_fn,
                        initializer: m.import_init_function_ptr,
                        destructor: m.host_env_drop_fn,
                    },
                    None => ImportFunctionEnv::NoEnv,
                };
                imports.host_function_env_initializers.push(env);
                return Ok(());
            }
        },
        (Export::Table(ex), VMImportType::Table(im)) => {
            if is_compatible_table(&ex.ty, &im) {
                imports.tables.push(VMTableImport { definition: ex.definition });
                return Ok(());
            }
        },
        (Export::Memory(ex), VMImportType::Memory(im, im_style)) => {
            if is_compatible_memory(&ex.ty, &im) && is_compatible_memory_style(&ex.style, &im_style) {
                imports.memories.push(VMMemoryImport { definition: ex.definition });
                return Ok(());
            }
        },
        (Export::Global(ex), VMImportType::Global(im)) => {
            if ex.ty == im {
                imports.globals.push(VMGlobalImport { definition: ex.definition });
                return Ok(());
            }
        },
        _ => {},
    }
    Err(
        LinkError::IncompatibleType {
            module: import.module.clone(),
            field: import.field.clone(),
            expected: import.ty,
            actual: type_of_export(&export),
        },
    )
}

/// The type of an export, in the terms in which imports are typed.
pub fn type_of_export(export: &Export) -> (ty: VMImportType)
    ensures
        ty == export_type(*export),
{
    match export {
        Export::Function(f) => VMImportType::Function(f.vm_function.signature),
        Export::Table(t) => VMImportType::Table(t.ty),
        Export::Memory(m) => VMImportType::Memory(m.ty, m.style),
        Export::Global(g) => VMImportType::Global(g.ty),
    }
}

/// Whether `answers` are what `resolver` may say of the first `asked` of
/// `imports`, one answer for each.
pub open spec fn answered<R: Resolver>(
    resolver: R,
    imports: Seq<VMImport>,
    answers: Seq<Option<Export>>,
    asked: nat,
) -> bool {
    &&& answers.len() == asked
    &&& asked <= imports.len()
    &&& forall|i: int|
        0 <= i < asked ==> resolver.may_resolve(
            imports[i].import_no,
            imports[i].module@,
            imports[i].field@,
            #[trigger] answers[i],
        )
}

/// Whether `outcome` is what linking comes to when `resolver` is asked for
/// the first `asked` of `imports` and gives `answers`: all imports are asked
/// for and linked, or the last one asked for is the first that cannot be
/// linked, and its error is the outcome.
pub open spec fn link_attempt<R: Resolver>(
    resolver: R,
    imports: Seq<VMImport>,
    trampolines: Seq<FunctionBodyPtr>,
    answers: Seq<Option<Export>>,
    asked: nat,
    outcome: Result<ImportsView, LinkErrorView>,
) -> bool {
    &&& answered(resolver, imports, answers, asked)
    &&& link_all(imports, answers, trampolines, asked) == outcome
    &&& match outcome {
        Ok(_) => asked == imports.len(),
        Err(_) => asked > 0 && link_all(imports, answers, trampolines, (asked - 1) as nat) is Ok,
    }
}

/// Whether linking `imports` with what `resolver` may answer can come to
/// `outcome`.
pub open spec fn may_link<R: Resolver>(
    resolver: R,
    imports: Seq<VMImport>,
    trampolines: Seq<FunctionBodyPtr>,
    outcome: Result<ImportsView, LinkErrorView>,
) -> bool {
    exists|answers: Seq<Option<Export>>, asked: nat| #[trigger]
        link_attempt(resolver, imports, trampolines, answers, asked, outcome)
}

/// What the result of linking says, with the imports and the error as what
/// they hold.
pub open spec fn link_outcome(resolved: Result<Imports, LinkError>) -> Result<
    ImportsView,
    LinkErrorView,
> {
    match resolved {
        Ok(all) => Ok(all@),
        Err(error) => Err(error@),
    }
}

/// This function allows to match all imports of a module with concrete
/// definitions provided by a `Resolver`.
///
/// Each import is resolved in turn and linked to what the resolver answered.
/// If all imports are satisfied, returns the `Imports` required for a module
/// instantiation; else the error of the first import that could not be linked,
/// and no import after it is resolved.
pub fn resolve_imports<R: Resolver>(
    resolver: &R,
    imports: &[VMImport],
    finished_dynamic_function_trampolines: &[FunctionBodyPtr],
) -> (resolved: Result<Imports, LinkError>)
    ensures
        may_link(
            *resolver,
            imports@,
            finished_dynamic_function_trampolines@,
            link_outcome(resolved),
        ),
{
    let ghost trampolines = finished_dynamic_function_trampolines@;
    let mut linked = Imports::new();
    let ghost mut answers: Seq<Option<Export>> = Seq::empty();
    let mut i: usize = 0;
    while i < imports.len()
        invariant
            i <= imports@.len(),
            trampolines == finished_dynamic_function_trampolines@,
            answered(*resolver, imports@, answers, i as nat),
            link_all(imports@, answers, trampolines, i as nat) == Ok::<ImportsView, LinkErrorView>(
                linked@,
            ),
        decreases imports@.len() - i,
    {
        let import = &imports[i];
        let answer = resolver.resolve(import.import_no, import.module.as_str(), import.field.as_str());
        proof {
            lemma_link_all_depends_on_prefix(
                imports@,
                answers,
                answers.push(answer),
                trampolines,
                i as nat,
            );
            answers = answers.push(answer);
        }
        match link_import(&mut linked, import, answer, finished_dynamic_function_trampolines) {
            Ok(()) => {},
            Err(e) => {
                assert(link_attempt(
                    *resolver,
                    imports@,
                    trampolines,
                    answers,
                    (i + 1) as nat,
                    Err(e@),
                ));
                return Err(e);
            },
        }
        i += 1;
    }
    assert(link_attempt(*resolver, imports@, trampolines, answers, i as nat, Ok(linked@)));
    Ok(linked)
}

/// Once an import has failed to link, linking more imports gives the same error.
proof fn lemma_error_stays(
    imports: Seq<VMImport>,
    answers: Seq<Option<Export>>,
    trampolines: Seq<FunctionBodyPtr>,
    m: nat,
    n: nat,
)
    requires
        m <= n,
        link_all(imports, answers, trampolines, m) is Err,
    ensures
        link_all(imports, answers, trampolines, n) == link_all(imports, answers, trampolines, m),
    decreases n,
{
    if m < n {
        lemma_error_stays(imports, answers, trampolines, m, (n - 1) as nat);
    }
}

/// Where the resolver has no answer for the first import, linking fails
/// with that import as unknown, whatever the other imports are and whether
/// or not trampolines were made.
pub proof fn lemma_unknown_import<R: Resolver>(
    resolver: R,
    imports: Seq<VMImport>,
    trampolines: Seq<FunctionBodyPtr>,
    outcome: Result<ImportsView, LinkErrorView>,
)
    requires
        imports.len() > 0,
        forall|answer: Option<Export>| #[trigger]
            resolver.may_resolve(imports[0].import_no, imports[0].module@, imports[0].field@, answer)
                ==> answer is None,
        may_link(resolver, imports, trampolines, outcome),
    ensures
        outcome == Err::<ImportsView, LinkErrorView>(
            LinkErrorView::UnknownImport {
                module: imports[0].module@,
                field: imports[0].field@,
                expected: imports[0].ty,
            },
        ),
{
    let (answers, asked) = choose|answers: Seq<Option<Export>>, asked: nat| #[trigger]
        link_attempt(resolver, imports, trampolines, answers, asked, outcome);
    reveal_with_fuel(link_all, 2);
    assert(asked >= 1);
    assert(answers[0] is None);
    assert(link_all(imports, answers, trampolines, 1) is Err);
    if asked > 1 {
        lemma_error_stays(imports, answers, trampolines, 1, (asked - 1) as nat);
    }
}

} // verus!
