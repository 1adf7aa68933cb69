//! The types of WebAssembly values, functions, tables, memories and globals.

use vstd::prelude::*;

verus! {

/// The type of a WebAssembly value.
#[derive(Clone, Copy, Debug, PartialEq, Eq, Structural, Hash)]
pub enum ValType {
    /// Signed 32 bit integer.
    I32,
    /// Signed 64 bit integer.
    I64,
    /// Floating point 32 bit number.
    F32,
    /// Floating point 64 bit number.
    F64,
    /// A 128 bit vector.
    V128,
    /// A reference to opaque data in the host.
    ExternRef,
    /// A reference to a function.
    FuncRef,
}

/// Whether a global can be written to.
#[derive(Clone, Copy, Debug, PartialEq, Eq, Structural, Hash)]
pub enum Mutability {
    /// The global is constant.
    Const,
    /// The global is mutable.
    Var,
}

/// What each of a list of function types is.
pub open spec fn function_type_views(types: Seq<FunctionType>) -> Seq<FunctionTypeView> {
    Seq::new(types.len(), |i: int| types[i]@)
}

/// A number of 64 KiB WebAssembly pages.
#[derive(Clone, Copy, Debug, PartialEq, Eq, Structural, Hash, PartialOrd, Ord)]
pub struct Pages(pub u32);

/// What a function type is: its parameter types and its result types.
pub struct FunctionTypeView {
    /// The parameter types, in order.
    pub params: Seq<ValType>,
    /// The result types, in order.
    pub results: Seq<ValType>,
}

/// The signature of a function: parameter and result types.
#[derive(Debug, PartialEq, Eq, Hash)]
pub struct FunctionType {
    params: Vec<ValType>,
    results: Vec<ValType>,
}

/// Copy a list of value types.
pub fn copy_types(types: &[ValType]) -> (copy: Vec<ValType>)
    ensures
        copy@ == types@,
{
    let mut copy: Vec<ValType> = Vec::new();
    let mut i: usize = 0;
    while i < types.len()
        invariant
            i <= types.len(),
            copy@ == types@.take(i as int),
        decreases types.len() - i,
    {
        copy.push(types[i]);
        i += 1;
    }
    copy
}

/// Whether two lists of value types are the same.
pub fn same_types(a: &[ValType], b: &[ValType]) -> (same: bool)
    ensures
        same == (a@ == b@),
{
    if a.len() != b.len() {
        return false;
    }
    let mut i: usize = 0;
    while i < a.len()
        invariant
            a.len() == b.len(),
            i <= a.len(),
            a@.take(i as int) == b@.take(i as int),
        decreases a.len() - i,
    {
        if a[i] != b[i] {
            return false;
        }
        i += 1;
    }
    assert(a@.take(a@.len() as int) =~= a@);
    assert(b@.take(b@.len() as int) =~= b@);
    true
}

impl View for FunctionType {
    type V = FunctionTypeView;

    closed spec fn view(&self) -> FunctionTypeView {
        FunctionTypeView { params: self.params@, results: self.results@ }
    }
}

impl FunctionType {
    /// Creates a new function type with the given parameter and result types.
    pub fn new(params: Vec<ValType>, results: Vec<ValType>) -> (ty: Self)
        ensures
            ty@.params == params@,
            ty@.results == results@,
    {
        FunctionType { params, results }
    }

    /// Parameter types.
    pub fn params(&self) -> (params: &[ValType])
        ensures
            params@ == self@.params,
    {
        self.params.as_slice()
    }

    /// Result types.
    pub fn results(&self) -> (results: &[ValType])
        ensures
            results@ == self@.results,
    {
        self.results.as_slice()
    }

    /// Whether this is the same function type as `other`.
    pub fn same(&self, other: &FunctionType) -> (same: bool)
        ensures
            same == (self@ == other@),
    {
        same_types(self.params.as_slice(), other.params.as_slice()) && same_types(
            self.results.as_slice(),
            other.results.as_slice(),
        )
    }

    /// This function type, borrowed.
    pub fn as_ref(&self) -> (borrowed: FunctionTypeRef<'_>)
        ensures
            borrowed@ == self@,
    {
        FunctionTypeRef::new(self.params.as_slice(), self.results.as_slice())
    }

    /// An owned copy of a borrowed function type.
    pub fn new_from_ref(borrowed: FunctionTypeRef<'_>) -> (ty: Self)
        ensures
            ty@ == borrowed@,
    {
        FunctionType { params: copy_types(borrowed.params()), results: copy_types(borrowed.results()) }
    }

    /// A copy of this function type.
    pub fn duplicate(&self) -> (copy: Self)
        ensures
            copy@ == self@,
    {
        FunctionType {
            params: copy_types(self.params.as_slice()),
            results: copy_types(self.results.as_slice()),
        }
    }
}

/// A borrowed function type: parameter and result types held elsewhere.
#[derive(Clone, Copy, Debug)]
pub struct FunctionTypeRef<'a> {
    params: &'a [ValType],
    results: &'a [ValType],
}

impl<'a> View for FunctionTypeRef<'a> {
    type V = FunctionTypeView;

    closed spec fn view(&self) -> FunctionTypeView {
        FunctionTypeView { params: self.params@, results: self.results@ }
    }
}

impl<'a> FunctionTypeRef<'a> {
    /// Create a new temporary function type.
    pub fn new(params: &'a [ValType], results: &'a [ValType]) -> (ty: Self)
        ensures
            ty@.params == params@,
            ty@.results == results@,
    {
        FunctionTypeRef { params, results }
    }

    /// Parameter types.
    pub fn params(&self) -> (params: &'a [ValType])
        ensures
            params@ == self@.params,
    {
        self.params
    }

    /// Result types.
    pub fn results(&self) -> (results: &'a [ValType])
        ensures
            results@ == self@.results,
    {
        self.results
    }
}

impl Clone for FunctionType {
    fn clone(&self) -> (copy: Self)
        ensures
            copy@ == self@,
    {
        self.duplicate()
    }
}

/// The type of a table: its element type and size limits.
#[derive(Clone, Copy, Debug, PartialEq, Eq, Structural, Hash)]
pub struct TableType {
    /// The type of data stored in elements of the table.
    pub ty: ValType,
    /// The minimum number of elements in the table.
    pub minimum: u32,
    /// The maximum number of elements in the table.
    pub maximum: Option<u32>,
}

/// The type of a linear memory: its size limits and whether it is shared.
#[derive(Clone, Copy, Debug, PartialEq, Eq, Structural, Hash)]
pub struct MemoryType {
    /// The minimum number of pages in the memory.
    pub minimum: Pages,
    /// The maximum number of pages in the memory.
    pub maximum: Option<Pages>,
    /// Whether the memory may be shared between multiple threads.
    pub shared: bool,
}

/// The type of a global: its value type and mutability.
#[derive(Clone, Copy, Debug, PartialEq, Eq, Structural, Hash)]
pub struct GlobalType {
    /// The type of the value stored in the global.
    pub ty: ValType,
    /// A flag indicating whether the value may change at runtime.
    pub mutability: Mutability,
}

/// How a linear memory is laid out in the host's address space.
#[derive(Clone, Copy, Debug, PartialEq, Eq, Structural, Hash)]
pub enum MemoryStyle {
    /// The memory may move when it grows; accesses are bounds-checked.
    Dynamic {
        /// The size of the guard region after the memory, in bytes.
        offset_guard_size: u64,
    },
    /// Address space is reserved up front, so the memory never moves.
    Static {
        /// The number of pages reserved.
        bound: Pages,
        /// The size of the guard region after the memory, in bytes.
        offset_guard_size: u64,
    },
}

impl MemoryStyle {
    /// The size of the guard region after the memory, in bytes.
    pub fn offset_guard_size(&self) -> (size: u64)
        ensures
            size == match *self {
                MemoryStyle::Dynamic { offset_guard_size } => offset_guard_size,
                MemoryStyle::Static { offset_guard_size, .. } => offset_guard_size,
            },
    {
        match self {
            MemoryStyle::Dynamic { offset_guard_size } => *offset_guard_size,
            MemoryStyle::Static { offset_guard_size, .. } => *offset_guard_size,
        }
    }
}

/// How indirect calls through a table are checked.
#[derive(Clone, Copy, Debug, PartialEq, Eq, Structural, Hash)]
pub enum TableStyle {
    /// Signatures are checked when the table element is called.
    CallerChecksSignature,
}

/// The type of something a module imports or exports.
#[derive(Debug, PartialEq, Eq)]
pub enum ExternType {
    /// This external type is the type of a WebAssembly function.
    Function(FunctionType),
    /// This external type is the type of a WebAssembly global.
    Global(GlobalType),
    /// This external type is the type of a WebAssembly table.
    Table(TableType),
    /// This external type is the type of a WebAssembly memory.
    Memory(MemoryType),
}

/// What an external type is.
pub enum ExternTypeView {
    /// A function of this type.
    Function(FunctionTypeView),
    /// A global of this type.
    Global(GlobalType),
    /// A table of this type.
    Table(TableType),
    /// A memory of this type.
    Memory(MemoryType),
}

impl View for ExternType {
    type V = ExternTypeView;

    open spec fn view(&self) -> ExternTypeView {
        match *self {
            ExternType::Function(f) => ExternTypeView::Function(f@),
            ExternType::Global(g) => ExternTypeView::Global(g),
            ExternType::Table(t) => ExternTypeView::Table(t),
            ExternType::Memory(m) => ExternTypeView::Memory(m),
        }
    }
}

impl ExternType {
    /// A copy of this external type.
    pub fn duplicate(&self) -> (copy: Self)
        ensures
            copy@ == self@,
    {
        match self {
            ExternType::Function(f) => ExternType::Function(f.duplicate()),
            ExternType::Global(g) => ExternType::Global(*g),
            ExternType::Table(t) => ExternType::Table(*t),
            ExternType::Memory(m) => ExternType::Memory(*m),
        }
    }
}

impl Clone for ExternType {
    fn clone(&self) -> (copy: Self)
        ensures
            copy@ == self@,
    {
        self.duplicate()
    }
}

/// A named import of a module, with its type.
#[derive(Debug, PartialEq, Eq)]
pub struct Import<T> {
    module: String,
    name: String,
    index: u32,
    ty: T,
}

impl<T> Import<T> {
    /// The module the import names.
    pub closed spec fn spec_module(&self) -> Seq<char> {
        self.module@
    }

    /// The field the import names.
    pub closed spec fn spec_name(&self) -> Seq<char> {
        self.name@
    }

    /// The position of the import among the imports of the module.
    pub closed spec fn spec_index(&self) -> u32 {
        self.index
    }

    /// The type of the import.
    pub closed spec fn spec_ty(&self) -> T {
        self.ty
    }

    /// Creates a new import descriptor which comes from `module` and `name`
    /// and is of type `ty`.
    pub fn new(module: &str, name: &str, index: u32, ty: T) -> (import: Self)
        ensures
            import.spec_module() == module@,
            import.spec_name() == name@,
            import.spec_index() == index,
            import.spec_ty() == ty,
    {
        Import { module: module.to_string(), name: name.to_string(), index, ty }
    }

    /// Returns the module name that this import is expected to come from.
    pub fn module(&self) -> (module: &str)
        ensures
            module@ == self.spec_module(),
    {
        self.module.as_str()
    }

    /// Returns the field name of the module that this import is expected to
    /// come from.
    pub fn name(&self) -> (name: &str)
        ensures
            name@ == self.spec_name(),
    {
        self.name.as_str()
    }

    /// The index of the import in the module.
    pub fn index(&self) -> (index: u32)
        ensures
            index == self.spec_index(),
    {
        self.index
    }

    /// Returns the expected type of this import.
    pub fn ty(&self) -> (ty: &T)
        ensures
            *ty == self.spec_ty(),
    {
        &self.ty
    }
}

/// A named export of a module, with its type.
#[derive(Debug, PartialEq, Eq)]
pub struct ExportType<T> {
    name: String,
    ty: T,
}

impl<T> ExportType<T> {
    /// The name of the export.
    pub closed spec fn spec_name(&self) -> Seq<char> {
        self.name@
    }

    /// The type of the export.
    pub closed spec fn spec_ty(&self) -> T {
        self.ty
    }

    /// Creates a new export which is exported with the given `name` and has
    /// the given `ty`.
    pub fn new(name: &str, ty: T) -> (export: Self)
        ensures
            export.spec_name() == name@,
            export.spec_ty() == ty,
    {
        ExportType { name: name.to_string(), ty }
    }

    /// Returns the name by which this export is known.
    pub fn name(&self) -> (name: &str)
        ensures
            name@ == self.spec_name(),
    {
        self.name.as_str()
    }

    /// Returns the type of this export.
    pub fn ty(&self) -> (ty: &T)
        ensures
            *ty == self.spec_ty(),
    {
        &self.ty
    }
}

} // verus!
