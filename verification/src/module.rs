//! Data structure for representing a translated WebAssembly module.

use crate::indices::{
    CustomSectionIndex, ElemIndex, ExportIndex, FunctionIndex, GlobalIndex, ImportIndex,
    LocalFunctionIndex, LocalGlobalIndex, LocalMemoryIndex, LocalTableIndex, MemoryIndex,
    SignatureIndex, TableIndex,
};
use crate::types::{
    ExportType, ExternType, ExternTypeView, FunctionType, FunctionTypeView, GlobalType, Import,
    MemoryType, TableType,
};
use indexmap::IndexMap;
use std::collections::{BTreeMap, HashMap};
use vstd::prelude::*;

verus! {

broadcast use {vstd::std_specs::btree::group_btree_axioms, vstd::std_specs::hash::group_hash_axioms};

/// A map of an outside crate that keeps its entries in the order of insertion.
#[verifier::external_type_specification]
#[verifier::external_body]
#[verifier::reject_recursive_types(K)]
#[verifier::reject_recursive_types(V)]
#[verifier::reject_recursive_types(S)]
pub struct ExIndexMap<K, V, S>(IndexMap<K, V, S>);

/// The entries of a map of imports, in the order of insertion: the module
/// name, the field name and the position of the import, and what it imports.
pub uninterp spec fn import_entries(map: IndexMap<(String, String, u32), ImportIndex>) -> Seq<
    ((Seq<char>, Seq<char>, u32), ImportIndex),
>;

/// The entries of a map of exports, in the order of insertion: the name of
/// the export and what it exports.
pub uninterp spec fn export_entries(map: IndexMap<String, ExportIndex>) -> Seq<
    (Seq<char>, ExportIndex),
>;

/// The entries of a map of custom sections, in the order of insertion: the
/// name of the section and where its data is.
pub uninterp spec fn custom_section_entries(map: IndexMap<String, CustomSectionIndex>) -> Seq<
    (Seq<char>, CustomSectionIndex),
>;

/// `IndexMap::new`: a map without entries.
#[verifier::external_body]
fn no_import_entries() -> (map: IndexMap<(String, String, u32), ImportIndex>)
    ensures
        import_entries(map) == Seq::<((Seq<char>, Seq<char>, u32), ImportIndex)>::empty(),
{
    IndexMap::new()
}

/// `IndexMap::new`: a map without entries.
#[verifier::external_body]
fn no_export_entries() -> (map: IndexMap<String, ExportIndex>)
    ensures
        export_entries(map) == Seq::<(Seq<char>, ExportIndex)>::empty(),
{
    IndexMap::new()
}

/// `IndexMap::new`: a map without entries.
#[verifier::external_body]
fn no_custom_section_entries() -> (map: IndexMap<String, CustomSectionIndex>)
    ensures
        custom_section_entries(map) == Seq::<(Seq<char>, CustomSectionIndex)>::empty(),
{
    IndexMap::new()
}

/// `IndexMap::len`: the number of entries.
#[verifier::external_body]
pub(crate) fn import_count(map: &IndexMap<(String, String, u32), ImportIndex>) -> (count: usize)
    ensures
        count == import_entries(*map).len(),
{
    map.len()
}

/// `IndexMap::len`: the number of entries.
#[verifier::external_body]
pub(crate) fn export_count(map: &IndexMap<String, ExportIndex>) -> (count: usize)
    ensures
        count == export_entries(*map).len(),
{
    map.len()
}

/// `IndexMap::len`: the number of entries.
#[verifier::external_body]
pub(crate) fn custom_section_count(map: &IndexMap<String, CustomSectionIndex>) -> (count: usize)
    ensures
        count == custom_section_entries(*map).len(),
{
    map.len()
}

/// `IndexMap::get_index`: the entry at a position in the order of insertion,
/// where the position is below the number of entries. Its key stands at no
/// other position: such a map holds no key twice.
#[verifier::external_body]
pub(crate) fn import_at(map: &IndexMap<(String, String, u32), ImportIndex>, position: usize) -> (entry: Option<
    (&(String, String, u32), &ImportIndex),
>)
    ensures
        entry is Some <==> position < import_entries(*map).len(),
        entry matches Some((key, value)) ==> (key.0@, key.1@, key.2) == import_entries(
            *map,
        )[position as int].0 && *value == import_entries(*map)[position as int].1,
        entry matches Some((key, value)) ==> forall|j: int|
            0 <= j < import_entries(*map).len() && j != position ==> (#[trigger] import_entries(
                *map,
            )[j]).0 != (key.0@, key.1@, key.2),
{
    map.get_index(position)
}

/// `IndexMap::get_index`: the entry at a position in the order of insertion,
/// where the position is below the number of entries. Its key stands at no
/// other position: such a map holds no key twice.
#[verifier::external_body]
pub(crate) fn export_at(map: &IndexMap<String, ExportIndex>, position: usize) -> (entry: Option<
    (&String, &ExportIndex),
>)
    ensures
        entry is Some <==> position < export_entries(*map).len(),
        entry matches Some((key, value)) ==> key@ == export_entries(*map)[position as int].0
            && *value == export_entries(*map)[position as int].1,
        entry matches Some((key, value)) ==> forall|j: int|
            0 <= j < export_entries(*map).len() && j != position ==> (#[trigger] export_entries(
                *map,
            )[j]).0 != key@,
{
    map.get_index(position)
}

/// `IndexMap::get_index`: the entry at a position in the order of insertion,
/// where the position is below the number of entries. Its key stands at no
/// other position: such a map holds no key twice.
#[verifier::external_body]
pub(crate) fn custom_section_at(map: &IndexMap<String, CustomSectionIndex>, position: usize) -> (entry: Option<
    (&String, &CustomSectionIndex),
>)
    ensures
        entry is Some <==> position < custom_section_entries(*map).len(),
        entry matches Some((key, value)) ==> key@ == custom_section_entries(
            *map,
        )[position as int].0 && *value == custom_section_entries(*map)[position as int].1,
        entry matches Some((key, value)) ==> forall|j: int|
            0 <= j < custom_section_entries(*map).len() && j != position ==> (
            #[trigger] custom_section_entries(*map)[j]).0 != key@,
{
    map.get_index(position)
}

/// The entries of a map once `key` has been inserted with `value`: if the key
/// stands in the map, it keeps its place and gets the value; if not, the
/// entry is added last.
pub open spec fn inserted<K, V>(entries: Seq<(K, V)>, key: K, value: V) -> Seq<(K, V)> {
    if exists|i: int| 0 <= i < entries.len() && entries[i].0 == key {
        entries.update(choose|i: int| 0 <= i < entries.len() && entries[i].0 == key, (key, value))
    } else {
        entries.push((key, value))
    }
}

/// No key stands twice among `entries`.
pub open spec fn distinct_keys<K, V>(entries: Seq<(K, V)>) -> bool {
    forall|i: int, j: int| 0 <= i < j < entries.len() ==> entries[i].0 != entries[j].0
}

/// The entries of a map into which the first `n` of `entries` have been inserted in order.
pub open spec fn inserted_all<K, V>(entries: Seq<(K, V)>, n: nat) -> Seq<(K, V)>
    decreases n,
{
    if n == 0 {
        Seq::empty()
    } else {
        inserted(inserted_all(entries, (n - 1) as nat), entries[n - 1].0, entries[n - 1].1)
    }
}

/// Inserting entries with distinct keys in order gives a map with these
/// entries in this order.
pub proof fn lemma_inserted_all<K, V>(entries: Seq<(K, V)>, n: nat)
    requires
        distinct_keys(entries),
        n <= entries.len(),
    ensures
        inserted_all(entries, n) == entries.take(n as int),
    decreases n,
{
    if n > 0 {
        lemma_inserted_all(entries, (n - 1) as nat);
    }
}

/// `IndexMap::insert`: a key that stands in the map keeps its place and gets
/// the value, another key is added last with the value.
#[verifier::external_body]
fn insert_import(
    map: &mut IndexMap<(String, String, u32), ImportIndex>,
    key: (String, String, u32),
    value: ImportIndex,
)
    ensures
        import_entries(*final(map)) == inserted(
            import_entries(*old(map)),
            (key.0@, key.1@, key.2),
            value,
        ),
{
    map.insert(key, value);
}

/// `IndexMap::insert`: a key that stands in the map keeps its place and gets
/// the value, another key is added last with the value.
#[verifier::external_body]
fn insert_export(map: &mut IndexMap<String, ExportIndex>, key: String, value: ExportIndex)
    ensures
        export_entries(*final(map)) == inserted(export_entries(*old(map)), key@, value),
{
    map.insert(key, value);
}

/// `IndexMap::insert`: a key that stands in the map keeps its place and gets
/// the value, another key is added last with the value.
#[verifier::external_body]
fn insert_custom_section(
    map: &mut IndexMap<String, CustomSectionIndex>,
    key: String,
    value: CustomSectionIndex,
)
    ensures
        custom_section_entries(*final(map)) == inserted(
            custom_section_entries(*old(map)),
            key@,
            value,
        ),
{
    map.insert(key, value);
}

/// `BTreeMap::from_iter` on the entries of a hash map: the same names under
/// the same keys, kept in the order of the keys.
#[verifier::external_body]
fn ordered_names(names: HashMap<u32, String>) -> (ordered: BTreeMap<u32, String>)
    ensures
        ordered@ == names@,
{
    BTreeMap::from_iter(names)
}

/// `HashMap::from_iter` on the entries of an ordered map: the same names
/// under the same keys.
#[verifier::external_body]
fn hashed_names(names: BTreeMap<u32, String>) -> (hashed: HashMap<u32, String>)
    ensures
        hashed@ == names@,
{
    HashMap::from_iter(names)
}

/// The counts of imported entities in a WebAssembly module.
#[derive(Debug, Copy, Clone, PartialEq, Eq, Structural)]
pub struct EntityCounts {
    /// Number of imported functions in the module.
    pub functions: usize,
    /// Number of imported tables in the module.
    pub tables: usize,
    /// Number of imported memories in the module.
    pub memories: usize,
    /// Number of imported globals in the module.
    pub globals: usize,
}

impl Default for EntityCounts {
    fn default() -> (counts: Self)
        ensures
            counts == (EntityCounts { functions: 0, tables: 0, memories: 0, globals: 0 }),
    {
        EntityCounts { functions: 0, tables: 0, memories: 0, globals: 0 }
    }
}

/// The value a global starts with.
#[derive(Clone, Copy, Debug, PartialEq, Eq, Structural)]
pub enum GlobalInit {
    /// An `i32.const`.
    I32Const(i32),
    /// An `i64.const`.
    I64Const(i64),
    /// An `f32.const`, as its bits.
    F32Const(u32),
    /// An `f64.const`, as its bits.
    F64Const(u64),
    /// A `v128.const`.
    V128Const(u128),
    /// A `global.get` of another global.
    GetGlobal(GlobalIndex),
    /// A `ref.null`.
    RefNullConst,
    /// A `ref.func <index>`.
    RefFunc(FunctionIndex),
}

/// A table initializer: the functions written into a table at instantiation.
#[derive(Debug, PartialEq, Eq)]
pub struct OwnedTableInitializer {
    /// The index of a table to initialize.
    pub table_index: TableIndex,
    /// Optionally, a global variable giving a base index.
    pub base: Option<GlobalIndex>,
    /// The offset to add to the base.
    pub offset: usize,
    /// The values to write into the table elements.
    pub elements: Vec<FunctionIndex>,
}

/// A translated WebAssembly module, excluding the function bodies and
/// memory initializers.
pub struct ModuleInfo {
    /// A unique identifier (within this process) for this module.
    pub id: ModuleId,
    /// The name of this wasm module, often found in the wasm file.
    pub name: Option<String>,
    /// Imported entities with the (module, field, index_of_the_import)
    ///
    /// Keeping the `index_of_the_import` is important, as there can be
    /// two same references to the same import, and we don't want to confuse
    /// them.
    pub imports: IndexMap<(String, String, u32), ImportIndex>,
    /// Exported entities.
    pub exports: IndexMap<String, ExportIndex>,
    /// The module "start" function, if present.
    pub start_function: Option<FunctionIndex>,
    /// WebAssembly table initializers.
    pub table_initializers: Vec<OwnedTableInitializer>,
    /// WebAssembly passive elements, by the position of the element segment.
    pub passive_elements: BTreeMap<u32, Vec<FunctionIndex>>,
    /// WebAssembly passive data segments, by the position of the data segment.
    pub passive_data: BTreeMap<u32, Vec<u8>>,
    /// WebAssembly global initializers, one for each local global.
    pub global_initializers: Vec<GlobalInit>,
    /// WebAssembly function names, by the position of the function.
    pub function_names: HashMap<u32, String>,
    /// WebAssembly function signatures, by `SignatureIndex`.
    pub signatures: Vec<FunctionType>,
    /// WebAssembly functions (imported and local), by `FunctionIndex`.
    pub functions: Vec<SignatureIndex>,
    /// WebAssembly tables (imported and local), by `TableIndex`.
    pub tables: Vec<TableType>,
    /// WebAssembly linear memories (imported and local), by `MemoryIndex`.
    pub memories: Vec<MemoryType>,
    /// WebAssembly global variables (imported and local), by `GlobalIndex`.
    pub globals: Vec<GlobalType>,
    /// Custom sections in the module.
    pub custom_sections: IndexMap<String, CustomSectionIndex>,
    /// The data for each custom section in the module, by `CustomSectionIndex`.
    pub custom_sections_data: Vec<Vec<u8>>,
    /// The counts of imported entities.
    pub import_counts: EntityCounts,
}

/// An identifier of a module, unique within the process that hands it out.
#[derive(Debug, Clone, Copy, PartialEq, Eq, Structural)]
pub struct ModuleId {
    id: usize,
}

impl ModuleId {
    /// The number that identifies the module.
    pub closed spec fn number(self) -> nat {
        self.id as nat
    }

    /// The identifier with the given number.
    pub fn new(id: usize) -> (module_id: Self)
        ensures
            module_id.number() == id,
    {
        ModuleId { id }
    }

    /// Format this identifier as a string: its number in decimal.
    pub fn id(&self) -> (text: String)
        ensures
            text@ == crate::text::decimal(self.number()),
    {
        crate::text::usize_to_string(self.id)
    }
}

/// What a named export is: its name and its type.
pub open spec fn export_view(export: ExportType<ExternType>) -> (Seq<char>, ExternTypeView) {
    (export.spec_name(), export.spec_ty()@)
}

/// The first `n` of `exports` that are functions, each with its name and function type.
pub open spec fn function_exports(exports: Seq<ExportType<ExternType>>, n: nat) -> Seq<
    (Seq<char>, FunctionTypeView),
>
    decreases n,
{
    if n == 0 {
        Seq::empty()
    } else {
        let before = function_exports(exports, (n - 1) as nat);
        match exports[n - 1].spec_ty()@ {
            ExternTypeView::Function(ty) => before.push((exports[n - 1].spec_name(), ty)),
            _ => before,
        }
    }
}

/// The first `n` of `exports` that are memories, each with its name and memory type.
pub open spec fn memory_exports(exports: Seq<ExportType<ExternType>>, n: nat) -> Seq<
    (Seq<char>, MemoryType),
>
    decreases n,
{
    if n == 0 {
        Seq::empty()
    } else {
        let before = memory_exports(exports, (n - 1) as nat);
        match exports[n - 1].spec_ty()@ {
            ExternTypeView::Memory(ty) => before.push((exports[n - 1].spec_name(), ty)),
            _ => before,
        }
    }
}

/// The first `n` of `exports` that are tables, each with its name and table type.
pub open spec fn table_exports(exports: Seq<ExportType<ExternType>>, n: nat) -> Seq<
    (Seq<char>, TableType),
>
    decreases n,
{
    if n == 0 {
        Seq::empty()
    } else {
        let before = table_exports(exports, (n - 1) as nat);
        match exports[n - 1].spec_ty()@ {
            ExternTypeView::Table(ty) => before.push((exports[n - 1].spec_name(), ty)),
            _ => before,
        }
    }
}

/// The first `n` of `exports` that are globals, each with its name and global type.
pub open spec fn global_exports(exports: Seq<ExportType<ExternType>>, n: nat) -> Seq<
    (Seq<char>, GlobalType),
>
    decreases n,
{
    if n == 0 {
        Seq::empty()
    } else {
        let before = global_exports(exports, (n - 1) as nat);
        match exports[n - 1].spec_ty()@ {
            ExternTypeView::Global(ty) => before.push((exports[n - 1].spec_name(), ty)),
            _ => before,
        }
    }
}

/// The exports of a module, in order, with ways to pick those of one kind.
pub struct ExportsIterator {
    iter: Vec<ExportType<ExternType>>,
    size: usize,
}

impl ExportsIterator {
    /// The exports, in order.
    pub closed spec fn exports(&self) -> Seq<ExportType<ExternType>> {
        self.iter@
    }

    /// The number of exports this was made for.
    pub closed spec fn spec_len(&self) -> usize {
        self.size
    }

    /// Create a new `ExportsIterator` for the given exports and size
    pub fn new(iter: Vec<ExportType<ExternType>>, size: usize) -> (exports: Self)
        ensures
            exports.exports() == iter@,
            exports.spec_len() == size,
    {
        Self { iter, size }
    }

    /// The number of exports this was made for.
    pub fn len(&self) -> (size: usize)
        ensures
            size == self.spec_len(),
    {
        self.size
    }

    /// All the exports, in order.
    pub fn all(self) -> (exports: Vec<ExportType<ExternType>>)
        ensures
            exports@ == self.exports(),
    {
        self.iter
    }

    /// Get only the functions
    pub fn functions(self) -> (functions: Vec<ExportType<FunctionType>>)
        ensures
            functions@.len() == function_exports(self.exports(), self.exports().len()).len(),
            forall|i: int|
                0 <= i < functions@.len() ==> (functions@[i].spec_name(), functions@[i].spec_ty()@)
                    == #[trigger] function_exports(self.exports(), self.exports().len())[i],
    {
        let mut functions: Vec<ExportType<FunctionType>> = Vec::new();
        let mut i: usize = 0;
        while i < self.iter.len()
            invariant
                i <= self.iter@.len(),
                functions@.len() == function_exports(self.iter@, i as nat).len(),
                forall|k: int|
                    0 <= k < functions@.len() ==> (functions@[k].spec_name(), functions@[k].spec_ty()@)
                        == #[trigger] function_exports(self.iter@, i as nat)[k],
            decreases self.iter@.len() - i,
        {
            let export = &self.iter[i];
            match export.ty() {
                ExternType::Function(ty) => {
                    functions.push(ExportType::new(export.name(), ty.duplicate()));
                },
                _ => {},
            }
            i += 1;
        }
        functions
    }

    /// Get only the memories
    pub fn memories(self) -> (memories: Vec<ExportType<MemoryType>>)
        ensures
            memories@.len() == memory_exports(self.exports(), self.exports().len()).len(),
            forall|i: int|
                0 <= i < memories@.len() ==> (memories@[i].spec_name(), memories@[i].spec_ty())
                    == #[trigger] memory_exports(self.exports(), self.exports().len())[i],
    {
        let mut memories: Vec<ExportType<MemoryType>> = Vec::new();
        let mut i: usize = 0;
        while i < self.iter.len()
            invariant
                i <= self.iter@.len(),
                memories@.len() == memory_exports(self.iter@, i as nat).len(),
                forall|k: int|
                    0 <= k < memories@.len() ==> (memories@[k].spec_name(), memories@[k].spec_ty())
                        == #[trigger] memory_exports(self.iter@, i as nat)[k],
            decreases self.iter@.len() - i,
        {
            let export = &self.iter[i];
            match export.ty() {
                ExternType::Memory(ty) => {
                    memories.push(ExportType::new(export.name(), *ty));
                },
                _ => {},
            }
            i += 1;
        }
        memories
    }

    /// Get only the tables
    pub fn tables(self) -> (tables: Vec<ExportType<TableType>>)
        ensures
            tables@.len() == table_exports(self.exports(), self.exports().len()).len(),
            forall|i: int|
                0 <= i < tables@.len() ==> (tables@[i].spec_name(), tables@[i].spec_ty())
                    == #[trigger] table_exports(self.exports(), self.exports().len())[i],
    {
        let mut tables: Vec<ExportType<TableType>> = Vec::new();
        let mut i: usize = 0;
        while i < self.iter.len()
            invariant
                i <= self.iter@.len(),
                tables@.len() == table_exports(self.iter@, i as nat).len(),
                forall|k: int|
                    0 <= k < tables@.len() ==> (tables@[k].spec_name(), tables@[k].spec_ty())
                        == #[trigger] table_exports(self.iter@, i as nat)[k],
            decreases self.iter@.len() - i,
        {
            let export = &self.iter[i];
            match export.ty() {
                ExternType::Table(ty) => {
                    tables.push(ExportType::new(export.name(), *ty));
                },
                _ => {},
            }
            i += 1;
        }
        tables
    }

    /// Get only the globals
    pub fn globals(self) -> (globals: Vec<ExportType<GlobalType>>)
        ensures
            globals@.len() == global_exports(self.exports(), self.exports().len()).len(),
            forall|i: int|
                0 <= i < globals@.len() ==> (globals@[i].spec_name(), globals@[i].spec_ty())
                    == #[trigger] global_exports(self.exports(), self.exports().len())[i],
    {
        let mut globals: Vec<ExportType<GlobalType>> = Vec::new();
        let mut i: usize = 0;
        while i < self.iter.len()
            invariant
                i <= self.iter@.len(),
                globals@.len() == global_exports(self.iter@, i as nat).len(),
                forall|k: int|
                    0 <= k < globals@.len() ==> (globals@[k].spec_name(), globals@[k].spec_ty())
                        == #[trigger] global_exports(self.iter@, i as nat)[k],
            decreases self.iter@.len() - i,
        {
            let export = &self.iter[i];
            match export.ty() {
                ExternType::Global(ty) => {
                    globals.push(ExportType::new(export.name(), *ty));
                },
                _ => {},
            }
            i += 1;
        }
        globals
    }
}

/// The imports of a module, in order, each with what it imports.
pub struct ImportsIterator {
    iter: Vec<(ImportIndex, Import<ExternType>)>,
}

impl ImportsIterator {
    /// The imports, in order.
    pub closed spec fn imports(&self) -> Seq<(ImportIndex, Import<ExternType>)> {
        self.iter@
    }

    /// Create a new `ImportsIterator` for the given imports.
    pub fn new(iter: Vec<(ImportIndex, Import<ExternType>)>) -> (imports: Self)
        ensures
            imports.imports() == iter@,
    {
        Self { iter }
    }

    /// The number of imports.
    pub fn len(&self) -> (size: usize)
        ensures
            size == self.imports().len(),
    {
        self.iter.len()
    }

    /// All the imports, in order.
    pub fn all(self) -> (imports: Vec<(ImportIndex, Import<ExternType>)>)
        ensures
            imports@ == self.imports(),
    {
        self.iter
    }

    /// Get only the functions. A module's function imports are not described
    /// by this view: none is handed out.
    pub fn functions(self) -> (functions: Vec<Import<FunctionType>>)
        ensures
            functions@.len() == 0,
    {
        Vec::new()
    }

    /// Get only the memories. A module's memory imports are not described by
    /// this view: none is handed out.
    pub fn memories(self) -> (memories: Vec<Import<MemoryType>>)
        ensures
            memories@.len() == 0,
    {
        Vec::new()
    }

    /// Get only the tables. A module's table imports are not described by
    /// this view: none is handed out.
    pub fn tables(self) -> (tables: Vec<Import<TableType>>)
        ensures
            tables@.len() == 0,
    {
        Vec::new()
    }

    /// Get only the globals. A module's global imports are not described by
    /// this view: none is handed out.
    pub fn globals(self) -> (globals: Vec<Import<GlobalType>>)
        ensures
            globals@.len() == 0,
    {
        Vec::new()
    }
}

/// The full index of the local entity at position `local`, in an index space
/// that starts with `imported` imports.
pub open spec fn full_index(imported: usize, local: usize) -> int {
    imported + local
}

/// The local position of the entity at `full`, if it is not an import.
pub open spec fn local_index(imported: usize, full: usize) -> Option<int> {
    if full >= imported {
        Some(full - imported)
    } else {
        None
    }
}

/// Going from a local index to the full index and back is the identity, and
/// so is going from the full index of an entity that is not imported to its
/// local index and back. An index is that of an import exactly when it has
/// no local index.
pub proof fn lemma_index_round_trip(imported: usize, local: usize, full: usize)
    ensures
        full_index(imported, local) <= usize::MAX ==> local_index(
            imported,
            full_index(imported, local) as usize,
        ) == Some(local as int),
        local_index(imported, full) matches Some(l) ==> 0 <= l <= usize::MAX && full_index(
            imported,
            l as usize,
        ) == full,
        full < imported <==> local_index(imported, full) is None,
{
}

impl ModuleInfo {
    /// Imports come first in each index space, every function has a
    /// signature of the module, and every export and custom section names
    /// something the module holds.
    pub open spec fn wf(&self) -> bool {
        &&& self.import_counts.functions <= self.functions@.len() <= u32::MAX
        &&& self.import_counts.tables <= self.tables@.len() <= u32::MAX
        &&& self.import_counts.memories <= self.memories@.len() <= u32::MAX
        &&& self.import_counts.globals <= self.globals@.len() <= u32::MAX
        &&& forall|i: int|
            0 <= i < self.functions@.len() ==> (#[trigger] self.functions@[i]).index()
                < self.signatures@.len()
        &&& forall|i: int|
            0 <= i < export_entries(self.exports).len() ==> self.holds(
                (#[trigger] export_entries(self.exports)[i]).1,
            )
        &&& forall|i: int|
            0 <= i < custom_section_entries(self.custom_sections).len() ==> (
            #[trigger] custom_section_entries(self.custom_sections)[i]).1.index()
                < self.custom_sections_data@.len()
    }

    /// Whether the module holds the entity that `export` names.
    pub open spec fn holds(&self, export: ExportIndex) -> bool {
        match export {
            ExportIndex::Function(i) => i.index() < self.functions@.len(),
            ExportIndex::Table(i) => i.index() < self.tables@.len(),
            ExportIndex::Memory(i) => i.index() < self.memories@.len(),
            ExportIndex::Global(i) => i.index() < self.globals@.len(),
        }
    }

    /// The type of the function at `index`.
    pub open spec fn function_type(&self, index: FunctionIndex) -> FunctionTypeView {
        self.signatures@[self.functions@[index.index() as int].index() as int]@
    }

    /// The type of the entity that `export` names.
    pub open spec fn extern_type(&self, export: ExportIndex) -> ExternTypeView {
        match export {
            ExportIndex::Function(i) => ExternTypeView::Function(self.function_type(i)),
            ExportIndex::Table(i) => ExternTypeView::Table(self.tables@[i.index() as int]),
            ExportIndex::Memory(i) => ExternTypeView::Memory(self.memories@[i.index() as int]),
            ExportIndex::Global(i) => ExternTypeView::Global(self.globals@[i.index() as int]),
        }
    }

    /// The types of the functions among the first `n` exports, in order.
    pub open spec fn exported_signature_views(&self, n: nat) -> Seq<FunctionTypeView>
        decreases n,
    {
        if n == 0 {
            Seq::empty()
        } else {
            let before = self.exported_signature_views((n - 1) as nat);
            match export_entries(self.exports)[n - 1].1 {
                ExportIndex::Function(i) => before.push(self.function_type(i)),
                _ => before,
            }
        }
    }

    /// The data of those of the first `n` custom sections that are called `name`, in order.
    pub open spec fn custom_sections_named(&self, name: Seq<char>, n: nat) -> Seq<Seq<u8>>
        decreases n,
    {
        if n == 0 {
            Seq::empty()
        } else {
            let before = self.custom_sections_named(name, (n - 1) as nat);
            let entry = custom_section_entries(self.custom_sections)[n - 1];
            if entry.0 == name {
                before.push(self.custom_sections_data@[entry.1.index() as int]@)
            } else {
                before
            }
        }
    }

    /// Whether the module is well formed.
    pub fn check(&self) -> (well_formed: bool)
        ensures
            well_formed == self.wf(),
    {
        if !(self.import_counts.functions <= self.functions.len() && self.functions.len()
            <= u32::MAX as usize && self.import_counts.tables <= self.tables.len()
            && self.tables.len() <= u32::MAX as usize && self.import_counts.memories
            <= self.memories.len() && self.memories.len() <= u32::MAX as usize
            && self.import_counts.globals <= self.globals.len() && self.globals.len()
            <= u32::MAX as usize) {
            return false;
        }
        let mut i: usize = 0;
        while i < self.functions.len()
            invariant
                i <= self.functions@.len(),
                forall|k: int|
                    0 <= k < i ==> (#[trigger] self.functions@[k]).index() < self.signatures@.len(),
            decreases self.functions@.len() - i,
        {
            if self.functions[i].index() >= self.signatures.len() {
                return false;
            }
            i += 1;
        }
        let exports = export_count(&self.exports);
        let mut e: usize = 0;
        while e < exports
            invariant
                exports == export_entries(self.exports).len(),
                e <= exports,
                forall|k: int|
                    0 <= k < e ==> self.holds((#[trigger] export_entries(self.exports)[k]).1),
            decreases exports - e,
        {
            if let Some((_name, export)) = export_at(&self.exports, e) {
                let held = match export {
                    ExportIndex::Function(i) => i.index() < self.functions.len(),
                    ExportIndex::Table(i) => i.index() < self.tables.len(),
                    ExportIndex::Memory(i) => i.index() < self.memories.len(),
                    ExportIndex::Global(i) => i.index() < self.globals.len(),
                };
                if !held {
                    return false;
                }
            }
            e += 1;
        }
        let sections = custom_section_count(&self.custom_sections);
        let mut c: usize = 0;
        while c < sections
            invariant
                sections == custom_section_entries(self.custom_sections).len(),
                c <= sections,
                forall|k: int|
                    0 <= k < c ==> (#[trigger] custom_section_entries(self.custom_sections)[k]).1.index()
                        < self.custom_sections_data@.len(),
            decreases sections - c,
        {
            if let Some((_name, index)) = custom_section_at(&self.custom_sections, c) {
                if index.index() >= self.custom_sections_data.len() {
                    return false;
                }
            }
            c += 1;
        }
        true
    }

    /// Allocates the module data structures: a module that holds nothing.
    pub fn new(id: ModuleId) -> (module: Self)
        ensures
            module.wf(),
            module.id == id,
            module.name is None,
            import_entries(module.imports).len() == 0,
            export_entries(module.exports).len() == 0,
            custom_section_entries(module.custom_sections).len() == 0,
            module.start_function is None,
            module.table_initializers@.len() == 0,
            module.passive_elements@ == Map::<u32, Vec<FunctionIndex>>::empty(),
            module.passive_data@ == Map::<u32, Vec<u8>>::empty(),
            module.global_initializers@.len() == 0,
            module.function_names@ == Map::<u32, String>::empty(),
            module.signatures@.len() == 0,
            module.functions@.len() == 0,
            module.tables@.len() == 0,
            module.memories@.len() == 0,
            module.globals@.len() == 0,
            module.custom_sections_data@.len() == 0,
            module.import_counts == (EntityCounts { functions: 0, tables: 0, memories: 0, globals: 0 }),
    {
        ModuleInfo {
            id,
            name: None,
            imports: no_import_entries(),
            exports: no_export_entries(),
            start_function: None,
            table_initializers: Vec::new(),
            passive_elements: BTreeMap::new(),
            passive_data: BTreeMap::new(),
            global_initializers: Vec::new(),
            function_names: HashMap::new(),
            signatures: Vec::new(),
            functions: Vec::new(),
            tables: Vec::new(),
            memories: Vec::new(),
            globals: Vec::new(),
            custom_sections: no_custom_section_entries(),
            custom_sections_data: Vec::new(),
            import_counts: EntityCounts::default(),
        }
    }

    /// Get the given passive element, if it exists.
    pub fn get_passive_element(&self, index: ElemIndex) -> (elements: Option<&[FunctionIndex]>)
        ensures
            elements is Some <==> self.passive_elements@.contains_key(index.0),
            elements matches Some(es) ==> es@ == self.passive_elements@[index.0]@,
    {
        let key = index.as_u32();
        match self.passive_elements.get(&key) {
            Some(es) => Some(es.as_slice()),
            None => None,
        }
    }

    /// Get the exported signatures of the module
    pub fn exported_signatures(&self) -> (signatures: Vec<FunctionType>)
        requires
            self.wf(),
        ensures
            crate::types::function_type_views(signatures@) == self.exported_signature_views(
                export_entries(self.exports).len(),
            ),
    {
        let mut signatures: Vec<FunctionType> = Vec::new();
        let count = export_count(&self.exports);
        let mut n: usize = 0;
        while n < count
            invariant
                self.wf(),
                count == export_entries(self.exports).len(),
                n <= count,
                crate::types::function_type_views(signatures@) == self.exported_signature_views(
                    n as nat,
                ),
            decreases count - n,
        {
            if let Some((_name, export_index)) = export_at(&self.exports, n) {
                match export_index {
                    ExportIndex::Function(i) => {
                        let signature = self.functions[i.index()];
                        let func_type = &self.signatures[signature.index()];
                        signatures.push(func_type.duplicate());
                    },
                    _ => {},
                }
            }
            n += 1;
        }
        signatures
    }

    /// Get the export types of the module
    pub fn exports(&self) -> (exports: ExportsIterator)
        requires
            self.wf(),
        ensures
            exports.spec_len() == export_entries(self.exports).len(),
            exports.exports().len() == export_entries(self.exports).len(),
            forall|i: int|
                0 <= i < exports.exports().len() ==> export_view(#[trigger] exports.exports()[i]) == (
                    export_entries(self.exports)[i].0,
                    self.extern_type(export_entries(self.exports)[i].1),
                ),
    {
        let mut iter: Vec<ExportType<ExternType>> = Vec::new();
        let count = export_count(&self.exports);
        let mut n: usize = 0;
        while n < count
            invariant
                self.wf(),
                count == export_entries(self.exports).len(),
                n <= count,
                iter@.len() == n,
                forall|i: int|
                    0 <= i < n ==> export_view(#[trigger] iter@[i]) == (
                        export_entries(self.exports)[i].0,
                        self.extern_type(export_entries(self.exports)[i].1),
                    ),
            decreases count - n,
        {
            if let Some((name, export_index)) = export_at(&self.exports, n) {
                let extern_type = match export_index {
                    ExportIndex::Function(i) => {
                        let signature = self.functions[i.index()];
                        let func_type = &self.signatures[signature.index()];
                        ExternType::Function(func_type.duplicate())
                    },
                    ExportIndex::Table(i) => ExternType::Table(self.tables[i.index()]),
                    ExportIndex::Memory(i) => ExternType::Memory(self.memories[i.index()]),
                    ExportIndex::Global(i) => ExternType::Global(self.globals[i.index()]),
                };
                iter.push(ExportType::new(name.as_str(), extern_type));
            }
            n += 1;
        }
        ExportsIterator::new(iter, count)
    }

    /// Get the custom sections of the module given a `name`.
    pub fn custom_sections(&self, name: &str) -> (sections: Vec<&[u8]>)
        requires
            self.wf(),
        ensures
            sections@.len() == self.custom_sections_named(
                name@,
                custom_section_entries(self.custom_sections).len(),
            ).len(),
            forall|i: int|
                0 <= i < sections@.len() ==> (#[trigger] sections@[i])@
                    == self.custom_sections_named(
                    name@,
                    custom_section_entries(self.custom_sections).len(),
                )[i],
    {
        let mut sections: Vec<&[u8]> = Vec::new();
        let wanted = name.to_string();
        let count = custom_section_count(&self.custom_sections);
        let mut n: usize = 0;
        while n < count
            invariant
                self.wf(),
                count == custom_section_entries(self.custom_sections).len(),
                n <= count,
                wanted@ == name@,
                sections@.len() == self.custom_sections_named(name@, n as nat).len(),
                forall|i: int|
                    0 <= i < sections@.len() ==> (#[trigger] sections@[i])@
                        == self.custom_sections_named(name@, n as nat)[i],
            decreases count - n,
        {
            if let Some((section_name, section_index)) = custom_section_at(&self.custom_sections, n) {
                if wanted == *section_name {
                    sections.push(self.custom_sections_data[section_index.index()].as_slice());
                }
            }
            n += 1;
        }
        sections
    }

    /// Convert a `LocalFunctionIndex` into a `FunctionIndex`.
    pub fn func_index(&self, local_func: LocalFunctionIndex) -> (index: FunctionIndex)
        requires
            full_index(self.import_counts.functions, local_func.index()) <= u32::MAX,
        ensures
            index.index() == full_index(self.import_counts.functions, local_func.index()),
    {
        FunctionIndex::new(self.import_counts.functions + local_func.index())
    }

    /// Convert a `FunctionIndex` into a `LocalFunctionIndex`. Returns None if the
    /// index is an imported function.
    pub fn local_func_index(&self, func: FunctionIndex) -> (local: Option<LocalFunctionIndex>)
        ensures
            local is Some <==> local_index(self.import_counts.functions, func.index()) is Some,
            local matches Some(l) ==> Some(l.index() as int) == local_index(
                self.import_counts.functions,
                func.index(),
            ),
    {
        match func.index().checked_sub(self.import_counts.functions) {
            Some(l) => Some(LocalFunctionIndex::new(l)),
            None => None,
        }
    }

    /// Test whether the given function index is for an imported function.
    pub fn is_imported_function(&self, index: FunctionIndex) -> (imported: bool)
        ensures
            imported == (index.index() < self.import_counts.functions),
    {
        index.index() < self.import_counts.functions
    }

    /// Convert a `LocalTableIndex` into a `TableIndex`.
    pub fn table_index(&self, local_table: LocalTableIndex) -> (index: TableIndex)
        requires
            full_index(self.import_counts.tables, local_table.index()) <= u32::MAX,
        ensures
            index.index() == full_index(self.import_counts.tables, local_table.index()),
    {
        TableIndex::new(self.import_counts.tables + local_table.index())
    }

    /// Convert a `TableIndex` into a `LocalTableIndex`. Returns None if the
    /// index is an imported table.
    pub fn local_table_index(&self, table: TableIndex) -> (local: Option<LocalTableIndex>)
        ensures
            local is Some <==> local_index(self.import_counts.tables, table.index()) is Some,
            local matches Some(l) ==> Some(l.index() as int) == local_index(
                self.import_counts.tables,
                table.index(),
            ),
    {
        match table.index().checked_sub(self.import_counts.tables) {
            Some(l) => Some(LocalTableIndex::new(l)),
            None => None,
        }
    }

    /// Test whether the given table index is for an imported table.
    pub fn is_imported_table(&self, index: TableIndex) -> (imported: bool)
        ensures
            imported == (index.index() < self.import_counts.tables),
    {
        index.index() < self.import_counts.tables
    }

    /// Convert a `LocalMemoryIndex` into a `MemoryIndex`.
    pub fn memory_index(&self, local_memory: LocalMemoryIndex) -> (index: MemoryIndex)
        requires
            full_index(self.import_counts.memories, local_memory.index()) <= u32::MAX,
        ensures
            index.index() == full_index(self.import_counts.memories, local_memory.index()),
    {
        MemoryIndex::new(self.import_counts.memories + local_memory.index())
    }

    /// Convert a `MemoryIndex` into a `LocalMemoryIndex`. Returns None if the
    /// index is an imported memory.
    pub fn local_memory_index(&self, memory: MemoryIndex) -> (local: Option<LocalMemoryIndex>)
        ensures
            local is Some <==> local_index(self.import_counts.memories, memory.index()) is Some,
            local matches Some(l) ==> Some(l.index() as int) == local_index(
                self.import_counts.memories,
                memory.index(),
            ),
    {
        match memory.index().checked_sub(self.import_counts.memories) {
            Some(l) => Some(LocalMemoryIndex::new(l)),
            None => None,
        }
    }

    /// Test whether the given memory index is for an imported memory.
    pub fn is_imported_memory(&self, index: MemoryIndex) -> (imported: bool)
        ensures
            imported == (index.index() < self.import_counts.memories),
    {
        index.index() < self.import_counts.memories
    }

    /// Convert a `LocalGlobalIndex` into a `GlobalIndex`.
    pub fn global_index(&self, local_global: LocalGlobalIndex) -> (index: GlobalIndex)
        requires
            full_index(self.import_counts.globals, local_global.index()) <= u32::MAX,
        ensures
            index.index() == full_index(self.import_counts.globals, local_global.index()),
    {
        GlobalIndex::new(self.import_counts.globals + local_global.index())
    }

    /// Convert a `GlobalIndex` into a `LocalGlobalIndex`. Returns None if the
    /// index is an imported global.
    pub fn local_global_index(&self, global: GlobalIndex) -> (local: Option<LocalGlobalIndex>)
        ensures
            local is Some <==> local_index(self.import_counts.globals, global.index()) is Some,
            local matches Some(l) ==> Some(l.index() as int) == local_index(
                self.import_counts.globals,
                global.index(),
            ),
    {
        match global.index().checked_sub(self.import_counts.globals) {
            Some(l) => Some(LocalGlobalIndex::new(l)),
            None => None,
        }
    }

    /// Test whether the given global index is for an imported global.
    pub fn is_imported_global(&self, index: GlobalIndex) -> (imported: bool)
        ensures
            imported == (index.index() < self.import_counts.globals),
    {
        index.index() < self.import_counts.globals
    }

    /// Get the Module name
    pub fn name(&self) -> (name: String)
        ensures
            name@ == match self.name {
                Some(given) => given@,
                None => "<module>"@,
            },
    {
        match &self.name {
            Some(name) => name.clone(),
            None => "<module>".to_string(),
        }
    }

    /// Get the imported function types of the module.
    pub fn imported_function_types(&self) -> (types: Vec<FunctionType>)
        requires
            self.wf(),
        ensures
            types@.len() == self.import_counts.functions,
            forall|i: int|
                0 <= i < types@.len() ==> (#[trigger] types@[i])@ == self.function_type(
                    FunctionIndex(i as u32),
                ),
    {
        let mut types: Vec<FunctionType> = Vec::new();
        let mut i: usize = 0;
        while i < self.import_counts.functions
            invariant
                self.wf(),
                i <= self.import_counts.functions,
                types@.len() == i,
                forall|k: int|
                    0 <= k < i ==> (#[trigger] types@[k])@ == self.function_type(
                        FunctionIndex(k as u32),
                    ),
            decreases self.import_counts.functions - i,
        {
            let sig_index = self.functions[i];
            types.push(self.signatures[sig_index.index()].duplicate());
            i += 1;
        }
        types
    }
}

/// Mirror version of ModuleInfo that can be archived: its maps are lists of
/// entries, and it has no identifier.
pub struct ArchivableModuleInfo {
    /// The name of this wasm module, often found in the wasm file.
    pub name: Option<String>,
    /// Imported entities, in the order of import.
    pub imports: Vec<((String, String, u32), ImportIndex)>,
    /// Exported entities, in the order of export.
    pub exports: Vec<(String, ExportIndex)>,
    /// The module "start" function, if present.
    pub start_function: Option<FunctionIndex>,
    /// WebAssembly table initializers.
    pub table_initializers: Vec<OwnedTableInitializer>,
    /// WebAssembly passive elements, by the position of the element segment.
    pub passive_elements: BTreeMap<u32, Vec<FunctionIndex>>,
    /// WebAssembly passive data segments, by the position of the data segment.
    pub passive_data: BTreeMap<u32, Vec<u8>>,
    /// WebAssembly global initializers, one for each local global.
    pub global_initializers: Vec<GlobalInit>,
    /// WebAssembly function names, by the position of the function, in order.
    pub function_names: BTreeMap<u32, String>,
    /// WebAssembly function signatures, by `SignatureIndex`.
    pub signatures: Vec<FunctionType>,
    /// WebAssembly functions (imported and local), by `FunctionIndex`.
    pub functions: Vec<SignatureIndex>,
    /// WebAssembly tables (imported and local), by `TableIndex`.
    pub tables: Vec<TableType>,
    /// WebAssembly linear memories (imported and local), by `MemoryIndex`.
    pub memories: Vec<MemoryType>,
    /// WebAssembly global variables (imported and local), by `GlobalIndex`.
    pub globals: Vec<GlobalType>,
    /// Custom sections in the module, in order.
    pub custom_sections: Vec<(String, CustomSectionIndex)>,
    /// The data for each custom section in the module, by `CustomSectionIndex`.
    pub custom_sections_data: Vec<Vec<u8>>,
    /// The counts of imported entities.
    pub import_counts: EntityCounts,
}

/// What a list of import entries holds.
pub open spec fn import_list(entries: Seq<((String, String, u32), ImportIndex)>) -> Seq<
    ((Seq<char>, Seq<char>, u32), ImportIndex),
> {
    Seq::new(entries.len(), |i: int| ((entries[i].0.0@, entries[i].0.1@, entries[i].0.2), entries[i].1))
}

/// What a list of named entries holds.
pub open spec fn named_list<V>(entries: Seq<(String, V)>) -> Seq<(Seq<char>, V)> {
    Seq::new(entries.len(), |i: int| (entries[i].0@, entries[i].1))
}

impl ArchivableModuleInfo {
    /// The archivable mirror of a module: everything but its identifier.
    pub fn from(it: ModuleInfo) -> (archivable: ArchivableModuleInfo)
        ensures
            mirrors(archivable, it),
    {
        let mut imports: Vec<((String, String, u32), ImportIndex)> = Vec::new();
        let import_total = import_count(&it.imports);
        let mut i: usize = 0;
        while i < import_total
            invariant
                import_total == import_entries(it.imports).len(),
                i <= import_total,
                import_list(imports@) == import_entries(it.imports).take(i as int),
                forall|k: int, j: int|
                    0 <= k < i && 0 <= j < import_total && j != k ==> (#[trigger] import_entries(
                        it.imports,
                    )[k]).0 != (#[trigger] import_entries(it.imports)[j]).0,
            decreases import_total - i,
        {
            if let Some((key, value)) = import_at(&it.imports, i) {
                let ghost before = imports@;
                imports.push(((key.0.clone(), key.1.clone(), key.2), *value));
                assert(import_list(imports@) =~= import_list(before).push(
                    import_entries(it.imports)[i as int],
                ));
            }
            i += 1;
        }
        let mut exports: Vec<(String, ExportIndex)> = Vec::new();
        let export_total = export_count(&it.exports);
        let mut e: usize = 0;
        while e < export_total
            invariant
                export_total == export_entries(it.exports).len(),
                e <= export_total,
                named_list(exports@) == export_entries(it.exports).take(e as int),
                forall|k: int, j: int|
                    0 <= k < e && 0 <= j < export_total && j != k ==> (#[trigger] export_entries(
                        it.exports,
                    )[k]).0 != (#[trigger] export_entries(it.exports)[j]).0,
            decreases export_total - e,
        {
            if let Some((key, value)) = export_at(&it.exports, e) {
                let ghost before = exports@;
                exports.push((key.clone(), *value));
                assert(named_list(exports@) =~= named_list(before).push(
                    export_entries(it.exports)[e as int],
                ));
            }
            e += 1;
        }
        let mut custom_sections: Vec<(String, CustomSectionIndex)> = Vec::new();
        let section_total = custom_section_count(&it.custom_sections);
        let mut c: usize = 0;
        while c < section_total
            invariant
                section_total == custom_section_entries(it.custom_sections).len(),
                c <= section_total,
                named_list(custom_sections@) == custom_section_entries(it.custom_sections).take(
                    c as int,
                ),
                forall|k: int, j: int|
                    0 <= k < c && 0 <= j < section_total && j != k ==> (
                    #[trigger] custom_section_entries(it.custom_sections)[k]).0 != (
                    #[trigger] custom_section_entries(it.custom_sections)[j]).0,
            decreases section_total - c,
        {
            if let Some((key, value)) = custom_section_at(&it.custom_sections, c) {
                let ghost before = custom_sections@;
                custom_sections.push((key.clone(), *value));
                assert(named_list(custom_sections@) =~= named_list(before).push(
                    custom_section_entries(it.custom_sections)[c as int],
                ));
            }
            c += 1;
        }
        proof {
            assert(import_entries(it.imports).take(import_total as int) =~= import_entries(
                it.imports,
            ));
            assert(export_entries(it.exports).take(export_total as int) =~= export_entries(
                it.exports,
            ));
            assert(custom_section_entries(it.custom_sections).take(section_total as int)
                =~= custom_section_entries(it.custom_sections));
        }
        ArchivableModuleInfo {
            name: it.name,
            imports,
            exports,
            start_function: it.start_function,
            table_initializers: it.table_initializers,
            passive_elements: it.passive_elements,
            passive_data: it.passive_data,
            global_initializers: it.global_initializers,
            function_names: ordered_names(it.function_names),
            signatures: it.signatures,
            functions: it.functions,
            tables: it.tables,
            memories: it.memories,
            globals: it.globals,
            custom_sections,
            custom_sections_data: it.custom_sections_data,
            import_counts: it.import_counts,
        }
    }
}

impl ModuleInfo {
    /// The module that an archivable mirror stands for, under the given
    /// identifier: its entries are inserted into the maps in order.
    pub fn from(it: ArchivableModuleInfo, id: ModuleId) -> (module: ModuleInfo)
        ensures
            module.id == id,
            restores(module, it),
    {
        let mut imports = no_import_entries();
        let mut i: usize = 0;
        while i < it.imports.len()
            invariant
                i <= it.imports@.len(),
                import_entries(imports) == inserted_all(import_list(it.imports@), i as nat),
            decreases it.imports@.len() - i,
        {
            let entry = &it.imports[i];
            insert_import(&mut imports, (entry.0.0.clone(), entry.0.1.clone(), entry.0.2), entry.1);
            i += 1;
        }
        let mut exports = no_export_entries();
        let mut e: usize = 0;
        while e < it.exports.len()
            invariant
                e <= it.exports@.len(),
                export_entries(exports) == inserted_all(named_list(it.exports@), e as nat),
            decreases it.exports@.len() - e,
        {
            let entry = &it.exports[e];
            insert_export(&mut exports, entry.0.clone(), entry.1);
            e += 1;
        }
        let mut custom_sections = no_custom_section_entries();
        let mut c: usize = 0;
        while c < it.custom_sections.len()
            invariant
                c <= it.custom_sections@.len(),
                custom_section_entries(custom_sections) == inserted_all(
                    named_list(it.custom_sections@),
                    c as nat,
                ),
            decreases it.custom_sections@.len() - c,
        {
            let entry = &it.custom_sections[c];
            insert_custom_section(&mut custom_sections, entry.0.clone(), entry.1);
            c += 1;
        }
        ModuleInfo {
            id,
            name: it.name,
            imports,
            exports,
            start_function: it.start_function,
            table_initializers: it.table_initializers,
            passive_elements: it.passive_elements,
            passive_data: it.passive_data,
            global_initializers: it.global_initializers,
            function_names: hashed_names(it.function_names),
            signatures: it.signatures,
            functions: it.functions,
            tables: it.tables,
            memories: it.memories,
            globals: it.globals,
            custom_sections,
            custom_sections_data: it.custom_sections_data,
            import_counts: it.import_counts,
        }
    }
}

/// Inserting the entries of a list without a key twice, in order, gives a
/// map with just these entries in this order.
pub proof fn lemma_archive_round_trip<K, V>(entries: Seq<(K, V)>)
    requires
        distinct_keys(entries),
    ensures
        inserted_all(entries, entries.len()) == entries,
{
    lemma_inserted_all(entries, entries.len());
}

/// Whether `archivable` is the mirror of `module`: it holds what the module
/// holds but the identifier, the entries of each map as a list in their
/// order, in which no key stands twice.
pub open spec fn mirrors(archivable: ArchivableModuleInfo, module: ModuleInfo) -> bool {
    &&& archivable.name == module.name
    &&& import_list(archivable.imports@) == import_entries(module.imports)
    &&& named_list(archivable.exports@) == export_entries(module.exports)
    &&& named_list(archivable.custom_sections@) == custom_section_entries(module.custom_sections)
    &&& distinct_keys(import_list(archivable.imports@))
    &&& distinct_keys(named_list(archivable.exports@))
    &&& distinct_keys(named_list(archivable.custom_sections@))
    &&& archivable.function_names@ == module.function_names@
    &&& archivable.start_function == module.start_function
    &&& archivable.table_initializers == module.table_initializers
    &&& archivable.passive_elements == module.passive_elements
    &&& archivable.passive_data == module.passive_data
    &&& archivable.global_initializers == module.global_initializers
    &&& archivable.signatures == module.signatures
    &&& archivable.functions == module.functions
    &&& archivable.tables == module.tables
    &&& archivable.memories == module.memories
    &&& archivable.globals == module.globals
    &&& archivable.custom_sections_data == module.custom_sections_data
    &&& archivable.import_counts == module.import_counts
}

/// Whether `module` is what `archivable` stands for: it holds what the
/// mirror holds, the entries of each list inserted into a map in order.
pub open spec fn restores(module: ModuleInfo, archivable: ArchivableModuleInfo) -> bool {
    &&& module.name == archivable.name
    &&& import_entries(module.imports) == inserted_all(
        import_list(archivable.imports@),
        archivable.imports@.len(),
    )
    &&& export_entries(module.exports) == inserted_all(
        named_list(archivable.exports@),
        archivable.exports@.len(),
    )
    &&& custom_section_entries(module.custom_sections) == inserted_all(
        named_list(archivable.custom_sections@),
        archivable.custom_sections@.len(),
    )
    &&& module.function_names@ == archivable.function_names@
    &&& module.start_function == archivable.start_function
    &&& module.table_initializers == archivable.table_initializers
    &&& module.passive_elements == archivable.passive_elements
    &&& module.passive_data == archivable.passive_data
    &&& module.global_initializers == archivable.global_initializers
    &&& module.signatures == archivable.signatures
    &&& module.functions == archivable.functions
    &&& module.tables == archivable.tables
    &&& module.memories == archivable.memories
    &&& module.globals == archivable.globals
    &&& module.custom_sections_data == archivable.custom_sections_data
    &&& module.import_counts == archivable.import_counts
}

/// Whether two modules hold the same, whatever their identifiers are.
pub open spec fn same_module(a: ModuleInfo, b: ModuleInfo) -> bool {
    &&& a.name == b.name
    &&& import_entries(a.imports) == import_entries(b.imports)
    &&& export_entries(a.exports) == export_entries(b.exports)
    &&& custom_section_entries(a.custom_sections) == custom_section_entries(b.custom_sections)
    &&& a.function_names@ == b.function_names@
    &&& a.start_function == b.start_function
    &&& a.table_initializers == b.table_initializers
    &&& a.passive_elements == b.passive_elements
    &&& a.passive_data == b.passive_data
    &&& a.global_initializers == b.global_initializers
    &&& a.signatures == b.signatures
    &&& a.functions == b.functions
    &&& a.tables == b.tables
    &&& a.memories == b.memories
    &&& a.globals == b.globals
    &&& a.custom_sections_data == b.custom_sections_data
    &&& a.import_counts == b.import_counts
}

/// A module survives being archived: the module that stands for the mirror
/// of a module holds what that module holds, each map with its entries in
/// their order.
pub proof fn lemma_module_survives_archiving(
    module: ModuleInfo,
    archivable: ArchivableModuleInfo,
    back: ModuleInfo,
)
    requires
        mirrors(archivable, module),
        restores(back, archivable),
    ensures
        same_module(back, module),
{
    lemma_archive_round_trip(import_list(archivable.imports@));
    lemma_archive_round_trip(named_list(archivable.exports@));
    lemma_archive_round_trip(named_list(archivable.custom_sections@));
}

} // verus!
