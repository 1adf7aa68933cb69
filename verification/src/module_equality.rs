//! Equality of modules: two modules are equal when they hold the same,
//! whatever their identifiers are and in whatever order their maps were
//! filled.

use crate::indices::{CustomSectionIndex, ExportIndex, FunctionIndex, ImportIndex, SignatureIndex};
use crate::module::{
    custom_section_entries, export_entries, import_entries, lemma_module_survives_archiving,
    mirrors, restores, ArchivableModuleInfo, GlobalInit, ModuleInfo, OwnedTableInitializer,
};
use crate::types::{function_type_views, FunctionType, GlobalType, MemoryType, TableType};
use indexmap::IndexMap;
use std::collections::{BTreeMap, HashMap};
use vstd::prelude::*;
use vstd::std_specs::cmp::PartialEqSpecImpl;

verus! {

/// Whether two lists of entries hold the same entries, in whatever order.
pub open spec fn same_entries<K, V>(a: Seq<(K, V)>, b: Seq<(K, V)>) -> bool {
    a.len() == b.len() && forall|i: int| 0 <= i < a.len() ==> b.contains(#[trigger] a[i])
}

/// Whether two maps hold the same keys, and under each key values that
/// hold the same.
pub open spec fn same_values<V: View>(a: Map<u32, V>, b: Map<u32, V>) -> bool {
    a.dom() == b.dom() && forall|k: u32| #[trigger] a.contains_key(k) ==> a[k]@ == b[k]@
}

/// `IndexMap::eq`: whether two maps have as many entries, and each entry of
/// the first stands in the second with an equal value.
#[verifier::external_body]
fn same_imports(
    a: &IndexMap<(String, String, u32), ImportIndex>,
    b: &IndexMap<(String, String, u32), ImportIndex>,
) -> (same: bool)
    ensures
        same == same_entries(import_entries(*a), import_entries(*b)),
{
    a.eq(b)
}

/// `IndexMap::eq`: whether two maps have as many entries, and each entry of
/// the first stands in the second with an equal value.
#[verifier::external_body]
fn same_exports(a: &IndexMap<String, ExportIndex>, b: &IndexMap<String, ExportIndex>) -> (same: bool)
    ensures
        same == same_entries(export_entries(*a), export_entries(*b)),
{
    a.eq(b)
}

/// `IndexMap::eq`: whether two maps have as many entries, and each entry of
/// the first stands in the second with an equal value.
#[verifier::external_body]
fn same_custom_sections(
    a: &IndexMap<String, CustomSectionIndex>,
    b: &IndexMap<String, CustomSectionIndex>,
) -> (same: bool)
    ensures
        same == same_entries(custom_section_entries(*a), custom_section_entries(*b)),
{
    a.eq(b)
}

/// `BTreeMap::eq`: whether two maps hold equal values under the same keys.
#[verifier::external_body]
fn same_passive_elements(
    a: &BTreeMap<u32, Vec<FunctionIndex>>,
    b: &BTreeMap<u32, Vec<FunctionIndex>>,
) -> (same: bool)
    ensures
        same == same_values(a@, b@),
{
    a.eq(b)
}

/// `BTreeMap::eq`: whether two maps hold equal values under the same keys.
#[verifier::external_body]
fn same_passive_data(a: &BTreeMap<u32, Vec<u8>>, b: &BTreeMap<u32, Vec<u8>>) -> (same: bool)
    ensures
        same == same_values(a@, b@),
{
    a.eq(b)
}

/// `HashMap::eq`: whether two maps hold equal values under the same keys.
#[verifier::external_body]
fn same_function_names(a: &HashMap<u32, String>, b: &HashMap<u32, String>) -> (same: bool)
    ensures
        same == same_values(a@, b@),
{
    a.eq(b)
}

/// Whether two lists of global initializers are the same.
pub fn same_global_initializers(a: &[GlobalInit], b: &[GlobalInit]) -> (same: bool)
    ensures
        same == (a@ == b@),
{
    if a.len() != b.len() {
        return false;
    }
    let mut i: usize = 0;
    while i < a.len()
        invariant
            a.len() == b.len(),
            i <= a.len(),
            a@.take(i as int) == b@.take(i as int),
        decreases a.len() - i,
    {
        if a[i] != b[i] {
            return false;
        }
        i += 1;
    }
    assert(a@.take(a@.len() as int) =~= a@);
    assert(b@.take(b@.len() as int) =~= b@);
    true
}

/// Whether two lists of signature indices are the same.
pub fn same_signature_indices(a: &[SignatureIndex], b: &[SignatureIndex]) -> (same: bool)
    ensures
        same == (a@ == b@),
{
    if a.len() != b.len() {
        return false;
    }
    let mut i: usize = 0;
    while i < a.len()
        invariant
            a.len() == b.len(),
            i <= a.len(),
            a@.take(i as int) == b@.take(i as int),
        decreases a.len() - i,
    {
        if a[i] != b[i] {
            return false;
        }
        i += 1;
    }
    assert(a@.take(a@.len() as int) =~= a@);
    assert(b@.take(b@.len() as int) =~= b@);
    true
}

/// Whether two lists of function indices are the same.
pub fn same_function_indices(a: &[FunctionIndex], b: &[FunctionIndex]) -> (same: bool)
    ensures
        same == (a@ == b@),
{
    if a.len() != b.len() {
        return false;
    }
    let mut i: usize = 0;
    while i < a.len()
        invariant
            a.len() == b.len(),
            i <= a.len(),
            a@.take(i as int) == b@.take(i as int),
        decreases a.len() - i,
    {
        if a[i] != b[i] {
            return false;
        }
        i += 1;
    }
    assert(a@.take(a@.len() as int) =~= a@);
    assert(b@.take(b@.len() as int) =~= b@);
    true
}

/// Whether two lists of table types are the same.
pub fn same_tables(a: &[TableType], b: &[TableType]) -> (same: bool)
    ensures
        same == (a@ == b@),
{
    if a.len() != b.len() {
        return false;
    }
    let mut i: usize = 0;
    while i < a.len()
        invariant
            a.len() == b.len(),
            i <= a.len(),
            a@.take(i as int) == b@.take(i as int),
        decreases a.len() - i,
    {
        if a[i] != b[i] {
            return false;
        }
        i += 1;
    }
    assert(a@.take(a@.len() as int) =~= a@);
    assert(b@.take(b@.len() as int) =~= b@);
    true
}

/// Whether two lists of memory types are the same.
pub fn same_memories(a: &[MemoryType], b: &[MemoryType]) -> (same: bool)
    ensures
        same == (a@ == b@),
{
    if a.len() != b.len() {
        return false;
    }
    let mut i: usize = 0;
    while i < a.len()
        invariant
            a.len() == b.len(),
            i <= a.len(),
            a@.take(i as int) == b@.take(i as int),
        decreases a.len() - i,
    {
        if a[i] != b[i] {
            return false;
        }
        i += 1;
    }
    assert(a@.take(a@.len() as int) =~= a@);
    assert(b@.take(b@.len() as int) =~= b@);
    true
}

/// Whether two lists of global types are the same.
pub fn same_globals(a: &[GlobalType], b: &[GlobalType]) -> (same: bool)
    ensures
        same == (a@ == b@),
{
    if a.len() != b.len() {
        return false;
    }
    let mut i: usize = 0;
    while i < a.len()
        invariant
            a.len() == b.len(),
            i <= a.len(),
            a@.take(i as int) == b@.take(i as int),
        decreases a.len() - i,
    {
        if a[i] != b[i] {
            return false;
        }
        i += 1;
    }
    assert(a@.take(a@.len() as int) =~= a@);
    assert(b@.take(b@.len() as int) =~= b@);
    true
}

/// Whether two lists of bytes are the same.
pub fn same_bytes(a: &[u8], b: &[u8]) -> (same: bool)
    ensures
        same == (a@ == b@),
{
    if a.len() != b.len() {
        return false;
    }
    let mut i: usize = 0;
    while i < a.len()
        invariant
            a.len() == b.len(),
            i <= a.len(),
            a@.take(i as int) == b@.take(i as int),
        decreases a.len() - i,
    {
        if a[i] != b[i] {
            return false;
        }
        i += 1;
    }
    assert(a@.take(a@.len() as int) =~= a@);
    assert(b@.take(b@.len() as int) =~= b@);
    true
}

/// Whether two lists of function types are the same.
pub fn same_signatures(a: &[FunctionType], b: &[FunctionType]) -> (same: bool)
    ensures
        same == (function_type_views(a@) == function_type_views(b@)),
{
    if a.len() != b.len() {
        assert(function_type_views(a@).len() != function_type_views(b@).len());
        return false;
    }
    let mut i: usize = 0;
    while i < a.len()
        invariant
            a.len() == b.len(),
            i <= a.len(),
            forall|k: int| 0 <= k < i ==> (#[trigger] a@[k])@ == b@[k]@,
        decreases a.len() - i,
    {
        if !a[i].same(&b[i]) {
            assert(function_type_views(a@)[i as int] != function_type_views(b@)[i as int]);
            return false;
        }
        i += 1;
    }
    assert(function_type_views(a@) =~= function_type_views(b@));
    true
}

/// What each of a list of lists of bytes holds.
pub open spec fn byte_lists(lists: Seq<Vec<u8>>) -> Seq<Seq<u8>> {
    Seq::new(lists.len(), |i: int| lists[i]@)
}

/// Whether two lists of lists of bytes are the same.
pub fn same_byte_lists(a: &[Vec<u8>], b: &[Vec<u8>]) -> (same: bool)
    ensures
        same == (byte_lists(a@) == byte_lists(b@)),
{
    if a.len() != b.len() {
        assert(byte_lists(a@).len() != byte_lists(b@).len());
        return false;
    }
    let mut i: usize = 0;
    while i < a.len()
        invariant
            a.len() == b.len(),
            i <= a.len(),
            forall|k: int| 0 <= k < i ==> (#[trigger] a@[k])@ == b@[k]@,
        decreases a.len() - i,
    {
        if !same_bytes(a[i].as_slice(), b[i].as_slice()) {
            assert(byte_lists(a@)[i as int] != byte_lists(b@)[i as int]);
            return false;
        }
        i += 1;
    }
    assert(byte_lists(a@) =~= byte_lists(b@));
    true
}

/// What a table initializer holds: its table, its base, its offset and its
/// elements.
pub open spec fn initializer_view(it: OwnedTableInitializer) -> (
    crate::indices::TableIndex,
    Option<crate::indices::GlobalIndex>,
    usize,
    Seq<FunctionIndex>,
) {
    (it.table_index, it.base, it.offset, it.elements@)
}

/// What each of a list of table initializers holds.
pub open spec fn initializer_views(list: Seq<OwnedTableInitializer>) -> Seq<
    (crate::indices::TableIndex, Option<crate::indices::GlobalIndex>, usize, Seq<FunctionIndex>),
> {
    Seq::new(list.len(), |i: int| initializer_view(list[i]))
}

/// Whether two table initializers hold the same.
pub fn same_initializer(a: &OwnedTableInitializer, b: &OwnedTableInitializer) -> (same: bool)
    ensures
        same == (initializer_view(*a) == initializer_view(*b)),
{
    let same_base = match (a.base, b.base) {
        (Some(x), Some(y)) => x == y,
        (None, None) => true,
        _ => false,
    };
    a.table_index == b.table_index && same_base && a.offset == b.offset && same_function_indices(
        a.elements.as_slice(),
        b.elements.as_slice(),
    )
}

/// Whether two lists of table initializers are the same.
pub fn same_initializers(a: &[OwnedTableInitializer], b: &[OwnedTableInitializer]) -> (same: bool)
    ensures
        same == (initializer_views(a@) == initializer_views(b@)),
{
    if a.len() != b.len() {
        assert(initializer_views(a@).len() != initializer_views(b@).len());
        return false;
    }
    let mut i: usize = 0;
    while i < a.len()
        invariant
            a.len() == b.len(),
            i <= a.len(),
            forall|k: int|
                0 <= k < i ==> initializer_view(#[trigger] a@[k]) == initializer_view(b@[k]),
        decreases a.len() - i,
    {
        if !same_initializer(&a[i], &b[i]) {
            assert(initializer_views(a@)[i as int] != initializer_views(b@)[i as int]);
            return false;
        }
        i += 1;
    }
    assert(initializer_views(a@) =~= initializer_views(b@));
    true
}

/// What a name is, if there is one.
pub open spec fn name_view(name: Option<String>) -> Option<Seq<char>> {
    match name {
        Some(text) => Some(text@),
        None => None,
    }
}

/// Whether two names are the same.
pub fn same_name(a: &Option<String>, b: &Option<String>) -> (same: bool)
    ensures
        same == (name_view(*a) == name_view(*b)),
{
    match (a, b) {
        (Some(x), Some(y)) => *x == *y,
        (None, None) => true,
        _ => false,
    }
}

/// Whether two modules hold the same: everything but their identifiers,
/// the entries of their maps in whatever order.
pub open spec fn same_contents(a: ModuleInfo, b: ModuleInfo) -> bool {
    &&& name_view(a.name) == name_view(b.name)
    &&& same_entries(import_entries(a.imports), import_entries(b.imports))
    &&& same_entries(export_entries(a.exports), export_entries(b.exports))
    &&& a.start_function == b.start_function
    &&& initializer_views(a.table_initializers@) == initializer_views(b.table_initializers@)
    &&& same_values(a.passive_elements@, b.passive_elements@)
    &&& same_values(a.passive_data@, b.passive_data@)
    &&& a.global_initializers@ == b.global_initializers@
    &&& same_values(a.function_names@, b.function_names@)
    &&& function_type_views(a.signatures@) == function_type_views(b.signatures@)
    &&& a.functions@ == b.functions@
    &&& a.tables@ == b.tables@
    &&& a.memories@ == b.memories@
    &&& a.globals@ == b.globals@
    &&& same_entries(
        custom_section_entries(a.custom_sections),
        custom_section_entries(b.custom_sections),
    )
    &&& byte_lists(a.custom_sections_data@) == byte_lists(b.custom_sections_data@)
    &&& a.import_counts == b.import_counts
}

/// A module is equal to the module that its archivable mirror stands for,
/// under whatever identifier.
pub proof fn lemma_archived_module_is_equal(
    module: ModuleInfo,
    archivable: ArchivableModuleInfo,
    back: ModuleInfo,
)
    requires
        mirrors(archivable, module),
        restores(back, archivable),
    ensures
        same_contents(back, module),
{
    lemma_module_survives_archiving(module, archivable, back);
    let imports = import_entries(module.imports);
    assert forall|i: int| 0 <= i < imports.len() implies imports.contains(#[trigger] imports[i]) by {}
    let exports = export_entries(module.exports);
    assert forall|i: int| 0 <= i < exports.len() implies exports.contains(#[trigger] exports[i]) by {}
    let sections = custom_section_entries(module.custom_sections);
    assert forall|i: int| 0 <= i < sections.len() implies sections.contains(
        #[trigger] sections[i],
    ) by {}
}

impl PartialEq for ModuleInfo {
    /// For test serialization correctness, everything except module id should be same
    fn eq(&self, other: &ModuleInfo) -> (equal: bool) {
        let same_start = match (self.start_function, other.start_function) {
            (Some(x), Some(y)) => x == y,
            (None, None) => true,
            _ => false,
        };
        same_name(&self.name, &other.name) && same_imports(&self.imports, &other.imports)
            && same_exports(&self.exports, &other.exports) && same_start && same_initializers(
            self.table_initializers.as_slice(),
            other.table_initializers.as_slice(),
        ) && same_passive_elements(&self.passive_elements, &other.passive_elements)
            && same_passive_data(&self.passive_data, &other.passive_data)
            && same_global_initializers(
            self.global_initializers.as_slice(),
            other.global_initializers.as_slice(),
        ) && same_function_names(&self.function_names, &other.function_names) && same_signatures(
            self.signatures.as_slice(),
            other.signatures.as_slice(),
        ) && same_signature_indices(self.functions.as_slice(), other.functions.as_slice())
            && same_tables(self.tables.as_slice(), other.tables.as_slice()) && same_memories(
            self.memories.as_slice(),
            other.memories.as_slice(),
        ) && same_globals(self.globals.as_slice(), other.globals.as_slice())
            && same_custom_sections(&self.custom_sections, &other.custom_sections)
            && same_byte_lists(
            self.custom_sections_data.as_slice(),
            other.custom_sections_data.as_slice(),
        ) && self.import_counts == other.import_counts
    }
}

impl PartialEqSpecImpl for ModuleInfo {
    open spec fn obeys_eq_spec() -> bool {
        true
    }

    open spec fn eq_spec(&self, other: &ModuleInfo) -> bool {
        same_contents(*self, *other)
    }
}

} // verus!
