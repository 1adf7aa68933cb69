//! An artifact: a compiled module placed in memory, linked and published,
//! with everything needed to instantiate it.

use crate::compilation::OwnedDataInitializer;
use crate::engine::VMLocalFunction;
use crate::indices::{FunctionIndex, LocalFunctionIndex};
use crate::module::{local_index, EntityCounts, GlobalInit, OwnedTableInitializer};
use crate::resolver::VMImport;
use crate::sig_registry::VMSharedSignatureIndex;
use crate::types::{GlobalType, MemoryStyle, MemoryType, TableStyle, TableType};
use crate::vm::{FunctionBodyPtr, FunctionExtent};
use std::collections::BTreeMap;
use vstd::prelude::*;

verus! {

broadcast use vstd::std_specs::btree::group_btree_axioms;

/// A compiled wasm module, containing everything necessary for instantiation.
pub struct UniversalArtifact {
    /// The counts of imported entities.
    pub import_counts: EntityCounts,
    /// The module "start" function, if present.
    pub start_function: Option<FunctionIndex>,
    /// The imports of the module, each with the type the module expects.
    pub imports: Vec<VMImport>,
    /// The address of the trampoline that calls into a function of each
    /// signature, by `SignatureIndex`.
    pub function_call_trampolines: Vec<usize>,
    /// The address of the trampoline that calls out to each imported
    /// function, by `FunctionIndex`.
    pub dynamic_function_trampolines: Vec<FunctionBodyPtr>,
    /// The local functions, by `LocalFunctionIndex`.
    pub functions: Vec<VMLocalFunction>,
    /// The exported functions, each with its name.
    pub exported_functions: Vec<(String, FunctionIndex)>,
    /// What each signature of the module has been registered as, by `SignatureIndex`.
    pub signatures: Vec<VMSharedSignatureIndex>,
    /// The local memories, each with its style.
    pub local_memories: Vec<(MemoryType, MemoryStyle)>,
    /// The data segments written into memories at instantiation.
    pub data_segments: Vec<OwnedDataInitializer>,
    /// The passive data segments, by the position of the segment.
    pub passive_data: BTreeMap<u32, Vec<u8>>,
    /// The local tables, each with its style.
    pub local_tables: Vec<(TableType, TableStyle)>,
    /// The element segments written into tables at instantiation.
    pub element_segments: Vec<OwnedTableInitializer>,
    /// The passive element segments, by the position of the segment.
    pub passive_elements: BTreeMap<u32, Vec<FunctionIndex>>,
    /// The local globals, each with the value it starts with.
    pub local_globals: Vec<(GlobalType, GlobalInit)>,
}

/// The function that the first entry called `name` among the first `n`
/// of `exported` names, if there is one.
pub open spec fn function_named(exported: Seq<(String, FunctionIndex)>, name: Seq<char>, n: nat) -> Option<
    FunctionIndex,
>
    decreases n,
{
    if n == 0 {
        None
    } else {
        match function_named(exported, name, (n - 1) as nat) {
            Some(index) => Some(index),
            None => if exported[n - 1].0@ == name {
                Some(exported[n - 1].1)
            } else {
                None
            },
        }
    }
}

impl UniversalArtifact {
    /// Get the default extension when serializing this artifact
    pub fn get_default_extension() -> (extension: &'static str)
        ensures
            extension@ == "wasmu"@,
    {
        // `.wasmu` is the default extension for all the triples. It
        // stands for “Wasm Universal”.
        "wasmu"
    }

    /// Convert a `FunctionIndex` into a `LocalFunctionIndex`. Returns None if the
    /// index is an imported function.
    pub fn local_func_index(&self, func: FunctionIndex) -> (local: Option<LocalFunctionIndex>)
        ensures
            local is Some <==> local_index(self.import_counts.functions, func.index()) is Some,
            local matches Some(l) ==> Some(l.index() as int) == local_index(
                self.import_counts.functions,
                func.index(),
            ),
    {
        match func.index().checked_sub(self.import_counts.functions) {
            Some(l) => Some(LocalFunctionIndex::new(l)),
            None => None,
        }
    }

    /// Return the extents of the specified local function.
    pub fn function_extent(&self, index: LocalFunctionIndex) -> (extent: Option<FunctionExtent>)
        ensures
            extent is Some <==> index.index() < self.functions@.len(),
            extent matches Some(e) ==> e.address == self.functions@[index.index() as int].body
                && e.length == self.functions@[index.index() as int].length,
    {
        if index.index() < self.functions.len() {
            let func = &self.functions[index.index()];
            Some(FunctionExtent { address: func.body, length: func.length as usize })
        } else {
            None
        }
    }

    /// The count of imported entities.
    pub fn import_counts(&self) -> (counts: &EntityCounts)
        ensures
            *counts == self.import_counts,
    {
        &self.import_counts
    }

    /// The locally defined functions.
    ///
    /// These are published and ready to call.
    pub fn functions(&self) -> (functions: &[VMLocalFunction])
        ensures
            functions@ == self.functions@,
    {
        self.functions.as_slice()
    }

    /// Passive table elements.
    pub fn passive_elements(&self) -> (elements: &BTreeMap<u32, Vec<FunctionIndex>>)
        ensures
            *elements == self.passive_elements,
    {
        &self.passive_elements
    }

    /// Table initializers.
    pub fn element_segments(&self) -> (segments: &[OwnedTableInitializer])
        ensures
            segments@ == self.element_segments@,
    {
        self.element_segments.as_slice()
    }

    /// Memory initializers.
    pub fn data_segments(&self) -> (segments: &[OwnedDataInitializer])
        ensures
            segments@ == self.data_segments@,
    {
        self.data_segments.as_slice()
    }

    /// The local globals, each with the value it starts with.
    pub fn globals(&self) -> (globals: &[(GlobalType, GlobalInit)])
        ensures
            globals@ == self.local_globals@,
    {
        self.local_globals.as_slice()
    }

    /// The function index to the start function.
    pub fn start_function(&self) -> (start: Option<FunctionIndex>)
        ensures
            start == self.start_function,
    {
        self.start_function
    }

    /// Function by export name.
    pub fn function_by_export_field(&self, name: &str) -> (function: Option<FunctionIndex>)
        ensures
            function == function_named(self.exported_functions@, name@, self.exported_functions@.len()),
    {
        let wanted = name.to_string();
        let mut i: usize = 0;
        while i < self.exported_functions.len()
            invariant
                i <= self.exported_functions@.len(),
                wanted@ == name@,
                function_named(self.exported_functions@, name@, i as nat) is None,
            decreases self.exported_functions@.len() - i,
        {
            if self.exported_functions[i].0 == wanted {
                proof {
                    lemma_function_named_stays(
                        self.exported_functions@,
                        name@,
                        (i + 1) as nat,
                        self.exported_functions@.len(),
                    );
                }
                return Some(self.exported_functions[i].1);
            }
            i += 1;
        }
        None
    }

    /// Mapping between module SignatureIndex and VMSharedSignatureIndex.
    pub fn signatures(&self) -> (signatures: &[VMSharedSignatureIndex])
        ensures
            signatures@ == self.signatures@,
    {
        self.signatures.as_slice()
    }

    /// The address of the trampoline that calls into functions of the
    /// signature at `index`.
    pub fn function_trampoline(&self, index: usize) -> (trampoline: Option<usize>)
        ensures
            trampoline == if index < self.function_call_trampolines@.len() {
                Some(self.function_call_trampolines@[index as int])
            } else {
                None
            },
    {
        if index < self.function_call_trampolines.len() {
            Some(self.function_call_trampolines[index])
        } else {
            None
        }
    }
}

/// Once a name is found among the first entries, more entries do not change what is found.
proof fn lemma_function_named_stays(
    exported: Seq<(String, FunctionIndex)>,
    name: Seq<char>,
    n: nat,
    m: nat,
)
    requires
        n <= m,
        function_named(exported, name, n) is Some,
    ensures
        function_named(exported, name, m) == function_named(exported, name, n),
    decreases m,
{
    if n < m {
        lemma_function_named_stays(exported, name, n, (m - 1) as nat);
    }
}

} // verus!
