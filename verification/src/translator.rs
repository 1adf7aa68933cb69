//! What is decoded from a module and referenced while its functions are
//! translated.

use crate::indices::ImportIndex;
use crate::machine::WpType;
use crate::module::{import_entries, ModuleInfo};
use std::collections::HashMap;
use vstd::prelude::*;

verus! {

broadcast use vstd::std_specs::hash::group_hash_axioms;

/// The type of a block: a single result type, or a function type of the module.
#[derive(Clone, Copy, Debug, PartialEq, Eq, Structural)]
pub enum TypeOrFuncType {
    /// A value type.
    ///
    /// When used as the type for a block, this type is the optional result
    /// type: `[] -> [t?]`.
    Type(WpType),
    /// A function type (referenced as an index into the types section).
    FuncType(u32),
}

/// A WebAssembly translation error.
#[derive(Debug, PartialEq, Eq)]
pub enum WasmError {
    /// A feature used by the WebAssembly code is not supported by the embedding environment.
    Unsupported(String),
}

/// The names under which functions are imported, as texts.
pub open spec fn names(map: Map<u32, String>) -> Map<u32, Seq<char>> {
    Map::new(|k: u32| map.contains_key(k), |k: u32| map[k]@)
}

/// The names of the imported functions among the first `n` imports, by
/// function, on top of the names in `start`.
pub open spec fn import_names(
    entries: Seq<((Seq<char>, Seq<char>, u32), ImportIndex)>,
    n: nat,
    start: Map<u32, Seq<char>>,
) -> Map<u32, Seq<char>>
    decreases n,
{
    if n == 0 {
        start
    } else {
        let before = import_names(entries, (n - 1) as nat, start);
        match entries[n - 1].1 {
            ImportIndex::Function(index) => before.insert(index.0, entries[n - 1].0.1),
            _ => before,
        }
    }
}

/// The parameter and result types of a block of the given type, where the
/// type is supported.
pub open spec fn block_signature(
    wasm_types: Seq<(Vec<WpType>, Vec<WpType>)>,
    ty_or_ft: TypeOrFuncType,
) -> Option<(Seq<WpType>, Seq<WpType>)> {
    match ty_or_ft {
        TypeOrFuncType::Type(ty) => match ty {
            WpType::EmptyBlockType => Some((Seq::empty(), Seq::empty())),
            WpType::ExnRef => None,
            WpType::Func => None,
            _ => Some((Seq::empty(), seq![ty])),
        },
        TypeOrFuncType::FuncType(index) => Some(
            (wasm_types[index as int].0@, wasm_types[index as int].1@),
        ),
    }
}

/// Contains information decoded from the Wasm module that must be referenced
/// during each Wasm function's translation.
#[derive(Debug)]
pub struct ModuleTranslationState {
    /// A map containing a Wasm module's raw signatures, as its binary has them.
    ///
    /// This is used for translating multi-value Wasm blocks inside functions,
    /// which are encoded to refer to their type signature via index.
    pub wasm_types: Vec<(Vec<WpType>, Vec<WpType>)>,
    /// Imported functions names map, by the position of the function.
    pub import_map: HashMap<u32, String>,
}

impl ModuleTranslationState {
    /// Creates a new empty ModuleTranslationState.
    pub fn new() -> (state: Self)
        ensures
            state.wasm_types@.len() == 0,
            state.import_map@ == Map::<u32, String>::empty(),
    {
        Self { wasm_types: Vec::new(), import_map: HashMap::new() }
    }

    /// Build map of imported functions names for intrinsification.
    pub fn build_import_map(&mut self, module: &ModuleInfo)
        ensures
            final(self).wasm_types == old(self).wasm_types,
            names(final(self).import_map@) == import_names(
                import_entries(module.imports),
                import_entries(module.imports).len(),
                names(old(self).import_map@),
            ),
    {
        let count = crate::module::import_count(&module.imports);
        let ghost start = names(self.import_map@);
        let mut n: usize = 0;
        while n < count
            invariant
                count == import_entries(module.imports).len(),
                n <= count,
                self.wasm_types == old(self).wasm_types,
                names(self.import_map@) == import_names(import_entries(module.imports), n as nat, start),
            decreases count - n,
        {
            if let Some((key, value)) = crate::module::import_at(&module.imports, n) {
                match value {
                    ImportIndex::Function(index) => {
                        self.import_map.insert(index.as_u32(), key.1.clone());
                    },
                    _ => {
                        // Non-function import.
                    },
                }
            }
            n += 1;
        }
    }

    /// Get the parameter and result types for the given Wasm blocktype.
    pub fn blocktype_params_results(&self, ty_or_ft: TypeOrFuncType) -> (signature: Result<
        (Vec<WpType>, Vec<WpType>),
        WasmError,
    >)
        requires
            ty_or_ft matches TypeOrFuncType::FuncType(index) ==> index < self.wasm_types@.len(),
        ensures
            match block_signature(self.wasm_types@, ty_or_ft) {
                Some((params, results)) => signature matches Ok(s) && s.0@ == params && s.1@
                    == results,
                None => signature matches Err(WasmError::Unsupported(message)) && message@ == (
                if ty_or_ft == TypeOrFuncType::Type(WpType::ExnRef) {
                    "blocktype_params_results: type ExnRef"@
                } else {
                    "blocktype_params_results: type Func"@
                }),
            },
    {
        match ty_or_ft {
            TypeOrFuncType::Type(ty) => match ty {
                WpType::EmptyBlockType => Ok((Vec::new(), Vec::new())),
                WpType::ExnRef => Err(
                    WasmError::Unsupported("blocktype_params_results: type ExnRef".to_string()),
                ),
                WpType::Func => Err(
                    WasmError::Unsupported("blocktype_params_results: type Func".to_string()),
                ),
                _ => {
                    let mut results: Vec<WpType> = Vec::new();
                    results.push(ty);
                    Ok((Vec::new(), results))
                },
            },
            TypeOrFuncType::FuncType(ty_index) => {
                let entry = &self.wasm_types[ty_index as usize];
                Ok((copy_kinds(entry.0.as_slice()), copy_kinds(entry.1.as_slice())))
            },
        }
    }
}

/// Copies a list of kinds of value.
pub fn copy_kinds(kinds: &[WpType]) -> (copy: Vec<WpType>)
    ensures
        copy@ == kinds@,
{
    let mut copy: Vec<WpType> = Vec::new();
    let mut i: usize = 0;
    while i < kinds.len()
        invariant
            i <= kinds@.len(),
            copy@ == kinds@.take(i as int),
        decreases kinds@.len() - i,
    {
        copy.push(kinds[i]);
        i += 1;
    }
    copy
}

} // verus!
