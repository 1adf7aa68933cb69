//! The registry of frame information: from an address in published code back
//! to the function it lies in, the place in the WebAssembly source, and the
//! trap that can occur there.

use crate::compilation::{CompiledFunctionFrameInfo, InstructionAddressMap};
use crate::engine::VMLocalFunction;
use crate::indices::LocalFunctionIndex;
use crate::sig_registry::VMSharedSignatureIndex;
use crate::trap::{TrapCode, TrapInformation};
use vstd::prelude::*;

verus! {

/// A function of a loaded module, as the registry knows it.
#[derive(Debug)]
pub struct RegisteredFunction {
    /// The address of the first byte of the function body.
    pub start: usize,
    /// The length of the function body, in bytes.
    pub len: usize,
    /// The function, among the local functions of its module.
    pub local_index: LocalFunctionIndex,
    /// Where in the body a trap can occur, and which.
    pub traps: Vec<TrapInformation>,
    /// The map from the body to offsets in the source.
    pub address_map: Vec<InstructionAddressMap>,
}

/// Whether the address `pc` lies in the body of `function`.
pub open spec fn contains(function: RegisteredFunction, pc: usize) -> bool {
    function.start <= pc < function.start + function.len
}

/// The position of the first of the first `n` functions whose body holds `pc`.
pub open spec fn function_at(functions: Seq<RegisteredFunction>, pc: usize, n: nat) -> Option<int>
    decreases n,
{
    if n == 0 {
        None
    } else {
        match function_at(functions, pc, (n - 1) as nat) {
            Some(i) => Some(i),
            None => if contains(functions[n - 1], pc) {
                Some(n - 1)
            } else {
                None
            },
        }
    }
}

/// The first of the first `n` trap sites that lies `offset` bytes into the code.
pub open spec fn trap_at(traps: Seq<TrapInformation>, offset: int, n: nat) -> Option<TrapInformation>
    decreases n,
{
    if n == 0 {
        None
    } else {
        match trap_at(traps, offset, (n - 1) as nat) {
            Some(t) => Some(t),
            None => if traps[n - 1].code_offset == offset {
                Some(traps[n - 1])
            } else {
                None
            },
        }
    }
}

/// Whether the instruction that `map` stands for covers the byte `offset`
/// bytes into the code.
pub open spec fn covers(map: InstructionAddressMap, offset: int) -> bool {
    map.code_offset <= offset < map.code_offset + map.code_len
}

/// The source location of the first of the first `n` instructions that
/// covers the byte `offset` bytes into the code.
pub open spec fn srcloc_at(map: Seq<InstructionAddressMap>, offset: int, n: nat) -> Option<u32>
    decreases n,
{
    if n == 0 {
        None
    } else {
        match srcloc_at(map, offset, (n - 1) as nat) {
            Some(srcloc) => Some(srcloc),
            None => if covers(map[n - 1], offset) {
                Some(map[n - 1].srcloc)
            } else {
                None
            },
        }
    }
}

/// What is known of an address in published code.
#[derive(Clone, Copy, Debug, PartialEq, Eq, Structural)]
pub struct FrameInfo {
    /// The function the address lies in, among the local functions of its module.
    pub local_index: LocalFunctionIndex,
    /// How far into the function body the address lies, in bytes.
    pub code_offset: usize,
    /// The offset in the WebAssembly source of the instruction at the
    /// address, where the address map has it.
    pub srcloc: Option<u32>,
}

/// What the registry finds for the address `pc` among `functions`.
pub open spec fn frame_info_at(functions: Seq<RegisteredFunction>, pc: usize) -> Option<FrameInfo> {
    match function_at(functions, pc, functions.len()) {
        None => None,
        Some(i) => Some(
            FrameInfo {
                local_index: functions[i].local_index,
                code_offset: (pc - functions[i].start) as usize,
                srcloc: srcloc_at(
                    functions[i].address_map@,
                    pc - functions[i].start,
                    functions[i].address_map@.len(),
                ),
            },
        ),
    }
}

/// The trap that the registry finds for the address `pc` among `functions`.
pub open spec fn trap_info_at(functions: Seq<RegisteredFunction>, pc: usize) -> Option<
    TrapInformation,
> {
    match function_at(functions, pc, functions.len()) {
        None => None,
        Some(i) => trap_at(functions[i].traps@, pc - functions[i].start, functions[i].traps@.len()),
    }
}

/// Once a search has found something among the first entries, more entries
/// do not change what it finds.
proof fn lemma_function_at_stays(functions: Seq<RegisteredFunction>, pc: usize, n: nat, m: nat)
    requires
        n <= m,
        function_at(functions, pc, n) is Some,
    ensures
        function_at(functions, pc, m) == function_at(functions, pc, n),
    decreases m,
{
    if n < m {
        lemma_function_at_stays(functions, pc, n, (m - 1) as nat);
    }
}

proof fn lemma_trap_at_stays(traps: Seq<TrapInformation>, offset: int, n: nat, m: nat)
    requires
        n <= m,
        trap_at(traps, offset, n) is Some,
    ensures
        trap_at(traps, offset, m) == trap_at(traps, offset, n),
    decreases m,
{
    if n < m {
        lemma_trap_at_stays(traps, offset, n, (m - 1) as nat);
    }
}

proof fn lemma_srcloc_at_stays(map: Seq<InstructionAddressMap>, offset: int, n: nat, m: nat)
    requires
        n <= m,
        srcloc_at(map, offset, n) is Some,
    ensures
        srcloc_at(map, offset, m) == srcloc_at(map, offset, n),
    decreases m,
{
    if n < m {
        lemma_srcloc_at_stays(map, offset, n, (m - 1) as nat);
    }
}

/// The registry of the functions of loaded modules.
#[derive(Debug)]
pub struct FrameInfoRegistry {
    functions: Vec<RegisteredFunction>,
}

impl FrameInfoRegistry {
    /// The registered functions, in the order of registration.
    pub closed spec fn view(&self) -> Seq<RegisteredFunction> {
        self.functions@
    }

    /// A registry that knows no function.
    pub fn new() -> (registry: Self)
        ensures
            registry@ == Seq::<RegisteredFunction>::empty(),
    {
        FrameInfoRegistry { functions: Vec::new() }
    }

    /// Registers the local functions of a loaded module, each with its
    /// frame information, behind what is registered.
    pub fn register(&mut self, functions: &[VMLocalFunction], frame_infos: &[CompiledFunctionFrameInfo])
        requires
            functions@.len() == frame_infos@.len(),
            functions@.len() <= u32::MAX,
        ensures
            final(self)@.len() == old(self)@.len() + functions@.len(),
            forall|i: int| 0 <= i < old(self)@.len() ==> final(self)@[i] == old(self)@[i],
            forall|i: int|
                0 <= i < functions@.len() ==> {
                    let registered = #[trigger] final(self)@[old(self)@.len() + i];
                    &&& registered.start == functions@[i].body.0
                    &&& registered.len == functions@[i].length
                    &&& registered.local_index.index() == i
                    &&& registered.traps@ == frame_infos@[i].traps@
                    &&& registered.address_map@ == frame_infos@[i].address_map@
                },
    {
        let ghost start = self@;
        let mut i: usize = 0;
        while i < functions.len()
            invariant
                i <= functions@.len() == frame_infos@.len(),
                functions@.len() <= u32::MAX,
                self@.len() == start.len() + i,
                forall|k: int| 0 <= k < start.len() ==> self@[k] == start[k],
                forall|k: int|
                    0 <= k < i ==> {
                        let registered = #[trigger] self@[start.len() + k];
                        &&& registered.start == functions@[k].body.0
                        &&& registered.len == functions@[k].length
                        &&& registered.local_index.index() == k
                        &&& registered.traps@ == frame_infos@[k].traps@
                        &&& registered.address_map@ == frame_infos@[k].address_map@
                    },
            decreases functions@.len() - i,
        {
            let info = &frame_infos[i];
            let mut traps: Vec<TrapInformation> = Vec::new();
            let mut t: usize = 0;
            while t < info.traps.len()
                invariant
                    t <= info.traps@.len(),
                    traps@ == info.traps@.take(t as int),
                decreases info.traps@.len() - t,
            {
                traps.push(info.traps[t]);
                t += 1;
            }
            let mut address_map: Vec<InstructionAddressMap> = Vec::new();
            let mut a: usize = 0;
            while a < info.address_map.len()
                invariant
                    a <= info.address_map@.len(),
                    address_map@ == info.address_map@.take(a as int),
                decreases info.address_map@.len() - a,
            {
                address_map.push(info.address_map[a]);
                a += 1;
            }
            self.functions.push(
                RegisteredFunction {
                    start: functions[i].body.0,
                    len: functions[i].length as usize,
                    local_index: LocalFunctionIndex::new(i),
                    traps,
                    address_map,
                },
            );
            i += 1;
        }
    }

    /// The position of the registered function whose body holds `pc`.
    fn find(&self, pc: usize) -> (found: Option<usize>)
        ensures
            found is Some <==> function_at(self@, pc, self@.len()) is Some,
            found matches Some(i) ==> function_at(self@, pc, self@.len()) == Some(i as int) && i
                < self@.len() && contains(self@[i as int], pc),
    {
        let mut i: usize = 0;
        while i < self.functions.len()
            invariant
                i <= self@.len(),
                function_at(self@, pc, i as nat) is None,
            decreases self@.len() - i,
        {
            let function = &self.functions[i];
            if function.start <= pc && pc - function.start < function.len {
                proof {
                    lemma_function_at_stays(self@, pc, (i + 1) as nat, self@.len());
                }
                return Some(i);
            }
            i += 1;
        }
        None
    }

    /// Looks up what is known of the address `pc`: the function it lies in,
    /// how far into it, and the place in the source.
    #[verifier::loop_isolation(false)]
    pub fn lookup_frame_info(&self, pc: usize) -> (info: Option<FrameInfo>)
        ensures
            info == frame_info_at(self@, pc),
    {
        let position = match self.find(pc) {
            Some(position) => position,
            None => {
                return None;
            },
        };
        let function = &self.functions[position];
        let offset = pc - function.start;
        let mut srcloc: Option<u32> = None;
        let mut i: usize = 0;
        while i < function.address_map.len()
            invariant
                i <= function.address_map@.len(),
                srcloc is None,
                srcloc_at(function.address_map@, offset as int, i as nat) is None,
            decreases function.address_map@.len() - i,
        {
            let map = function.address_map[i];
            if map.code_offset <= offset && offset - map.code_offset < map.code_len {
                proof {
                    lemma_srcloc_at_stays(
                        function.address_map@,
                        offset as int,
                        (i + 1) as nat,
                        function.address_map@.len(),
                    );
                }
                return Some(
                    FrameInfo {
                        local_index: function.local_index,
                        code_offset: offset,
                        srcloc: Some(map.srcloc),
                    },
                );
            }
            i += 1;
        }
        Some(FrameInfo { local_index: function.local_index, code_offset: offset, srcloc })
    }

    /// Looks up the trap that can occur at the address `pc`.
    #[verifier::loop_isolation(false)]
    pub fn lookup_trap_info(&self, pc: usize) -> (trap: Option<TrapInformation>)
        ensures
            trap == trap_info_at(self@, pc),
    {
        let position = match self.find(pc) {
            Some(position) => position,
            None => {
                return None;
            },
        };
        let function = &self.functions[position];
        let offset = pc - function.start;
        let mut i: usize = 0;
        while i < function.traps.len()
            invariant
                i <= function.traps@.len(),
                trap_at(function.traps@, offset as int, i as nat) is None,
            decreases function.traps@.len() - i,
        {
            let trap = function.traps[i];
            if trap.code_offset as usize == offset {
                proof {
                    lemma_trap_at_stays(
                        function.traps@,
                        offset as int,
                        (i + 1) as nat,
                        function.traps@.len(),
                    );
                }
                return Some(trap);
            }
            i += 1;
        }
        None
    }
}

/// An entry of a table of functions: the function, its registered
/// signature, and the context it is called in.
#[derive(Clone, Copy, Debug, PartialEq, Eq, Structural)]
pub struct VMCallerCheckedAnyfunc {
    /// The address of the function body.
    pub func_ptr: usize,
    /// The signature of the function, as registered with the engine.
    pub type_index: VMSharedSignatureIndex,
    /// The address of the context the function is called in.
    pub vmctx: usize,
}

/// What an indirect call through `table` at `index` does, where the caller
/// expects a function of the signature `expected`: an index past the end of
/// the table, an empty entry and an entry of another signature each trap;
/// else the entry is called.
pub open spec fn indirect_call(
    table: Seq<Option<VMCallerCheckedAnyfunc>>,
    index: u32,
    expected: VMSharedSignatureIndex,
) -> Result<VMCallerCheckedAnyfunc, TrapCode> {
    if index >= table.len() {
        Err(TrapCode::TableOutOfBounds)
    } else {
        match table[index as int] {
            None => Err(TrapCode::IndirectCallToNull),
            Some(entry) => if entry.type_index != expected {
                Err(TrapCode::BadSignature)
            } else {
                Ok(entry)
            },
        }
    }
}

/// The checks that the code compiled for an indirect call makes before it
/// calls: the entry of the table to call, or the trap.
pub fn check_indirect_call(
    table: &[Option<VMCallerCheckedAnyfunc>],
    index: u32,
    expected: VMSharedSignatureIndex,
) -> (callee: Result<VMCallerCheckedAnyfunc, TrapCode>)
    ensures
        callee == indirect_call(table@, index, expected),
{
    if index as usize >= table.len() {
        return Err(TrapCode::TableOutOfBounds);
    }
    match table[index as usize] {
        None => Err(TrapCode::IndirectCallToNull),
        Some(entry) => if entry.type_index != expected {
            Err(TrapCode::BadSignature)
        } else {
            Ok(entry)
        },
    }
}

} // verus!
