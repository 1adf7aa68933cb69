//! Instances: the configuration of an instance, gas metering, and the errors
//! of instantiation.

use crate::artifact::UniversalArtifact;
use crate::compilation::OwnedDataInitializer;
use crate::engine::Tunables;
use crate::indices::FunctionIndex;
use crate::module::{GlobalInit, OwnedTableInitializer};
use crate::resolver::{
    may_link, resolve_imports, Imports, ImportsView, LinkError, LinkErrorView, Resolver,
};
use crate::types::{MemoryStyle, MemoryType, TableStyle, TableType};
use crate::types::GlobalType;
use crate::target::{all_features, feature_name, has_feature, set_has, CpuFeature};
use crate::trap::TrapCode;
use vstd::prelude::*;

verus! {

/// The largest cost of an opcode that gas metering works with: the largest `i32`.
pub const MAX_OPCODE_COST: u64 = 0x7FFF_FFFF;

/// The gas counter of an instance. Compiled code reads and updates it.
#[derive(Clone, Copy, Debug, PartialEq, Eq, Structural)]
pub struct FastGasCounter {
    /// The amount of gas that was irreversibly used for contract execution.
    pub burnt_gas: u64,
    /// Hard gas limit for execution
    pub gas_limit: u64,
    /// Single WASM opcode cost
    pub opcode_cost: u64,
}

/// The gas burnt once `count` opcodes have been charged: what was burnt
/// before plus `count` times the cost of an opcode, or the largest `u64` if
/// that is less.
pub open spec fn charged(counter: FastGasCounter, count: u64) -> u64 {
    if counter.burnt_gas + count * counter.opcode_cost > u64::MAX {
        u64::MAX
    } else {
        (counter.burnt_gas + count * counter.opcode_cost) as u64
    }
}

impl FastGasCounter {
    /// A counter that has burnt nothing.
    pub fn new(limit: u64, opcode: u64) -> (counter: Self)
        ensures
            counter == (FastGasCounter { burnt_gas: 0, gas_limit: limit, opcode_cost: opcode }),
    {
        FastGasCounter { burnt_gas: 0, gas_limit: limit, opcode_cost: opcode }
    }

    /// Whether no more gas has been burnt than the limit allows.
    pub open spec fn within_limit(&self) -> bool {
        self.burnt_gas <= self.gas_limit
    }

    /// Charges for `count` opcodes, as the code compiled for a gas
    /// intrinsic does: the gas is burnt whether or not the limit allows it,
    /// and burning more than the limit allows traps.
    pub fn burn(&mut self, count: u64) -> (charge: Result<(), TrapCode>)
        ensures
            *final(self) == (FastGasCounter { burnt_gas: charged(*old(self), count), ..*old(self) }),
            charge is Ok <==> final(self).within_limit(),
            charge is Err ==> charge == Err::<(), TrapCode>(TrapCode::GasLimitExceeded),
    {
        assert(0 <= count * self.opcode_cost <= 0xFFFF_FFFF_FFFF_FFFF * 0xFFFF_FFFF_FFFF_FFFF)
            by (nonlinear_arith)
            requires
                0 <= count <= 0xFFFF_FFFF_FFFF_FFFF,
                0 <= self.opcode_cost <= 0xFFFF_FFFF_FFFF_FFFF,
        ;
        let total: u128 = self.burnt_gas as u128 + (count as u128) * (self.opcode_cost as u128);
        self.burnt_gas = if total > u64::MAX as u128 {
            u64::MAX
        } else {
            total as u64
        };
        if self.burnt_gas > self.gas_limit {
            Err(TrapCode::GasLimitExceeded)
        } else {
            Ok(())
        }
    }

    /// The gas that is left before the limit is reached.
    pub fn remaining(&self) -> (left: u64)
        ensures
            left == if self.burnt_gas <= self.gas_limit {
                (self.gas_limit - self.burnt_gas) as u64
            } else {
                0u64
            },
    {
        if self.burnt_gas <= self.gas_limit {
            self.gas_limit - self.burnt_gas
        } else {
            0
        }
    }
}

/// Burning gas never gives gas back: once the limit is exceeded, every
/// further charge, whatever its size, finds it exceeded.
pub proof fn lemma_gas_stays_exceeded(counter: FastGasCounter, count: u64)
    ensures
        counter.burnt_gas <= charged(counter, count),
        !counter.within_limit() ==> !(FastGasCounter {
            burnt_gas: charged(counter, count),
            ..counter
        }).within_limit(),
{
}

/// The counter once the first `n` of `counts` have been charged in order,
/// as far as the limit allows: after the charge that exceeds the limit
/// nothing more runs, so nothing more is charged.
pub open spec fn charged_all(counter: FastGasCounter, counts: Seq<u64>, n: nat) -> FastGasCounter
    decreases n,
{
    if n == 0 {
        counter
    } else {
        let before = charged_all(counter, counts, (n - 1) as nat);
        if before.within_limit() {
            FastGasCounter { burnt_gas: charged(before, counts[n - 1]), ..before }
        } else {
            before
        }
    }
}

/// The gas that the first `n` of `counts` cost, at `cost` for an opcode.
pub open spec fn gas_of(counts: Seq<u64>, n: nat, cost: u64) -> nat
    decreases n,
{
    if n == 0 {
        0
    } else {
        gas_of(counts, (n - 1) as nat, cost) + (counts[n - 1] * cost) as nat
    }
}

/// Gas metering over a run of charges, from a counter within its limit.
///
/// The limit and the cost of an opcode stay as they are. While the limit
/// is not exceeded, it was exceeded at no charge before, and the gas burnt is what was burnt before plus the cost of
/// every charge so far, unless that is more than the largest `u64`, which
/// only a limit of that size lets through. Once it is exceeded, one charge
/// has crossed it: before that charge the counter was within its limit, and
/// the gas burnt is what that charge left, the sum up to and including it or
/// the largest `u64` if that is less.
pub proof fn lemma_gas_over_a_run(counter: FastGasCounter, counts: Seq<u64>, n: nat)
    requires
        counter.within_limit(),
        n <= counts.len(),
    ensures
        charged_all(counter, counts, n).gas_limit == counter.gas_limit,
        charged_all(counter, counts, n).opcode_cost == counter.opcode_cost,
        charged_all(counter, counts, n).within_limit() ==> forall|k: nat|
            k <= n ==> (#[trigger] charged_all(counter, counts, k)).within_limit(),
        charged_all(counter, counts, n).within_limit() ==> charged_all(counter, counts, n).burnt_gas
            == if counter.burnt_gas + gas_of(counts, n, counter.opcode_cost) > u64::MAX {
            u64::MAX as int
        } else {
            counter.burnt_gas + gas_of(counts, n, counter.opcode_cost)
        },
        charged_all(counter, counts, n).within_limit() && counter.gas_limit < u64::MAX
            ==> charged_all(counter, counts, n).burnt_gas == counter.burnt_gas + gas_of(
            counts,
            n,
            counter.opcode_cost,
        ),
        !charged_all(counter, counts, n).within_limit() ==> exists|k: nat|
            k < n && (#[trigger] charged_all(counter, counts, k)).within_limit() && charged_all(
                counter,
                counts,
                n,
            ).burnt_gas == charged(charged_all(counter, counts, k), counts[k as int])
                && charged_all(counter, counts, n).burnt_gas == if counter.burnt_gas + gas_of(
                counts,
                k + 1,
                counter.opcode_cost,
            ) > u64::MAX {
                u64::MAX as int
            } else {
                counter.burnt_gas + gas_of(counts, k + 1, counter.opcode_cost)
            },
    decreases n,
{
    if n > 0 {
        let m = (n - 1) as nat;
        lemma_gas_over_a_run(counter, counts, m);
        let before = charged_all(counter, counts, m);
        assert(0 <= counts[n - 1] * counter.opcode_cost) by (nonlinear_arith);
        if before.within_limit() {
            if !charged_all(counter, counts, n).within_limit() {
                assert(charged_all(counter, counts, m).within_limit());
            }
        } else {
            let k = choose|k: nat|
                k < m && (#[trigger] charged_all(counter, counts, k)).within_limit() && before.burnt_gas
                    == charged(charged_all(counter, counts, k), counts[k as int]) && before.burnt_gas
                    == if counter.burnt_gas + gas_of(counts, k + 1, counter.opcode_cost) > u64::MAX {
                    u64::MAX as int
                } else {
                    counter.burnt_gas + gas_of(counts, k + 1, counter.opcode_cost)
                };
            assert(k < n && charged_all(counter, counts, k).within_limit());
        }
    }
}

/// The configuration of an instance.
#[derive(Clone, Copy, Debug, PartialEq, Eq, Structural)]
pub struct InstanceConfig {
    /// The gas counter that compiled code charges.
    pub gas_counter: FastGasCounter,
    /// The bytes of native stack above which the prologue of a function traps.
    pub stack_limit: u64,
}

/// Why the environment of the host could not be set up.
#[derive(Clone, Copy, Debug, PartialEq, Eq, Structural)]
pub enum HostEnvInitError {
    /// The cost of an opcode is too large for gas metering.
    IncorrectGasMeteringConfig,
}

/// A runtime error: guest code trapped.
#[derive(Clone, Copy, Debug, PartialEq, Eq, Structural)]
pub struct RuntimeError {
    /// Why the guest code was interrupted.
    pub trap: TrapCode,
    /// The function in which it happened, if known.
    pub function: Option<u32>,
    /// The offset in the WebAssembly code at which it happened, if known.
    pub code_offset: Option<u32>,
}

impl RuntimeError {
    /// The runtime error that a trap gives.
    pub fn from_trap(trap: TrapCode) -> (error: Self)
        ensures
            error == (RuntimeError { trap, function: None, code_offset: None }),
    {
        RuntimeError { trap, function: None, code_offset: None }
    }

    /// What the error means, in words.
    pub fn message(&self) -> (text: &'static str)
        ensures
            text@ == crate::trap::trap_message(self.trap),
    {
        self.trap.message()
    }
}

/// An error while instantiating a module.
///
/// This is not a common WebAssembly error, however
/// we need to differentiate from a `LinkError` (an error
/// that happens while linking, on instantiation), a
/// Trap that occurs when calling the WebAssembly module
/// start function, and an error when initializing the user's
/// host environments.
#[derive(Debug)]
pub enum InstantiationError {
    /// A linking ocurred during instantiation.
    Link(LinkError),
    /// A runtime error occured while invoking the start function
    Start(RuntimeError),
    /// The module was compiled with a CPU feature that is not available on
    /// the current host.
    CpuFeature(String),
    /// Error occurred when initializing the host environment.
    HostEnvInitialization(HostEnvInitError),
}

/// What an instantiation error says.
pub enum InstantiationErrorView {
    /// A linking ocurred during instantiation.
    Link(LinkErrorView),
    /// A runtime error occured while invoking the start function
    Start(RuntimeError),
    /// The module was compiled with a CPU feature that is not available on
    /// the current host.
    CpuFeature(Seq<char>),
    /// Error occurred when initializing the host environment.
    HostEnvInitialization(HostEnvInitError),
}

impl View for InstantiationError {
    type V = InstantiationErrorView;

    open spec fn view(&self) -> InstantiationErrorView {
        match *self {
            InstantiationError::Link(e) => InstantiationErrorView::Link(e@),
            InstantiationError::Start(e) => InstantiationErrorView::Start(e),
            InstantiationError::CpuFeature(e) => InstantiationErrorView::CpuFeature(e@),
            InstantiationError::HostEnvInitialization(e) => InstantiationErrorView::HostEnvInitialization(
                e,
            ),
        }
    }
}

/// Checks the configuration of an instance: gas metering counts on the cost
/// of an opcode being at most the largest `i32`.
pub fn check_config(config: &InstanceConfig) -> (checked: Result<(), InstantiationError>)
    ensures
        checked is Ok <==> config.gas_counter.opcode_cost <= MAX_OPCODE_COST,
        checked matches Err(error) ==> error@ == InstantiationErrorView::HostEnvInitialization(
            HostEnvInitError::IncorrectGasMeteringConfig,
        ),
{
    if config.gas_counter.opcode_cost > MAX_OPCODE_COST {
        // Fast gas counter logic assumes that individual opcode cost is not too big.
        return Err(
            InstantiationError::HostEnvInitialization(HostEnvInitError::IncorrectGasMeteringConfig),
        );
    }
    Ok(())
}

/// The names of those of the first `n` CPU features that `required` has and
/// `host` has not, each followed by a space.
pub open spec fn missing_features(required: u64, host: u64, n: nat) -> Seq<char>
    decreases n,
{
    if n == 0 {
        Seq::empty()
    } else {
        let before = missing_features(required, host, (n - 1) as nat);
        let feature = all_features()[n - 1];
        if has_feature(required, feature) && !has_feature(host, feature) {
            before + feature_name(feature) + " "@
        } else {
            before
        }
    }
}

/// Checks that the host has the CPU features that an artifact was compiled
/// for: where it lacks some, instantiation fails and names them.
pub fn check_cpu_features(required: u64, host: u64) -> (checked: Result<(), InstantiationError>)
    ensures
        checked is Ok <==> missing_features(required, host, 14).len() == 0,
        checked matches Err(error) ==> error@ == InstantiationErrorView::CpuFeature(
            missing_features(required, host, 14),
        ),
{
    let features = CpuFeature::all();
    let mut missing = String::new();
    let mut n: usize = 0;
    while n < 14
        invariant
            n <= 14,
            features@ == all_features(),
            missing@ == missing_features(required, host, n as nat),
        decreases 14 - n,
    {
        let feature = features[n];
        if set_has(required, feature) && !set_has(host, feature) {
            let named = crate::text::joined(missing.as_str(), feature.name());
            missing = crate::text::joined(named.as_str(), " ");
        }
        n += 1;
    }
    if missing.as_str().is_empty() {
        Ok(())
    } else {
        Err(InstantiationError::CpuFeature(missing))
    }
}

/// What an instance is made of before it is finished: its resolved imports,
/// and the definitions of its own memories, tables and globals.
#[derive(Debug)]
pub struct InstanceHandle {
    /// The resolved imports.
    pub imports: Imports,
    /// The address of the definition of each local memory.
    pub memories: Vec<usize>,
    /// The address of the definition of each local table.
    pub tables: Vec<usize>,
    /// The type of each local global, and the value it starts with.
    pub globals: Vec<(GlobalType, GlobalInit)>,
    /// The configuration of the instance.
    pub config: InstanceConfig,
}

/// The error for a memory that the tunables could not create.
pub fn memory_creation_failed(reason: &str) -> (error: InstantiationError)
    ensures
        error@ == InstantiationErrorView::Link(
            LinkErrorView::Resource("Failed to create memory: "@ + reason@),
        ),
{
    InstantiationError::Link(
        LinkError::Resource(crate::text::joined("Failed to create memory: ", reason)),
    )
}

/// The error for a table that the tunables could not create.
pub fn table_creation_failed(reason: String) -> (error: InstantiationError)
    ensures
        error@ == InstantiationErrorView::Link(LinkErrorView::Resource(reason@)),
{
    InstantiationError::Link(LinkError::Resource(reason))
}

/// Whether `created` are the definitions that `tunables` may create for
/// the first of the memories `wanted`, one for each, in order.
pub open spec fn memories_created<T: Tunables>(
    tunables: T,
    wanted: Seq<(MemoryType, MemoryStyle)>,
    created: Seq<usize>,
) -> bool {
    &&& created.len() <= wanted.len()
    &&& forall|i: int|
        0 <= i < created.len() ==> tunables.may_create_memory(
            wanted[i].0,
            wanted[i].1,
            i as usize,
            Ok::<usize, String>(#[trigger] created[i]),
        )
}

/// Whether `created` are the definitions that `tunables` may create for
/// the first of the tables `wanted`, one for each, in order.
pub open spec fn tables_created<T: Tunables>(
    tunables: T,
    wanted: Seq<(TableType, TableStyle)>,
    created: Seq<usize>,
) -> bool {
    &&& created.len() <= wanted.len()
    &&& forall|i: int|
        0 <= i < created.len() ==> tunables.may_create_table(
            wanted[i].0,
            wanted[i].1,
            i as usize,
            Ok::<usize, String>(#[trigger] created[i]),
        )
}

/// Whether instantiation may fail with `error` at a memory: the imports are
/// linked, the memories `created` are made, and the tunables may refuse the
/// next one for `reason`.
pub open spec fn fails_at_memory<T: Tunables, R: Resolver>(
    artifact: UniversalArtifact,
    tunables: T,
    resolver: R,
    linked: ImportsView,
    created: Seq<usize>,
    reason: String,
    error: InstantiationErrorView,
) -> bool {
    &&& may_link(
        resolver,
        artifact.imports@,
        artifact.dynamic_function_trampolines@,
        Ok(linked),
    )
    &&& memories_created(tunables, artifact.local_memories@, created)
    &&& created.len() < artifact.local_memories@.len()
    &&& tunables.may_create_memory(
        artifact.local_memories@[created.len() as int].0,
        artifact.local_memories@[created.len() as int].1,
        created.len() as usize,
        Err(reason),
    )
    &&& error == InstantiationErrorView::Link(
        LinkErrorView::Resource("Failed to create memory: "@ + reason@),
    )
}

/// Whether instantiation may fail with `error` at a table: the imports are
/// linked, all memories and the tables `created` are made, and the
/// tunables may refuse the next table for `reason`.
pub open spec fn fails_at_table<T: Tunables, R: Resolver>(
    artifact: UniversalArtifact,
    tunables: T,
    resolver: R,
    linked: ImportsView,
    memories: Seq<usize>,
    created: Seq<usize>,
    reason: String,
    error: InstantiationErrorView,
) -> bool {
    &&& may_link(
        resolver,
        artifact.imports@,
        artifact.dynamic_function_trampolines@,
        Ok(linked),
    )
    &&& memories_created(tunables, artifact.local_memories@, memories)
    &&& memories.len() == artifact.local_memories@.len()
    &&& tables_created(tunables, artifact.local_tables@, created)
    &&& created.len() < artifact.local_tables@.len()
    &&& tunables.may_create_table(
        artifact.local_tables@[created.len() as int].0,
        artifact.local_tables@[created.len() as int].1,
        created.len() as usize,
        Err(reason),
    )
    &&& error == InstantiationErrorView::Link(LinkErrorView::Resource(reason@))
}

/// Whether instantiation may fail with `error`: at the first import that
/// cannot be linked, or else at the first memory or table that the tunables
/// do not create.
pub open spec fn may_fail_with<T: Tunables, R: Resolver>(
    artifact: UniversalArtifact,
    tunables: T,
    resolver: R,
    error: InstantiationErrorView,
) -> bool {
    ||| error matches InstantiationErrorView::Link(e) && may_link(
        resolver,
        artifact.imports@,
        artifact.dynamic_function_trampolines@,
        Err(e),
    )
    ||| exists|linked: ImportsView, created: Seq<usize>, reason: String| #[trigger]
        fails_at_memory(artifact, tunables, resolver, linked, created, reason, error)
    ||| exists|linked: ImportsView, memories: Seq<usize>, created: Seq<usize>, reason: String|
     #[trigger]
        fails_at_table(artifact, tunables, resolver, linked, memories, created, reason, error)
}

/// Crate an instance from an artifact: resolves the imports, and has the
/// tunables create the memories and tables of the instance, in order.
///
/// The first import that cannot be linked, and else the first memory or
/// table that cannot be created, gives a link error; nothing is resolved or
/// created after it.
pub fn instantiate<T: Tunables, R: Resolver>(
    artifact: &UniversalArtifact,
    tunables: &T,
    resolver: &R,
    config: InstanceConfig,
) -> (instance: Result<InstanceHandle, InstantiationError>)
    ensures
        match instance {
            Ok(handle) => {
                &&& may_link(
                    *resolver,
                    artifact.imports@,
                    artifact.dynamic_function_trampolines@,
                    Ok(handle.imports@),
                )
                &&& handle.memories@.len() == artifact.local_memories@.len()
                &&& memories_created(*tunables, artifact.local_memories@, handle.memories@)
                &&& handle.tables@.len() == artifact.local_tables@.len()
                &&& tables_created(*tunables, artifact.local_tables@, handle.tables@)
                &&& handle.globals@ == artifact.local_globals@
                &&& handle.config == config
            },
            Err(error) => may_fail_with(*artifact, *tunables, *resolver, error@),
        },
        artifact.imports@.len() == 0 && artifact.local_memories@.len() == 0
            && artifact.local_tables@.len() == 0 ==> instance is Ok,
{
    let imports = match resolve_imports(
        resolver,
        artifact.imports.as_slice(),
        artifact.dynamic_function_trampolines.as_slice(),
    ) {
        Ok(imports) => imports,
        Err(error) => {
            return Err(InstantiationError::Link(error));
        },
    };
    // Memories
    let mut memories: Vec<usize> = Vec::new();
    let mut m: usize = 0;
    while m < artifact.local_memories.len()
        invariant
            m <= artifact.local_memories@.len(),
            memories@.len() == m,
            memories_created(*tunables, artifact.local_memories@, memories@),
            may_link(
                *resolver,
                artifact.imports@,
                artifact.dynamic_function_trampolines@,
                Ok(imports@),
            ),
        decreases artifact.local_memories@.len() - m,
    {
        let (ty, style) = artifact.local_memories[m];
        match tunables.create_vm_memory(&ty, &style, m) {
            Ok(memory) => memories.push(memory),
            Err(reason) => {
                let error = memory_creation_failed(reason.as_str());
                assert(fails_at_memory(
                    *artifact,
                    *tunables,
                    *resolver,
                    imports@,
                    memories@,
                    reason,
                    error@,
                ));
                return Err(error);
            },
        }
        m += 1;
    }
    // Tables
    let mut tables: Vec<usize> = Vec::new();
    let mut t: usize = 0;
    while t < artifact.local_tables.len()
        invariant
            t <= artifact.local_tables@.len(),
            tables@.len() == t,
            tables_created(*tunables, artifact.local_tables@, tables@),
            memories@.len() == artifact.local_memories@.len(),
            memories_created(*tunables, artifact.local_memories@, memories@),
            may_link(
                *resolver,
                artifact.imports@,
                artifact.dynamic_function_trampolines@,
                Ok(imports@),
            ),
        decreases artifact.local_tables@.len() - t,
    {
        let (ty, style) = artifact.local_tables[t];
        match tunables.create_vm_table(&ty, &style, t) {
            Ok(table) => tables.push(table),
            Err(reason) => {
                let ghost said = reason;
                let error = table_creation_failed(reason);
                assert(fails_at_table(
                    *artifact,
                    *tunables,
                    *resolver,
                    imports@,
                    memories@,
                    tables@,
                    said,
                    error@,
                ));
                return Err(error);
            },
        }
        t += 1;
    }
    // Globals
    let mut globals: Vec<(GlobalType, GlobalInit)> = Vec::new();
    let mut g: usize = 0;
    while g < artifact.local_globals.len()
        invariant
            g <= artifact.local_globals@.len(),
            globals@ == artifact.local_globals@.take(g as int),
        decreases artifact.local_globals@.len() - g,
    {
        globals.push(artifact.local_globals[g]);
        g += 1;
    }
    Ok(InstanceHandle { imports, memories, tables, globals, config })
}

/// A memory with `data` written over what it held from position `start`.
pub open spec fn with_segment(memory: Seq<u8>, start: int, data: Seq<u8>) -> Seq<u8> {
    memory.subrange(0, start) + data + memory.subrange(start + data.len(), memory.len() as int)
}

/// Copies a data segment into a memory, from position `start`.
///
/// A segment that does not lie within the memory traps, and the memory
/// stays as it is.
pub fn write_data_segment(memory: &mut Vec<u8>, start: usize, data: &[u8]) -> (written: Result<
    (),
    TrapCode,
>)
    ensures
        written is Ok <==> start + data@.len() <= old(memory)@.len(),
        written is Ok ==> final(memory)@ == with_segment(old(memory)@, start as int, data@),
        written is Err ==> written == Err::<(), TrapCode>(TrapCode::MemoryOutOfBounds)
            && final(memory)@ == old(memory)@,
{
    let len = memory.len();
    if start > len || data.len() > len - start {
        return Err(TrapCode::MemoryOutOfBounds);
    }
    let ghost before = memory@;
    let mut i: usize = 0;
    while i < data.len()
        invariant
            i <= data@.len(),
            start + data@.len() <= before.len() == len,
            memory@.len() == before.len(),
            memory@ == with_segment(before, start as int, data@.take(i as int)),
        decreases data@.len() - i,
    {
        memory.set(start + i, data[i]);
        i += 1;
    }
    Ok(())
}

/// Writes an element segment into a table, from position `start`.
///
/// A segment that does not lie within the table traps, and the table stays
/// as it is.
pub fn write_element_segment(
    table: &mut Vec<Option<FunctionIndex>>,
    start: usize,
    elements: &[FunctionIndex],
) -> (written: Result<(), TrapCode>)
    ensures
        written is Ok <==> start + elements@.len() <= old(table)@.len(),
        written is Ok ==> final(table)@ == with_elements(old(table)@, start as int, elements@),
        written is Err ==> written == Err::<(), TrapCode>(TrapCode::TableOutOfBounds)
            && final(table)@ == old(table)@,
{
    let len = table.len();
    if start > len || elements.len() > len - start {
        return Err(TrapCode::TableOutOfBounds);
    }
    let ghost before = table@;
    let mut i: usize = 0;
    while i < elements.len()
        invariant
            i <= elements@.len(),
            start + elements@.len() <= before.len() == len,
            table@.len() == before.len(),
            forall|k: int|
                0 <= k < table@.len() ==> #[trigger] table@[k] == if start <= k < start + i {
                    Some(elements@[k - start])
                } else {
                    before[k]
                },
        decreases elements@.len() - i,
    {
        table.set(start + i, Some(elements[i]));
        i += 1;
    }
    Ok(())
}

/// Where a segment starts: its offset, counted from the value of its base
/// global where it has one. A start that does not fit in 32 bits is none.
pub open spec fn segment_start(base: Option<u32>, offset: int) -> Option<int> {
    let start = match base {
        Some(value) => value + offset,
        None => offset,
    };
    if start <= u32::MAX {
        Some(start)
    } else {
        None
    }
}

/// Where a segment starts: its offset, counted from the value of its base
/// global where it has one.
pub fn start_of_segment(base: Option<u32>, offset: usize) -> (start: Option<usize>)
    ensures
        match segment_start(base, offset as int) {
            Some(s) => start == Some(s as usize),
            None => start is None,
        },
{
    let start: u128 = match base {
        Some(value) => value as u128 + offset as u128,
        None => offset as u128,
    };
    if start <= u32::MAX as u128 {
        Some(start as usize)
    } else {
        None
    }
}

/// The memory at `index` once the first `n` data segments have been
/// copied in, in order, and whether one of them trapped: a segment for
/// another memory is passed over, and the first segment that does not lie
/// within the memory traps and ends the copying. `bases` holds the value of
/// the base global of each segment, where it has one.
pub open spec fn memory_initialized(
    memory: Seq<u8>,
    index: int,
    segments: Seq<OwnedDataInitializer>,
    bases: Seq<Option<u32>>,
    n: nat,
) -> (Seq<u8>, bool)
    decreases n,
{
    if n == 0 {
        (memory, false)
    } else {
        let (before, trapped) = memory_initialized(memory, index, segments, bases, (n - 1) as nat);
        let segment = segments[n - 1];
        if trapped || segment.location.memory_index.index() != index {
            (before, trapped)
        } else {
            match segment_start(bases[n - 1], segment.location.offset as int) {
                Some(start) => if start + segment.data@.len() <= before.len() {
                    (with_segment(before, start, segment.data@), false)
                } else {
                    (before, true)
                },
                None => (before, true),
            }
        }
    }
}

/// Copies the data segments of the memory at `index` into it, in order.
///
/// The first segment that does not lie within the memory traps: the
/// segments before it have been copied, it and those after it have not.
pub fn initialize_memory(
    memory: &mut Vec<u8>,
    index: usize,
    segments: &[OwnedDataInitializer],
    bases: &[Option<u32>],
) -> (initialized: Result<(), TrapCode>)
    requires
        segments@.len() == bases@.len(),
    ensures
        final(memory)@ == memory_initialized(
            old(memory)@,
            index as int,
            segments@,
            bases@,
            segments@.len(),
        ).0,
        initialized is Err <==> memory_initialized(
            old(memory)@,
            index as int,
            segments@,
            bases@,
            segments@.len(),
        ).1,
        initialized is Err ==> initialized == Err::<(), TrapCode>(TrapCode::MemoryOutOfBounds),
{
    let ghost start = memory@;
    let mut n: usize = 0;
    while n < segments.len()
        invariant
            n <= segments@.len() == bases@.len(),
            start == old(memory)@,
            memory_initialized(start, index as int, segments@, bases@, n as nat) == (memory@, false),
        decreases segments@.len() - n,
    {
        let segment = &segments[n];
        if segment.location.memory_index.index() == index {
            let written = match start_of_segment(bases[n], segment.location.offset) {
                Some(at) => write_data_segment(memory, at, segment.data.as_slice()),
                None => Err(TrapCode::MemoryOutOfBounds),
            };
            if written.is_err() {
                proof {
                    lemma_memory_trap_stays(
                        start,
                        index as int,
                        segments@,
                        bases@,
                        (n + 1) as nat,
                        segments@.len(),
                    );
                }
                return Err(TrapCode::MemoryOutOfBounds);
            }
        }
        n += 1;
    }
    Ok(())
}

/// Once a segment has trapped, the memory stays as it is.
proof fn lemma_memory_trap_stays(
    memory: Seq<u8>,
    index: int,
    segments: Seq<OwnedDataInitializer>,
    bases: Seq<Option<u32>>,
    n: nat,
    m: nat,
)
    requires
        n <= m,
        memory_initialized(memory, index, segments, bases, n).1,
    ensures
        memory_initialized(memory, index, segments, bases, m) == memory_initialized(
            memory,
            index,
            segments,
            bases,
            n,
        ),
    decreases m,
{
    if n < m {
        lemma_memory_trap_stays(memory, index, segments, bases, n, (m - 1) as nat);
    }
}

/// A table with `elements` written over what it held from position `start`.
pub open spec fn with_elements(
    table: Seq<Option<FunctionIndex>>,
    start: int,
    elements: Seq<FunctionIndex>,
) -> Seq<Option<FunctionIndex>> {
    Seq::new(
        table.len(),
        |i: int|
            if start <= i < start + elements.len() {
                Some(elements[i - start])
            } else {
                table[i]
            },
    )
}

/// The table at `index` once the first `n` element segments have been
/// written into it, in order, and whether one of them trapped: a segment
/// for another table is passed over, and the first segment that does not
/// lie within the table traps and ends the writing.
pub open spec fn table_initialized(
    table: Seq<Option<FunctionIndex>>,
    index: int,
    segments: Seq<OwnedTableInitializer>,
    bases: Seq<Option<u32>>,
    n: nat,
) -> (Seq<Option<FunctionIndex>>, bool)
    decreases n,
{
    if n == 0 {
        (table, false)
    } else {
        let (before, trapped) = table_initialized(table, index, segments, bases, (n - 1) as nat);
        let segment = segments[n - 1];
        if trapped || segment.table_index.index() != index {
            (before, trapped)
        } else {
            match segment_start(bases[n - 1], segment.offset as int) {
                Some(start) => if start + segment.elements@.len() <= before.len() {
                    (with_elements(before, start, segment.elements@), false)
                } else {
                    (before, true)
                },
                None => (before, true),
            }
        }
    }
}

/// Writes the element segments of the table at `index` into it, in order.
///
/// The first segment that does not lie within the table traps: the segments
/// before it have been written, it and those after it have not.
pub fn initialize_table(
    table: &mut Vec<Option<FunctionIndex>>,
    index: usize,
    segments: &[OwnedTableInitializer],
    bases: &[Option<u32>],
) -> (initialized: Result<(), TrapCode>)
    requires
        segments@.len() == bases@.len(),
    ensures
        final(table)@ == table_initialized(
            old(table)@,
            index as int,
            segments@,
            bases@,
            segments@.len(),
        ).0,
        initialized is Err <==> table_initialized(
            old(table)@,
            index as int,
            segments@,
            bases@,
            segments@.len(),
        ).1,
        initialized is Err ==> initialized == Err::<(), TrapCode>(TrapCode::TableOutOfBounds),
{
    let ghost start = table@;
    let mut n: usize = 0;
    while n < segments.len()
        invariant
            n <= segments@.len() == bases@.len(),
            start == old(table)@,
            table_initialized(start, index as int, segments@, bases@, n as nat) == (table@, false),
        decreases segments@.len() - n,
    {
        let segment = &segments[n];
        if segment.table_index.index() == index {
            let written = match start_of_segment(bases[n], segment.offset) {
                Some(at) => write_element_segment(table, at, segment.elements.as_slice()),
                None => Err(TrapCode::TableOutOfBounds),
            };
            if written.is_err() {
                proof {
                    lemma_table_trap_stays(
                        start,
                        index as int,
                        segments@,
                        bases@,
                        (n + 1) as nat,
                        segments@.len(),
                    );
                }
                return Err(TrapCode::TableOutOfBounds);
            }
            proof {
                let at = segment_start(bases@[n as int], segment.offset as int).unwrap();
            }
        }
        n += 1;
    }
    Ok(())
}

/// Once a segment has trapped, the table stays as it is.
proof fn lemma_table_trap_stays(
    table: Seq<Option<FunctionIndex>>,
    index: int,
    segments: Seq<OwnedTableInitializer>,
    bases: Seq<Option<u32>>,
    n: nat,
    m: nat,
)
    requires
        n <= m,
        table_initialized(table, index, segments, bases, n).1,
    ensures
        table_initialized(table, index, segments, bases, m) == table_initialized(
            table,
            index,
            segments,
            bases,
            n,
        ),
    decreases m,
{
    if n < m {
        lemma_table_trap_stays(table, index, segments, bases, n, (m - 1) as nat);
    }
}

/// What finishing an instance gives, from what its start function did: a
/// trap of the start function, if it has one and it trapped, is a start error.
pub fn start_outcome(trap: Option<TrapCode>) -> (outcome: Result<(), InstantiationError>)
    ensures
        match trap {
            None => outcome is Ok,
            Some(code) => outcome matches Err(error) && error@ == InstantiationErrorView::Start(
                RuntimeError { trap: code, function: None, code_offset: None },
            ),
        },
{
    match trap {
        None => Ok(()),
        Some(code) => Err(InstantiationError::Start(RuntimeError::from_trap(code))),
    }
}

/// How much native stack is left for the frames of compiled functions.
#[derive(Clone, Copy, Debug, PartialEq, Eq, Structural)]
pub struct StackMeter {
    /// The bytes of stack that are left.
    pub remaining: u64,
}

impl StackMeter {
    /// A meter for a stack of `stack_limit` bytes, none of them used.
    pub fn new(stack_limit: u64) -> (meter: Self)
        ensures
            meter.remaining == stack_limit,
    {
        StackMeter { remaining: stack_limit }
    }

    /// The check made on entry to a function whose frame takes `frame`
    /// bytes: a frame that does not fit what is left of the stack traps,
    /// and else it is taken from what is left.
    pub fn enter(&mut self, frame: u64) -> (entered: Result<(), TrapCode>)
        ensures
            entered is Ok <==> frame <= old(self).remaining,
            entered is Ok ==> final(self).remaining == old(self).remaining - frame,
            entered is Err ==> entered == Err::<(), TrapCode>(TrapCode::StackOverflow) && *final(self)
                == *old(self),
    {
        if frame > self.remaining {
            return Err(TrapCode::StackOverflow);
        }
        self.remaining -= frame;
        Ok(())
    }

    /// What is done on return from a function whose frame took `frame`
    /// bytes: the frame is given back.
    pub fn leave(&mut self, frame: u64)
        requires
            old(self).remaining + frame <= u64::MAX,
        ensures
            final(self).remaining == old(self).remaining + frame,
    {
        self.remaining += frame;
    }
}

} // verus!
