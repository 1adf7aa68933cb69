//! The machine state that single-pass code generation keeps while it walks a
//! function: which registers hold values, how far the stack frame reaches,
//! and where the locals live.

use crate::emitter::{Emitter, Instruction, Location, Size, GPR, XMM};
use smallvec::SmallVec;
use std::collections::HashSet;
use vstd::prelude::*;

verus! {

broadcast use vstd::std_specs::hash::group_hash_axioms;

/// The kinds of value a location can be asked for.
#[derive(Clone, Copy, Debug, PartialEq, Eq, Structural, Hash)]
pub enum WpType {
    /// 32-bit integer.
    I32,
    /// 64-bit integer.
    I64,
    /// 32-bit float.
    F32,
    /// 64-bit float.
    F64,
    /// 128-bit vector.
    V128,
    /// Function reference.
    FuncRef,
    /// Reference to host data.
    ExternRef,
    /// Exception reference.
    ExnRef,
    /// A function type.
    Func,
    /// The type of a block with no result.
    EmptyBlockType,
}

/// How arguments are passed to a function.
#[derive(Clone, Copy, Debug, PartialEq, Eq, Structural, Hash)]
pub enum CallingConvention {
    /// The System V calling convention.
    SystemV,
    /// The Windows "fastcall" convention.
    WindowsFastcall,
}

/// What the machine state is.
pub struct MachineView {
    /// The general-purpose registers in use.
    pub used_gprs: Set<GPR>,
    /// The XMM registers in use.
    pub used_xmms: Set<XMM>,
    /// How far below the frame pointer the stack reaches, in bytes.
    pub stack_offset: nat,
    /// Where below the frame pointer the saved registers end, once known.
    pub save_area_offset: Option<nat>,
    /// Where below the frame pointer the locals begin.
    pub locals_offset: nat,
}

/// The first register of `order` that is not in `used`.
pub open spec fn first_free<R>(order: Seq<R>, used: Set<R>) -> Option<R>
    decreases order.len(),
{
    if order.len() == 0 {
        None
    } else if !used.contains(order[0]) {
        Some(order[0])
    } else {
        first_free(order.skip(1), used)
    }
}

/// The general-purpose registers that hold values, in the order of preference.
pub open spec fn pickable_gprs() -> Seq<GPR> {
    seq![GPR::RSI, GPR::RDI, GPR::R8, GPR::R9, GPR::R10, GPR::R11]
}

/// The general-purpose registers for scratch use, in the order of preference.
pub open spec fn temp_gprs() -> Seq<GPR> {
    seq![GPR::RAX, GPR::RCX, GPR::RDX]
}

/// The XMM registers that hold values, in the order of preference.
pub open spec fn pickable_xmms() -> Seq<XMM> {
    seq![XMM::XMM3, XMM::XMM4, XMM::XMM5, XMM::XMM6, XMM::XMM7]
}

/// The XMM registers for scratch use, in the order of preference.
pub open spec fn temp_xmms() -> Seq<XMM> {
    seq![XMM::XMM0, XMM::XMM1, XMM::XMM2]
}

/// The callee-saved registers that hold the first locals, in order.
pub open spec fn local_registers() -> Seq<GPR> {
    seq![GPR::R12, GPR::R13, GPR::R14, GPR::RBX]
}

/// Unfolds `first_free` over a list of known length.
proof fn lemma_first_free_unfold<R>(order: Seq<R>, used: Set<R>, k: int)
    requires
        0 <= k <= order.len(),
        forall|i: int| 0 <= i < k ==> used.contains(order[i]),
    ensures
        first_free(order, used) == first_free(order.skip(k), used),
    decreases k,
{
    if k > 0 {
        lemma_first_free_unfold(order, used, k - 1);
        let tail = order.skip(k - 1);
        assert(tail.skip(1) =~= order.skip(k));
    } else {
        assert(order.skip(0) =~= order);
    }
}

/// The locations handed out by one acquisition, in order. They are kept in
/// a small vector, which holds a single location without allocating.
#[verifier::external_body]
pub struct Locations {
    inner: SmallVec<[Location; 1]>,
}

/// The locations that `locations` holds, in order.
pub uninterp spec fn held_locations(locations: Locations) -> Seq<Location>;

/// `SmallVec::new`: a small vector that holds nothing.
#[verifier::external_body]
fn no_locations() -> (locations: Locations)
    ensures
        held_locations(locations) == Seq::<Location>::empty(),
{
    Locations { inner: SmallVec::new() }
}

/// `SmallVec::push`: the value is appended behind what the vector holds.
#[verifier::external_body]
fn push_location(locations: &mut Locations, location: Location)
    ensures
        held_locations(*final(locations)) == held_locations(*old(locations)).push(location),
{
    locations.inner.push(location)
}

/// `SmallVec::as_slice`: what the vector holds, as a slice.
#[verifier::external_body]
fn locations_slice(locations: &Locations) -> (held: &[Location])
    ensures
        held@ == held_locations(*locations),
{
    locations.inner.as_slice()
}

impl View for Locations {
    type V = Seq<Location>;

    open spec fn view(&self) -> Seq<Location> {
        held_locations(*self)
    }
}

impl Locations {
    /// The locations, in the order in which they were acquired.
    pub fn as_slice(&self) -> (held: &[Location])
        ensures
            held@ == self@,
    {
        locations_slice(self)
    }
}

/// Whether a value of this type can be given a location.
pub open spec fn has_location(ty: WpType) -> bool {
    ty is I32 || ty is I64 || ty is F32 || ty is F64 || ty is FuncRef || ty is ExternRef
}

/// The machine after one location is acquired for a value of type `ty`, and
/// the location: a free register where there is one, the lowest in the order
/// of preference, else a new 8-byte stack slot.
pub open spec fn acquire_one(m: MachineView, ty: WpType) -> (MachineView, Location) {
    if ty is F32 || ty is F64 {
        match first_free(pickable_xmms(), m.used_xmms) {
            Some(x) => (MachineView { used_xmms: m.used_xmms.insert(x), ..m }, Location::XMM(x)),
            None => (
                MachineView { stack_offset: m.stack_offset + 8, ..m },
                Location::Memory(GPR::RBP, (-(m.stack_offset + 8)) as i32),
            ),
        }
    } else {
        match first_free(pickable_gprs(), m.used_gprs) {
            Some(x) => (MachineView { used_gprs: m.used_gprs.insert(x), ..m }, Location::GPR(x)),
            None => (
                MachineView { stack_offset: m.stack_offset + 8, ..m },
                Location::Memory(GPR::RBP, (-(m.stack_offset + 8)) as i32),
            ),
        }
    }
}

/// The machine after a location is acquired for each of `tys` in turn, and
/// the locations.
pub open spec fn acquire(m: MachineView, tys: Seq<WpType>) -> (MachineView, Seq<Location>)
    decreases tys.len(),
{
    if tys.len() == 0 {
        (m, Seq::empty())
    } else {
        let (m1, locs) = acquire(m, tys.drop_last());
        let (m2, loc) = acquire_one(m1, tys.last());
        (m2, locs.push(loc))
    }
}

/// The code that adjusts the stack pointer by `delta` bytes, if at all.
pub open spec fn stack_adjustment(grow: bool, delta: nat) -> Seq<Instruction> {
    if delta == 0 {
        Seq::empty()
    } else if grow {
        seq![Instruction::Sub(Size::S64, Location::Imm32(delta as u32), Location::GPR(GPR::RSP))]
    } else {
        seq![Instruction::Add(Size::S64, Location::Imm32(delta as u32), Location::GPR(GPR::RSP))]
    }
}

/// The code emitted when locations are acquired: one `sub` that makes room
/// for all new stack slots, then a zeroing move to each location if asked.
pub open spec fn acquire_code(m: MachineView, tys: Seq<WpType>, zeroed: bool) -> Seq<Instruction> {
    let (after, locs) = acquire(m, tys);
    stack_adjustment(true, (after.stack_offset - m.stack_offset) as nat) + if zeroed {
        Seq::new(locs.len(), |i: int| Instruction::Mov(Size::S64, Location::Imm32(0), locs[i]))
    } else {
        Seq::empty()
    }
}

/// Whether `loc` can be released: a register must be in use, and a stack
/// slot must be the one at the top of the stack.
pub open spec fn can_release_one(m: MachineView, loc: Location, regs: bool, stack: bool) -> bool {
    match loc {
        Location::GPR(x) => regs ==> m.used_gprs.contains(x),
        Location::XMM(x) => regs ==> m.used_xmms.contains(x),
        Location::Memory(GPR::RBP, x) => stack ==> (x < 0 && -x == m.stack_offset && m.stack_offset >= 8),
        _ => true,
    }
}

/// The machine after `loc` is released. `regs` says whether registers are
/// released, `stack` whether stack slots are.
pub open spec fn release_one(m: MachineView, loc: Location, regs: bool, stack: bool) -> MachineView {
    match loc {
        Location::GPR(x) => if regs {
            MachineView { used_gprs: m.used_gprs.remove(x), ..m }
        } else {
            m
        },
        Location::XMM(x) => if regs {
            MachineView { used_xmms: m.used_xmms.remove(x), ..m }
        } else {
            m
        },
        Location::Memory(GPR::RBP, x) => if stack {
            MachineView { stack_offset: if m.stack_offset >= 8 { (m.stack_offset - 8) as nat } else { 0 }, ..m }
        } else {
            m
        },
        _ => m,
    }
}

/// Whether `locs` can be released, last first.
pub open spec fn can_release(m: MachineView, locs: Seq<Location>, regs: bool, stack: bool) -> bool
    decreases locs.len(),
{
    locs.len() == 0 || (can_release_one(m, locs.last(), regs, stack) && can_release(
        release_one(m, locs.last(), regs, stack),
        locs.drop_last(),
        regs,
        stack,
    ))
}

/// The machine after `locs` are released, last first.
pub open spec fn release(m: MachineView, locs: Seq<Location>, regs: bool, stack: bool) -> MachineView
    decreases locs.len(),
{
    if locs.len() == 0 {
        m
    } else {
        release(release_one(m, locs.last(), regs, stack), locs.drop_last(), regs, stack)
    }
}

/// The code emitted when stack slots are released: one `add` that pops them all.
pub open spec fn release_code(m: MachineView, locs: Seq<Location>) -> Seq<Instruction> {
    stack_adjustment(false, (m.stack_offset - release(m, locs, false, true).stack_offset) as nat)
}

/// A register that `first_free` picks stands in the list and is free.
pub proof fn lemma_first_free_is_free<R>(order: Seq<R>, used: Set<R>)
    ensures
        first_free(order, used) matches Some(r) ==> order.contains(r) && !used.contains(r),
        first_free(order, used) is None ==> forall|i: int| 0 <= i < order.len() ==> used.contains(order[i]),
    decreases order.len(),
{
    if order.len() > 0 {
        if used.contains(order[0]) {
            let tail = order.skip(1);
            lemma_first_free_is_free(tail, used);
            if first_free(tail, used) is None {
                assert forall|i: int| 0 <= i < order.len() implies used.contains(order[i]) by {
                    if i > 0 {
                        assert(tail[i - 1] == order[i]);
                    }
                }
            }
        }
    }
}

/// Acquiring locations grows the frame by at most 8 bytes for each, keeps
/// what lies outside the register sets and the stack offset, and gives one
/// location for each type.
pub proof fn lemma_acquire_bounds(m: MachineView, tys: Seq<WpType>)
    ensures
        m.stack_offset <= acquire(m, tys).0.stack_offset <= m.stack_offset + 8 * tys.len(),
        acquire(m, tys).0.save_area_offset == m.save_area_offset,
        acquire(m, tys).0.locals_offset == m.locals_offset,
        acquire(m, tys).1.len() == tys.len(),
        release(acquire(m, tys).0, acquire(m, tys).1, false, true).stack_offset <= acquire(m, tys).0.stack_offset,
    decreases tys.len(),
{
    if tys.len() > 0 {
        lemma_acquire_bounds(m, tys.drop_last());
    }
    lemma_release_shrinks(acquire(m, tys).0, acquire(m, tys).1, false, true);
}

/// Releasing never grows the frame.
pub proof fn lemma_release_shrinks(m: MachineView, locs: Seq<Location>, regs: bool, stack: bool)
    ensures
        release(m, locs, regs, stack).stack_offset <= m.stack_offset,
        release(m, locs, regs, stack).save_area_offset == m.save_area_offset,
        release(m, locs, regs, stack).locals_offset == m.locals_offset,
        !regs ==> release(m, locs, regs, stack).used_gprs == m.used_gprs && release(m, locs, regs, stack).used_xmms == m.used_xmms,
        !stack ==> release(m, locs, regs, stack).stack_offset == m.stack_offset,
    decreases locs.len(),
{
    if locs.len() > 0 {
        lemma_release_shrinks(release_one(m, locs.last(), regs, stack), locs.drop_last(), regs, stack);
    }
}

/// Machine-state discipline is last in, first out: the locations acquired
/// for `tys` can be released, and releasing them gives back the machine as it
/// was before, register sets and stack offset alike.
pub proof fn lemma_release_undoes_acquire(m: MachineView, tys: Seq<WpType>)
    requires
        m.stack_offset + 8 * tys.len() <= i32::MAX,
    ensures
        can_release(acquire(m, tys).0, acquire(m, tys).1, true, true),
        release(acquire(m, tys).0, acquire(m, tys).1, true, true) == m,
    decreases tys.len(),
{
    if tys.len() > 0 {
        let (m1, locs) = acquire(m, tys.drop_last());
        let (m2, loc) = acquire_one(m1, tys.last());
        lemma_release_undoes_acquire(m, tys.drop_last());
        lemma_acquire_bounds(m, tys.drop_last());
        lemma_first_free_is_free(pickable_xmms(), m1.used_xmms);
        lemma_first_free_is_free(pickable_gprs(), m1.used_gprs);
        let all = locs.push(loc);
        assert(all.drop_last() =~= locs);
        let back = release_one(m2, loc, true, true);
        assert(back.used_gprs =~= m1.used_gprs);
        assert(back.used_xmms =~= m1.used_xmms);
    }
}

/// The most locals a function can have for this machine model to lay them out.
pub const MAX_LOCALS: u32 = 999_999;

/// The bytes of stack between two stack probes: one page.
pub const NATIVE_PAGE_SIZE: usize = 4096;

/// The smaller of two numbers.
pub open spec fn least(a: nat, b: nat) -> nat {
    if a <= b {
        a
    } else {
        b
    }
}

/// Where the calling convention passes the argument at position `idx`.
pub open spec fn param_location(idx: nat, calling_convention: CallingConvention) -> Location {
    match calling_convention {
        CallingConvention::WindowsFastcall => if idx == 0 {
            Location::GPR(GPR::RCX)
        } else if idx == 1 {
            Location::GPR(GPR::RDX)
        } else if idx == 2 {
            Location::GPR(GPR::R8)
        } else if idx == 3 {
            Location::GPR(GPR::R9)
        } else {
            Location::Memory(GPR::RBP, (16 + 32 + (idx - 4) * 8) as i32)
        },
        CallingConvention::SystemV => if idx == 0 {
            Location::GPR(GPR::RDI)
        } else if idx == 1 {
            Location::GPR(GPR::RSI)
        } else if idx == 2 {
            Location::GPR(GPR::RDX)
        } else if idx == 3 {
            Location::GPR(GPR::RCX)
        } else if idx == 4 {
            Location::GPR(GPR::R8)
        } else if idx == 5 {
            Location::GPR(GPR::R9)
        } else {
            Location::Memory(GPR::RBP, (16 + (idx - 6) * 8) as i32)
        },
    }
}

/// Where the local at position `idx` lives: the first four in callee-saved
/// registers, the others in 8-byte slots below the frame pointer.
pub open spec fn local_location(locals_offset: nat, idx: nat) -> Location {
    if idx < 4 {
        Location::GPR(local_registers()[idx as int])
    } else {
        Location::Memory(GPR::RBP, (-((idx - 4) * 8 + locals_offset)) as i32)
    }
}

/// The size in bytes of the area that holds the saved registers: the
/// callee-saved registers used for locals, the VM context register, and the
/// two registers that the Windows convention asks to keep.
pub open spec fn static_area_size(n: nat, calling_convention: CallingConvention) -> nat {
    8 * least(4, n) + 8 + if calling_convention is WindowsFastcall {
        16nat
    } else {
        0nat
    }
}

/// The size in bytes of the locals that live on the stack.
pub open spec fn locals_size(n: nat) -> nat {
    if n > 4 {
        ((n - 4) * 8) as nat
    } else {
        0
    }
}

/// A move of a saved register into the slot that ends `depth` bytes below the frame pointer.
pub open spec fn save_register(reg: GPR, depth: nat) -> Instruction {
    Instruction::Mov(Size::S64, Location::GPR(reg), Location::Memory(GPR::RBP, (-depth) as i32))
}

/// The code that saves the registers the function will use: the registers
/// of the first locals, the VM context register, and for the Windows
/// convention RDI and RSI.
pub open spec fn save_code(base: nat, n: nat, calling_convention: CallingConvention) -> Seq<
    Instruction,
> {
    let regs = least(4, n);
    Seq::new(regs, |k: int| save_register(local_registers()[k], (base + 8 * (k + 1)) as nat)).push(
        save_register(GPR::R15, base + 8 * regs + 8),
    ) + if calling_convention is WindowsFastcall {
        seq![
            save_register(GPR::RDI, base + 8 * regs + 16),
            save_register(GPR::RSI, base + 8 * regs + 24),
        ]
    } else {
        Seq::empty()
    }
}

/// The code that brings the parameter at position `i` to its local: one
/// move, or two through RAX where both places are in memory.
pub open spec fn param_move(locals_offset: nat, calling_convention: CallingConvention, i: nat) -> Seq<
    Instruction,
> {
    let from = param_location(i + 1, calling_convention);
    let to = local_location(locals_offset, i);
    if from is Memory && to is Memory {
        seq![
            Instruction::Mov(Size::S64, from, Location::GPR(GPR::RAX)),
            Instruction::Mov(Size::S64, Location::GPR(GPR::RAX), to),
        ]
    } else {
        seq![Instruction::Mov(Size::S64, from, to)]
    }
}

/// The code that brings the first `n_params` parameters to their locals.
pub open spec fn param_moves(
    locals_offset: nat,
    calling_convention: CallingConvention,
    n_params: nat,
) -> Seq<Instruction>
    decreases n_params,
{
    if n_params == 0 {
        Seq::empty()
    } else {
        param_moves(locals_offset, calling_convention, (n_params - 1) as nat) + param_move(
            locals_offset,
            calling_convention,
            (n_params - 1) as nat,
        )
    }
}

/// The code that touches one local in every page of the locals from `from`
/// up to `n`, so that the guard page is hit in order.
pub open spec fn probes(locals_offset: nat, from: nat, n: nat) -> Seq<Instruction>
    decreases n + 512 - from,
{
    if from >= n {
        Seq::empty()
    } else {
        seq![Instruction::Mov(Size::S64, Location::Imm32(0), local_location(locals_offset, from))]
            + probes(locals_offset, from + 512, n)
    }
}

/// The code that zeroes the locals other than parameters that live in registers.
pub open spec fn zero_registers(n: nat, n_params: nat) -> Seq<Instruction> {
    let upto = least(4, n);
    if n_params < upto {
        Seq::new(
            (upto - n_params) as nat,
            |k: int|
                Instruction::Mov(
                    Size::S64,
                    Location::Imm32(0),
                    Location::GPR(local_registers()[n_params + k]),
                ),
        )
    } else {
        Seq::empty()
    }
}

/// The code that zeroes the locals other than parameters that live on the stack.
pub open spec fn zero_stack(locals_offset: nat, n: nat, n_params: nat) -> Seq<Instruction> {
    let from = if n_params > 4 {
        n_params
    } else {
        4
    };
    if n > from {
        seq![
            Instruction::Mov(Size::S64, Location::Imm64((n - from) as u64), Location::GPR(GPR::RCX)),
            Instruction::Xor(Size::S64, Location::GPR(GPR::RAX), Location::GPR(GPR::RAX)),
            Instruction::Lea(
                Size::S64,
                local_location(locals_offset, (n - 1) as nat),
                Location::GPR(GPR::RDI),
            ),
            Instruction::RepStosq,
        ]
    } else {
        Seq::empty()
    }
}

/// The prologue of a function with `n` locals, of which the first
/// `n_params` are parameters, for a frame that reaches `base` bytes below
/// the frame pointer: make room, save registers, bring the parameters to
/// their locals, load the VM context, probe the stack page by page, and zero
/// the other locals.
pub open spec fn init_locals_code(
    base: nat,
    n: nat,
    n_params: nat,
    calling_convention: CallingConvention,
) -> Seq<Instruction> {
    let locals_offset = static_area_size(n, calling_convention) + 8;
    seq![
        Instruction::Sub(
            Size::S64,
            Location::Imm32((static_area_size(n, calling_convention) + locals_size(n)) as u32),
            Location::GPR(GPR::RSP),
        ),
    ] + save_code(base, n, calling_convention) + param_moves(
        locals_offset,
        calling_convention,
        n_params,
    ) + seq![
        Instruction::Mov(Size::S64, param_location(0, calling_convention), Location::GPR(GPR::R15)),
    ] + probes(locals_offset, n_params + 512, n) + zero_registers(n, n_params) + zero_stack(
        locals_offset,
        n,
        n_params,
    )
}

/// The machine once the prologue has run.
pub open spec fn init_locals_state(
    m: MachineView,
    n: nat,
    calling_convention: CallingConvention,
) -> MachineView {
    MachineView {
        stack_offset: m.stack_offset + static_area_size(n, calling_convention) + locals_size(n),
        save_area_offset: Some(m.stack_offset + static_area_size(n, calling_convention)),
        locals_offset: static_area_size(n, calling_convention) + 8,
        ..m
    }
}

/// The epilogue of a function: unwind the stack to the saved registers and
/// restore them in the reverse of the order in which they were saved.
pub open spec fn finalize_locals_code(
    save_area_offset: nat,
    calling_convention: CallingConvention,
    local_count: nat,
) -> Seq<Instruction> {
    let regs = least(4, local_count);
    seq![
        Instruction::Lea(
            Size::S64,
            Location::Memory(GPR::RBP, (-save_area_offset) as i32),
            Location::GPR(GPR::RSP),
        ),
    ] + if calling_convention is WindowsFastcall {
        seq![
            Instruction::Pop(Size::S64, Location::GPR(GPR::RSI)),
            Instruction::Pop(Size::S64, Location::GPR(GPR::RDI)),
        ]
    } else {
        Seq::empty()
    } + seq![Instruction::Pop(Size::S64, Location::GPR(GPR::R15))] + Seq::new(
        regs,
        |k: int| Instruction::Pop(Size::S64, Location::GPR(local_registers()[regs - 1 - k])),
    )
}

/// Appending the parts of a prologue one after the other gives the whole.
proof fn lemma_concat_prologue(
    code: Seq<Instruction>,
    a: Seq<Instruction>,
    b: Seq<Instruction>,
    c: Seq<Instruction>,
    d: Seq<Instruction>,
    e: Seq<Instruction>,
    f: Seq<Instruction>,
    g: Seq<Instruction>,
)
    requires
        a.len() == 1,
        d.len() == 1,
    ensures
        (code.push(a[0]) + b + c).push(d[0]) + e + f + g == code + (a + b + c + d + e + f + g),
{
}

/// The state of the machine during code generation.
pub struct Machine {
    used_gprs: HashSet<u8>,
    used_xmms: HashSet<u8>,
    stack_offset: usize,
    save_area_offset: Option<usize>,
    /// Memory location at which local variables begin.
    ///
    /// Populated in `init_locals`.
    locals_offset: usize,
}

impl View for Machine {
    type V = MachineView;

    closed spec fn view(&self) -> MachineView {
        MachineView {
            used_gprs: Set::new(|r: GPR| self.used_gprs@.contains(r.number())),
            used_xmms: Set::new(|r: XMM| self.used_xmms@.contains(r.number())),
            stack_offset: self.stack_offset as nat,
            save_area_offset: match self.save_area_offset {
                Some(offset) => Some(offset as nat),
                None => None,
            },
            locals_offset: self.locals_offset as nat,
        }
    }
}

impl Machine {
    /// A machine with no register in use and an empty frame.
    pub fn new() -> (machine: Self)
        ensures
            machine@ == (MachineView {
                used_gprs: Set::empty(),
                used_xmms: Set::empty(),
                stack_offset: 0,
                save_area_offset: None,
                locals_offset: 0,
            }),
    {
        let machine = Machine {
            used_gprs: HashSet::new(),
            used_xmms: HashSet::new(),
            stack_offset: 0,
            save_area_offset: None,
            locals_offset: 0,
        };
        assert(machine@.used_gprs =~= Set::empty());
        assert(machine@.used_xmms =~= Set::empty());
        machine
    }

    /// How far below the frame pointer the stack reaches, in bytes.
    pub fn get_stack_offset(&self) -> (offset: usize)
        ensures
            offset == self@.stack_offset,
    {
        self.stack_offset
    }

    /// The general-purpose registers in use, in ascending order.
    pub fn get_used_gprs(&self) -> (used: Vec<GPR>)
        ensures
            forall|r: GPR| used@.contains(r) <==> self@.used_gprs.contains(r),
            forall|i: int, j: int| 0 <= i < j < used@.len() ==> used@[i].number() < used@[j].number(),
    {
        let mut used: Vec<GPR> = Vec::new();
        let mut n: u8 = 0;
        while n < 16
            invariant
                n <= 16,
                forall|r: GPR| used@.contains(r) <==> (self@.used_gprs.contains(r) && r.number() < n),
                forall|i: int| 0 <= i < used@.len() ==> used@[i].number() < n,
                forall|i: int, j: int| 0 <= i < j < used@.len() ==> used@[i].number() < used@[j].number(),
            decreases 16 - n,
        {
            if self.used_gprs.contains(&n) {
                let reg = GPR::from_number(n).unwrap();
                let ghost before = used@;
                used.push(reg);
                assert forall|r: GPR| used@.contains(r) <==> (self@.used_gprs.contains(r) && r.number() < n + 1) by {
                    if used@.contains(r) {
                        let k = choose|k: int| 0 <= k < used@.len() && used@[k] == r;
                        if k < before.len() {
                            assert(before.contains(r));
                        }
                    }
                    if self@.used_gprs.contains(r) && r.number() < n + 1 {
                        if r.number() < n {
                            assert(before.contains(r));
                            let k = choose|k: int| 0 <= k < before.len() && before[k] == r;
                            assert(used@[k] == r);
                        } else {
                            assert(used@[before.len() as int] == r);
                        }
                    }
                }
            }
            n += 1;
        }
        used
    }

    /// The XMM registers in use, in ascending order.
    pub fn get_used_xmms(&self) -> (used: Vec<XMM>)
        ensures
            forall|r: XMM| used@.contains(r) <==> self@.used_xmms.contains(r),
            forall|i: int, j: int| 0 <= i < j < used@.len() ==> used@[i].number() < used@[j].number(),
    {
        let mut used: Vec<XMM> = Vec::new();
        let mut n: u8 = 0;
        while n < 8
            invariant
                n <= 8,
                forall|r: XMM| used@.contains(r) <==> (self@.used_xmms.contains(r) && r.number() < n),
                forall|i: int| 0 <= i < used@.len() ==> used@[i].number() < n,
                forall|i: int, j: int| 0 <= i < j < used@.len() ==> used@[i].number() < used@[j].number(),
            decreases 8 - n,
        {
            if self.used_xmms.contains(&n) {
                let reg = XMM::from_number(n).unwrap();
                let ghost before = used@;
                used.push(reg);
                assert forall|r: XMM| used@.contains(r) <==> (self@.used_xmms.contains(r) && r.number() < n + 1) by {
                    if used@.contains(r) {
                        let k = choose|k: int| 0 <= k < used@.len() && used@[k] == r;
                        if k < before.len() {
                            assert(before.contains(r));
                        }
                    }
                    if self@.used_xmms.contains(r) && r.number() < n + 1 {
                        if r.number() < n {
                            assert(before.contains(r));
                            let k = choose|k: int| 0 <= k < before.len() && before[k] == r;
                            assert(used@[k] == r);
                        } else {
                            assert(used@[before.len() as int] == r);
                        }
                    }
                }
            }
            n += 1;
        }
        used
    }

    /// The register that holds the VM context.
    pub fn get_vmctx_reg() -> (reg: GPR)
        ensures
            reg == GPR::R15,
    {
        GPR::R15
    }

    /// Whether a general-purpose register is free.
    fn gpr_is_free(&self, reg: GPR) -> (free: bool)
        ensures
            free == !self@.used_gprs.contains(reg),
    {
        !self.used_gprs.contains(&reg.number())
    }

    /// Whether an XMM register is free.
    fn xmm_is_free(&self, reg: XMM) -> (free: bool)
        ensures
            free == !self@.used_xmms.contains(reg),
    {
        !self.used_xmms.contains(&reg.number())
    }

    /// Marks a general-purpose register as used.
    fn mark_gpr(&mut self, reg: GPR)
        ensures
            final(self)@ == (MachineView { used_gprs: old(self)@.used_gprs.insert(reg), ..old(self)@ }),
    {
        self.used_gprs.insert(reg.number());
        assert(self@.used_gprs =~= old(self)@.used_gprs.insert(reg));
    }

    /// Marks an XMM register as used.
    fn mark_xmm(&mut self, reg: XMM)
        ensures
            final(self)@ == (MachineView { used_xmms: old(self)@.used_xmms.insert(reg), ..old(self)@ }),
    {
        self.used_xmms.insert(reg.number());
        assert(self@.used_xmms =~= old(self)@.used_xmms.insert(reg));
    }

    /// Marks a general-purpose register as free, and says whether it was used.
    fn unmark_gpr(&mut self, reg: GPR) -> (was_used: bool)
        ensures
            was_used == old(self)@.used_gprs.contains(reg),
            final(self)@ == (MachineView { used_gprs: old(self)@.used_gprs.remove(reg), ..old(self)@ }),
    {
        let was_used = self.used_gprs.remove(&reg.number());
        assert(self@.used_gprs =~= old(self)@.used_gprs.remove(reg));
        was_used
    }

    /// Marks an XMM register as free, and says whether it was used.
    fn unmark_xmm(&mut self, reg: XMM) -> (was_used: bool)
        ensures
            was_used == old(self)@.used_xmms.contains(reg),
            final(self)@ == (MachineView { used_xmms: old(self)@.used_xmms.remove(reg), ..old(self)@ }),
    {
        let was_used = self.used_xmms.remove(&reg.number());
        assert(self@.used_xmms =~= old(self)@.used_xmms.remove(reg));
        was_used
    }

    /// Picks an unused general purpose register for local/stack/argument use.
    ///
    /// This method does not mark the register as used.
    pub fn pick_gpr(&self) -> (picked: Option<GPR>)
        ensures
            picked == first_free(pickable_gprs(), self@.used_gprs),
    {
        let regs = [GPR::RSI, GPR::RDI, GPR::R8, GPR::R9, GPR::R10, GPR::R11];
        let mut i: usize = 0;
        while i < 6
            invariant
                i <= 6,
                regs@ == pickable_gprs(),
                forall|k: int| 0 <= k < i ==> self@.used_gprs.contains(regs@[k]),
            decreases 6 - i,
        {
            if self.gpr_is_free(regs[i]) {
                proof {
                    lemma_first_free_unfold(regs@, self@.used_gprs, i as int);
                }
                return Some(regs[i]);
            }
            i += 1;
        }
        proof {
            lemma_first_free_unfold(regs@, self@.used_gprs, 6);
        }
        None
    }

    /// Picks an unused general purpose register for internal temporary use.
    ///
    /// This method does not mark the register as used.
    pub fn pick_temp_gpr(&self) -> (picked: Option<GPR>)
        ensures
            picked == first_free(temp_gprs(), self@.used_gprs),
    {
        let regs = [GPR::RAX, GPR::RCX, GPR::RDX];
        let mut i: usize = 0;
        while i < 3
            invariant
                i <= 3,
                regs@ == temp_gprs(),
                forall|k: int| 0 <= k < i ==> self@.used_gprs.contains(regs@[k]),
            decreases 3 - i,
        {
            if self.gpr_is_free(regs[i]) {
                proof {
                    lemma_first_free_unfold(regs@, self@.used_gprs, i as int);
                }
                return Some(regs[i]);
            }
            i += 1;
        }
        proof {
            lemma_first_free_unfold(regs@, self@.used_gprs, 3);
        }
        None
    }

    /// Acquires a temporary GPR: the first free one, which is then in use.
    pub fn acquire_temp_gpr(&mut self) -> (acquired: Option<GPR>)
        ensures
            acquired == first_free(temp_gprs(), old(self)@.used_gprs),
            final(self)@ == match acquired {
                Some(reg) => MachineView { used_gprs: old(self)@.used_gprs.insert(reg), ..old(self)@ },
                None => old(self)@,
            },
    {
        let gpr = self.pick_temp_gpr();
        if let Some(x) = gpr {
            self.mark_gpr(x);
        }
        gpr
    }

    /// Releases a temporary GPR.
    pub fn release_temp_gpr(&mut self, gpr: GPR)
        requires
            old(self)@.used_gprs.contains(gpr),
        ensures
            final(self)@ == (MachineView { used_gprs: old(self)@.used_gprs.remove(gpr), ..old(self)@ }),
    {
        self.unmark_gpr(gpr);
    }

    /// Specify that a given register is in use.
    pub fn reserve_unused_temp_gpr(&mut self, gpr: GPR) -> (reserved: GPR)
        requires
            !old(self)@.used_gprs.contains(gpr),
        ensures
            reserved == gpr,
            final(self)@ == (MachineView { used_gprs: old(self)@.used_gprs.insert(gpr), ..old(self)@ }),
    {
        self.mark_gpr(gpr);
        gpr
    }

    /// Picks an unused XMM register.
    ///
    /// This method does not mark the register as used.
    pub fn pick_xmm(&self) -> (picked: Option<XMM>)
        ensures
            picked == first_free(pickable_xmms(), self@.used_xmms),
    {
        let regs = [XMM::XMM3, XMM::XMM4, XMM::XMM5, XMM::XMM6, XMM::XMM7];
        let mut i: usize = 0;
        while i < 5
            invariant
                i <= 5,
                regs@ == pickable_xmms(),
                forall|k: int| 0 <= k < i ==> self@.used_xmms.contains(regs@[k]),
            decreases 5 - i,
        {
            if self.xmm_is_free(regs[i]) {
                proof {
                    lemma_first_free_unfold(regs@, self@.used_xmms, i as int);
                }
                return Some(regs[i]);
            }
            i += 1;
        }
        proof {
            lemma_first_free_unfold(regs@, self@.used_xmms, 5);
        }
        None
    }

    /// Picks an unused XMM register for internal temporary use.
    ///
    /// This method does not mark the register as used.
    pub fn pick_temp_xmm(&self) -> (picked: Option<XMM>)
        ensures
            picked == first_free(temp_xmms(), self@.used_xmms),
    {
        let regs = [XMM::XMM0, XMM::XMM1, XMM::XMM2];
        let mut i: usize = 0;
        while i < 3
            invariant
                i <= 3,
                regs@ == temp_xmms(),
                forall|k: int| 0 <= k < i ==> self@.used_xmms.contains(regs@[k]),
            decreases 3 - i,
        {
            if self.xmm_is_free(regs[i]) {
                proof {
                    lemma_first_free_unfold(regs@, self@.used_xmms, i as int);
                }
                return Some(regs[i]);
            }
            i += 1;
        }
        proof {
            lemma_first_free_unfold(regs@, self@.used_xmms, 3);
        }
        None
    }

    /// Acquires a temporary XMM register: the first free one, which is then in use.
    pub fn acquire_temp_xmm(&mut self) -> (acquired: Option<XMM>)
        ensures
            acquired == first_free(temp_xmms(), old(self)@.used_xmms),
            final(self)@ == match acquired {
                Some(reg) => MachineView { used_xmms: old(self)@.used_xmms.insert(reg), ..old(self)@ },
                None => old(self)@,
            },
    {
        let xmm = self.pick_temp_xmm();
        if let Some(x) = xmm {
            self.mark_xmm(x);
        }
        xmm
    }

    /// Releases a temporary XMM register.
    pub fn release_temp_xmm(&mut self, xmm: XMM)
        requires
            old(self)@.used_xmms.contains(xmm),
        ensures
            final(self)@ == (MachineView { used_xmms: old(self)@.used_xmms.remove(xmm), ..old(self)@ }),
    {
        self.unmark_xmm(xmm);
    }

    /// Acquires locations from the machine state.
    ///
    /// If the returned locations are used for stack value, `release_location` needs to be called on them;
    /// Otherwise, if the returned locations are used for locals, `release_location` does not need to be called on them.
    pub fn acquire_locations<E: Emitter>(
        &mut self,
        assembler: &mut E,
        tys: &[WpType],
        zeroed: bool,
    ) -> (ret: Locations)
        requires
            forall|i: int| 0 <= i < tys@.len() ==> has_location(#[trigger] tys@[i]),
            old(self)@.stack_offset + 8 * tys@.len() <= i32::MAX,
        ensures
            final(self)@ == acquire(old(self)@, tys@).0,
            ret@ == acquire(old(self)@, tys@).1,
            final(assembler).emitted() == old(assembler).emitted() + acquire_code(old(self)@, tys@, zeroed),
    {
        let mut ret = no_locations();
        let mut delta_stack_offset: usize = 0;
        let ghost start = self@;

        let mut i: usize = 0;
        while i < tys.len()
            invariant
                i <= tys@.len(),
                start.stack_offset + 8 * tys@.len() <= i32::MAX,
                forall|k: int| 0 <= k < tys@.len() ==> has_location(#[trigger] tys@[k]),
                self@ == acquire(start, tys@.take(i as int)).0,
                held_locations(ret) == acquire(start, tys@.take(i as int)).1,
                self@.stack_offset == start.stack_offset + delta_stack_offset,
                delta_stack_offset <= 8 * i,
            decreases tys@.len() - i,
        {
            let ty = tys[i];
            proof {
                assert(tys@.take(i + 1).drop_last() =~= tys@.take(i as int));
            }
            let loc = match ty {
                WpType::F32 | WpType::F64 => match self.pick_xmm() {
                    Some(x) => Some(Location::XMM(x)),
                    None => None,
                },
                _ => match self.pick_gpr() {
                    Some(x) => Some(Location::GPR(x)),
                    None => None,
                },
            };
            let loc = if let Some(x) = loc {
                x
            } else {
                self.stack_offset += 8;
                delta_stack_offset += 8;
                Location::Memory(GPR::RBP, -(self.stack_offset as i32))
            };
            if let Location::GPR(x) = loc {
                self.mark_gpr(x);
            } else if let Location::XMM(x) = loc {
                self.mark_xmm(x);
            }
            push_location(&mut ret, loc);
            i += 1;
        }
        proof {
            assert(tys@.take(tys@.len() as int) =~= tys@);
        }

        if delta_stack_offset != 0 {
            assembler.emit_sub(
                Size::S64,
                Location::Imm32(delta_stack_offset as u32),
                Location::GPR(GPR::RSP),
            );
        }
        let ghost adjusted = assembler.emitted();
        if zeroed {
            let locs = ret.as_slice();
            let mut j: usize = 0;
            while j < locs.len()
                invariant
                    j <= locs@.len(),
                    assembler.emitted() == adjusted + Seq::new(
                        j as nat,
                        |k: int| Instruction::Mov(Size::S64, Location::Imm32(0), locs@[k]),
                    ),
                decreases locs@.len() - j,
            {
                assembler.emit_mov(Size::S64, Location::Imm32(0), locs[j]);
                j += 1;
            }
        }
        ret
    }

    /// Releases `locs`, last first: registers if `regs`, stack slots if
    /// `stack`. Returns the number of bytes of stack released.
    fn release_some(&mut self, locs: &[Location], regs: bool, stack: bool) -> (delta: usize)
        requires
            can_release(old(self)@, locs@, regs, stack),
        ensures
            final(self)@ == release(old(self)@, locs@, regs, stack),
            delta == old(self)@.stack_offset - final(self)@.stack_offset,
            delta <= u32::MAX,
    {
        let mut delta_stack_offset: usize = 0;
        let ghost start = self@;
        let mut i: usize = locs.len();
        proof {
            assert(locs@.take(locs@.len() as int) =~= locs@);
        }
        while i > 0
            invariant
                i <= locs@.len(),
                can_release(self@, locs@.take(i as int), regs, stack),
                release(self@, locs@.take(i as int), regs, stack) == release(start, locs@, regs, stack),
                delta_stack_offset == start.stack_offset - self@.stack_offset,
                delta_stack_offset > 0 ==> start.stack_offset <= i32::MAX + 1,
            decreases i,
        {
            i -= 1;
            let loc = locs[i];
            proof {
                assert(locs@.take(i + 1).drop_last() =~= locs@.take(i as int));
            }
            match loc {
                Location::GPR(x) => {
                    if regs {
                        self.unmark_gpr(x);
                    }
                },
                Location::XMM(x) => {
                    if regs {
                        self.unmark_xmm(x);
                    }
                },
                Location::Memory(GPR::RBP, x) => {
                    if stack {
                        self.stack_offset -= 8;
                        delta_stack_offset += 8;
                    }
                },
                _ => {},
            }
        }
        delta_stack_offset
    }

    /// Releases locations used for stack value.
    ///
    /// The locations are released last first: each register must be in use,
    /// and each stack slot must be the one at the top of the stack. The stack
    /// slots are popped by a single `add`.
    pub fn release_locations<E: Emitter>(&mut self, assembler: &mut E, locs: &[Location])
        requires
            can_release(old(self)@, locs@, true, true),
        ensures
            final(self)@ == release(old(self)@, locs@, true, true),
            final(assembler).emitted() == old(assembler).emitted() + stack_adjustment(
                false,
                (old(self)@.stack_offset - final(self)@.stack_offset) as nat,
            ),
    {
        let delta_stack_offset = self.release_some(locs, true, true);
        if delta_stack_offset != 0 {
            assembler.emit_add(
                Size::S64,
                Location::Imm32(delta_stack_offset as u32),
                Location::GPR(GPR::RSP),
            );
        }
    }

    /// Releases the registers among `locs`, and leaves the stack as it is.
    pub fn release_locations_only_regs(&mut self, locs: &[Location])
        requires
            can_release(old(self)@, locs@, true, false),
        ensures
            final(self)@ == release(old(self)@, locs@, true, false),
    {
        self.release_some(locs, true, false);
    }

    /// Releases the stack slots among `locs`, and leaves the registers as they are.
    pub fn release_locations_only_stack<E: Emitter>(&mut self, assembler: &mut E, locs: &[Location])
        requires
            can_release(old(self)@, locs@, false, true),
        ensures
            final(self)@ == release(old(self)@, locs@, false, true),
            final(assembler).emitted() == old(assembler).emitted() + release_code(old(self)@, locs@),
    {
        let delta_stack_offset = self.release_some(locs, false, true);
        if delta_stack_offset != 0 {
            assembler.emit_add(
                Size::S64,
                Location::Imm32(delta_stack_offset as u32),
                Location::GPR(GPR::RSP),
            );
        }
    }

    /// Emits the code that releases the stack slots among `locs`, and leaves
    /// the machine state as it is.
    pub fn release_locations_keep_state<E: Emitter>(&self, assembler: &mut E, locs: &[Location])
        requires
            can_release(self@, locs@, false, true),
        ensures
            final(assembler).emitted() == old(assembler).emitted() + release_code(self@, locs@),
    {
        let mut delta_stack_offset: usize = 0;
        let mut stack_offset = self.stack_offset;
        let ghost start = self@;
        let mut i: usize = locs.len();
        proof {
            assert(locs@.take(locs@.len() as int) =~= locs@);
        }
        while i > 0
            invariant
                i <= locs@.len(),
                start == self@,
                can_release(MachineView { stack_offset: stack_offset as nat, ..start }, locs@.take(i as int), false, true),
                release(MachineView { stack_offset: stack_offset as nat, ..start }, locs@.take(i as int), false, true)
                    == release(start, locs@, false, true),
                delta_stack_offset == start.stack_offset - stack_offset,
                delta_stack_offset > 0 ==> start.stack_offset <= i32::MAX + 1,
            decreases i,
        {
            i -= 1;
            let loc = locs[i];
            proof {
                assert(locs@.take(i + 1).drop_last() =~= locs@.take(i as int));
            }
            if let Location::Memory(GPR::RBP, x) = loc {
                stack_offset -= 8;
                delta_stack_offset += 8;
            }
        }
        if delta_stack_offset != 0 {
            assembler.emit_add(
                Size::S64,
                Location::Imm32(delta_stack_offset as u32),
                Location::GPR(GPR::RSP),
            );
        }
    }

    /// The callee-saved registers that hold the first locals, in order.
    fn local_register(idx: usize) -> (reg: GPR)
        requires
            idx < 4,
        ensures
            reg == local_registers()[idx as int],
    {
        let regs = [GPR::R12, GPR::R13, GPR::R14, GPR::RBX];
        regs[idx]
    }

    /// Where the local at position `idx` lives.
    pub fn get_local_location(&self, idx: u32) -> (location: Location)
        requires
            idx <= MAX_LOCALS,
            self@.locals_offset + 8 * MAX_LOCALS <= i32::MAX,
        ensures
            location == local_location(self@.locals_offset, idx as nat),
    {
        if idx < 4 {
            Location::GPR(Self::local_register(idx as usize))
        } else {
            let local_offset: u32 = (idx - 4) * 8;
            Location::Memory(GPR::RBP, -((local_offset + self.locals_offset as u32) as i32))
        }
    }

    /// Saves the registers that the function will use, each in a new slot
    /// below the frame pointer.
    fn save_registers<E: Emitter>(
        &mut self,
        a: &mut E,
        n: u32,
        calling_convention: CallingConvention,
    )
        requires
            old(self)@.stack_offset + static_area_size(n as nat, calling_convention) <= i32::MAX,
        ensures
            final(self)@ == (MachineView {
                stack_offset: old(self)@.stack_offset + static_area_size(
                    n as nat,
                    calling_convention,
                ),
                ..old(self)@
            }),
            final(a).emitted() == old(a).emitted() + save_code(
                old(self)@.stack_offset,
                n as nat,
                calling_convention,
            ),
    {
        let ghost start = self@;
        let ghost code = a.emitted();
        let ghost base = start.stack_offset;
        let saved_locals: usize = if n < 4 {
            n as usize
        } else {
            4
        };
        // Save callee-saved registers
        let mut k: usize = 0;
        while k < saved_locals
            invariant
                k <= saved_locals <= 4,
                base + 8 * saved_locals + 8 <= i32::MAX,
                self@ == (MachineView { stack_offset: (base + 8 * k) as nat, ..start }),
                a.emitted() == code + Seq::new(
                    k as nat,
                    |j: int| save_register(local_registers()[j], (base + 8 * (j + 1)) as nat),
                ),
            decreases saved_locals - k,
        {
            self.stack_offset += 8;
            a.emit_mov(
                Size::S64,
                Location::GPR(Self::local_register(k)),
                Location::Memory(GPR::RBP, -(self.stack_offset as i32)),
            );
            k += 1;
        }

        // Save R15 for vmctx use.
        self.stack_offset += 8;
        a.emit_mov(
            Size::S64,
            Location::GPR(GPR::R15),
            Location::Memory(GPR::RBP, -(self.stack_offset as i32)),
        );

        match calling_convention {
            CallingConvention::WindowsFastcall => {
                self.stack_offset += 8;
                a.emit_mov(
                    Size::S64,
                    Location::GPR(GPR::RDI),
                    Location::Memory(GPR::RBP, -(self.stack_offset as i32)),
                );
                self.stack_offset += 8;
                a.emit_mov(
                    Size::S64,
                    Location::GPR(GPR::RSI),
                    Location::Memory(GPR::RBP, -(self.stack_offset as i32)),
                );
            },
            CallingConvention::SystemV => {},
        }
    }

    /// Loads the parameters from where the calling convention passes them
    /// into their locals.
    fn move_params<E: Emitter>(&self, a: &mut E, n_params: u32, calling_convention: CallingConvention)
        requires
            n_params <= MAX_LOCALS,
            self@.locals_offset + 8 * MAX_LOCALS <= i32::MAX,
        ensures
            final(a).emitted() == old(a).emitted() + param_moves(
                self@.locals_offset,
                calling_convention,
                n_params as nat,
            ),
    {
        let ghost code = a.emitted();
        let ghost lo = self@.locals_offset;
        let mut i: u32 = 0;
        while i < n_params
            invariant
                i <= n_params <= MAX_LOCALS,
                lo == self@.locals_offset,
                lo + 8 * MAX_LOCALS <= i32::MAX,
                a.emitted() == code + param_moves(lo, calling_convention, i as nat),
            decreases n_params - i,
        {
            // NB: the 0th parameter is used for passing around the internal VM data (vmctx).
            let loc = Self::get_param_location((i + 1) as usize, calling_convention);
            let local_loc = self.get_local_location(i);
            match (loc, local_loc) {
                (Location::Memory(_, _), Location::Memory(_, _)) => {
                    a.emit_mov(Size::S64, loc, Location::GPR(GPR::RAX));
                    a.emit_mov(Size::S64, Location::GPR(GPR::RAX), local_loc);
                },
                _ => {
                    a.emit_mov(Size::S64, loc, local_loc);
                },
            }
            i += 1;
        }
    }

    /// Touches one local in each page of the new frame after the first.
    ///
    /// `rep stosq` writes data from low address to high address and may skip
    /// the stack guard page, so the frame is probed explicitly.
    fn probe_stack<E: Emitter>(&self, a: &mut E, n: u32, n_params: u32)
        requires
            n <= MAX_LOCALS,
            n_params <= MAX_LOCALS,
            self@.locals_offset + 8 * MAX_LOCALS <= i32::MAX,
        ensures
            final(a).emitted() == old(a).emitted() + probes(
                self@.locals_offset,
                n_params as nat + 512,
                n as nat,
            ),
    {
        let ghost code = a.emitted();
        let ghost lo = self@.locals_offset;
        let step: u32 = (NATIVE_PAGE_SIZE / 8) as u32;
        let mut probe: u32 = n_params + step;
        while probe < n
            invariant
                step == 512,
                n <= MAX_LOCALS,
                lo == self@.locals_offset,
                lo + 8 * MAX_LOCALS <= i32::MAX,
                a.emitted() + probes(lo, probe as nat, n as nat) == code + probes(
                    lo,
                    n_params as nat + 512,
                    n as nat,
                ),
            decreases n + 512 - probe,
        {
            a.emit_mov(Size::S64, Location::Imm32(0), self.get_local_location(probe));
            probe += step;
        }
    }

    /// Zeroes the locals other than parameters: first those that live in
    /// registers, then those that live on the stack.
    fn zero_locals<E: Emitter>(&self, a: &mut E, n: u32, n_params: u32)
        requires
            n <= MAX_LOCALS,
            self@.locals_offset + 8 * MAX_LOCALS <= i32::MAX,
        ensures
            final(a).emitted() == old(a).emitted() + zero_registers(n as nat, n_params as nat)
                + zero_stack(self@.locals_offset, n as nat, n_params as nat),
    {
        let ghost code = a.emitted();
        let saved_locals: usize = if n < 4 {
            n as usize
        } else {
            4
        };
        let mut r: usize = n_params as usize;
        while r < saved_locals
            invariant
                saved_locals <= 4,
                saved_locals == least(4, n as nat),
                n_params <= r,
                n_params < saved_locals ==> r <= saved_locals,
                a.emitted() == code + if n_params < saved_locals {
                    Seq::new(
                        (r - n_params) as nat,
                        |j: int|
                            Instruction::Mov(
                                Size::S64,
                                Location::Imm32(0),
                                Location::GPR(local_registers()[n_params + j]),
                            ),
                    )
                } else {
                    Seq::empty()
                },
            decreases saved_locals - r,
        {
            a.emit_mov(Size::S64, Location::Imm32(0), Location::GPR(Self::local_register(r)));
            r += 1;
        }

        let first_stack_local: u32 = if n_params > 4 {
            n_params
        } else {
            4
        };
        if n > first_stack_local {
            // Since these assemblies take up to 24 bytes, if more than 2 slots are initialized, then they are smaller.
            a.emit_mov(
                Size::S64,
                Location::Imm64((n - first_stack_local) as u64),
                Location::GPR(GPR::RCX),
            );
            a.emit_xor(Size::S64, Location::GPR(GPR::RAX), Location::GPR(GPR::RAX));
            a.emit_lea(Size::S64, self.get_local_location(n - 1), Location::GPR(GPR::RDI));
            a.emit_rep_stosq();
        }
    }

    /// Sets up the frame of a function with `n` locals, of which the first
    /// `n_params` are parameters: saves the callee-saved registers, reserves
    /// the local area, copies the incoming parameters from where the calling
    /// convention passes them to their locals, probes every page of the new
    /// frame, and zeroes the other locals.
    pub fn init_locals<E: Emitter>(
        &mut self,
        a: &mut E,
        n: u32,
        n_params: u32,
        calling_convention: CallingConvention,
    )
        requires
            n <= MAX_LOCALS,
            n_params <= MAX_LOCALS,
            old(self)@.stack_offset + static_area_size(n as nat, calling_convention) + locals_size(
                n as nat,
            ) <= i32::MAX,
        ensures
            final(self)@ == init_locals_state(old(self)@, n as nat, calling_convention),
            final(a).emitted() == old(a).emitted() + init_locals_code(
                old(self)@.stack_offset,
                n as nat,
                n_params as nat,
                calling_convention,
            ),
    {
        let ghost start = self@;
        let ghost code = a.emitted();
        let saved_locals: usize = if n < 4 {
            n as usize
        } else {
            4
        };

        // Total size (in bytes) of the pre-allocated "static area" for this function's
        // locals and callee-saved registers.
        let mut static_area_size: usize = 0;

        // Space to clobber registers used for locals.
        static_area_size += 8 * saved_locals;

        // Callee-saved R15 for vmctx.
        static_area_size += 8;

        // For Windows ABI, save RDI and RSI
        match calling_convention {
            CallingConvention::WindowsFastcall => {
                static_area_size += 8 * 2;
            },
            CallingConvention::SystemV => {},
        }

        // The offset pointing at the very first local. Right now `static_area_size` is pointing at
        // the end address of the 0th local, not at the start address, so we add `8` bytes to fix
        // this up.
        self.locals_offset = static_area_size + 8;
        let locals_size: usize = if n > 4 {
            (n as usize - 4) * 8
        } else {
            0
        };

        // Allocate the stack, without actually writing to it.
        a.emit_sub(
            Size::S64,
            Location::Imm32((static_area_size + locals_size) as u32),
            Location::GPR(GPR::RSP),
        );

        self.save_registers(a, n, calling_convention);

        // Save the offset of register save area.
        self.save_area_offset = Some(self.stack_offset);

        self.move_params(a, n_params, calling_convention);

        // Load vmctx into R15.
        a.emit_mov(
            Size::S64,
            Self::get_param_location(0, calling_convention),
            Location::GPR(GPR::R15),
        );

        self.probe_stack(a, n, n_params);
        self.zero_locals(a, n, n_params);

        // Add the size of all locals allocated to stack.
        self.stack_offset += locals_size;

        proof {
            let lo = (static_area_size + 8) as nat;
            lemma_concat_prologue(
                code,
                seq![
                    Instruction::Sub(
                        Size::S64,
                        Location::Imm32((static_area_size + locals_size) as u32),
                        Location::GPR(GPR::RSP),
                    ),
                ],
                save_code(start.stack_offset, n as nat, calling_convention),
                param_moves(lo, calling_convention, n_params as nat),
                seq![
                    Instruction::Mov(
                        Size::S64,
                        param_location(0, calling_convention),
                        Location::GPR(GPR::R15),
                    ),
                ],
                probes(lo, n_params as nat + 512, n as nat),
                zero_registers(n as nat, n_params as nat),
                zero_stack(lo, n as nat, n_params as nat),
            );
        }
    }

    /// Emits the epilogue that matches `init_locals`: unwinds the stack to
    /// the saved registers and restores them.
    pub fn finalize_locals<E: Emitter>(
        &mut self,
        a: &mut E,
        calling_convention: CallingConvention,
        local_count: u32,
    )
        requires
            old(self)@.save_area_offset matches Some(offset) && offset <= i32::MAX,
        ensures
            final(self)@ == old(self)@,
            final(a).emitted() == old(a).emitted() + finalize_locals_code(
                old(self)@.save_area_offset->0,
                calling_convention,
                local_count as nat,
            ),
    {
        let save_area_offset = match self.save_area_offset {
            Some(offset) => offset,
            None => 0,
        };
        // Unwind stack to the "save area".
        a.emit_lea(
            Size::S64,
            Location::Memory(GPR::RBP, -(save_area_offset as i32)),
            Location::GPR(GPR::RSP),
        );

        match calling_convention {
            CallingConvention::WindowsFastcall => {
                // Restore RSI and RDI
                a.emit_pop(Size::S64, Location::GPR(GPR::RSI));
                a.emit_pop(Size::S64, Location::GPR(GPR::RDI));
            },
            CallingConvention::SystemV => {},
        }
        // Restore R15 used by vmctx.
        a.emit_pop(Size::S64, Location::GPR(GPR::R15));
        let ghost restored = a.emitted();

        // Restore callee-saved registers that we used for locals.
        let regs: usize = if local_count < 4 {
            local_count as usize
        } else {
            4
        };
        let mut k: usize = 0;
        while k < regs
            invariant
                k <= regs <= 4,
                a.emitted() == restored + Seq::new(
                    k as nat,
                    |j: int| Instruction::Pop(Size::S64, Location::GPR(local_registers()[regs - 1 - j])),
                ),
            decreases regs - k,
        {
            a.emit_pop(Size::S64, Location::GPR(Self::local_register(regs - 1 - k)));
            k += 1;
        }
    }

    /// Where the calling convention passes the argument at position `idx`.
    pub fn get_param_location(idx: usize, calling_convention: CallingConvention) -> (location:
        Location)
        requires
            idx <= MAX_LOCALS + 1,
        ensures
            location == param_location(idx as nat, calling_convention),
    {
        match calling_convention {
            CallingConvention::WindowsFastcall => match idx {
                0 => Location::GPR(GPR::RCX),
                1 => Location::GPR(GPR::RDX),
                2 => Location::GPR(GPR::R8),
                3 => Location::GPR(GPR::R9),
                _ => Location::Memory(GPR::RBP, (16 + 32 + (idx - 4) * 8) as i32),
            },
            CallingConvention::SystemV => match idx {
                0 => Location::GPR(GPR::RDI),
                1 => Location::GPR(GPR::RSI),
                2 => Location::GPR(GPR::RDX),
                3 => Location::GPR(GPR::RCX),
                4 => Location::GPR(GPR::R8),
                5 => Location::GPR(GPR::R9),
                _ => Location::Memory(GPR::RBP, (16 + (idx - 6) * 8) as i32),
            },
        }
    }
}

} // verus!
