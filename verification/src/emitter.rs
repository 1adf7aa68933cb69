//! The x86_64 machine as code generation sees it: registers, operand
//! locations, and the instructions handed to an emitter.

use vstd::prelude::*;

verus! {

/// General-purpose registers.
#[derive(Clone, Copy, Debug, PartialEq, Eq, Structural, Hash, PartialOrd, Ord)]
pub enum GPR {
    /// RAX register
    RAX,
    /// RCX register
    RCX,
    /// RDX register
    RDX,
    /// RBX register
    RBX,
    /// RSP register
    RSP,
    /// RBP register
    RBP,
    /// RSI register
    RSI,
    /// RDI register
    RDI,
    /// R8 register
    R8,
    /// R9 register
    R9,
    /// R10 register
    R10,
    /// R11 register
    R11,
    /// R12 register
    R12,
    /// R13 register
    R13,
    /// R14 register
    R14,
    /// R15 register
    R15,
}

/// XMM registers.
#[derive(Clone, Copy, Debug, PartialEq, Eq, Structural, Hash, PartialOrd, Ord)]
pub enum XMM {
    /// XMM register 0
    XMM0,
    /// XMM register 1
    XMM1,
    /// XMM register 2
    XMM2,
    /// XMM register 3
    XMM3,
    /// XMM register 4
    XMM4,
    /// XMM register 5
    XMM5,
    /// XMM register 6
    XMM6,
    /// XMM register 7
    XMM7,
}

impl GPR {
    /// The number of this register in instruction encodings.
    pub open spec fn spec_number(self) -> u8 {
        match self {
            GPR::RAX => 0,
            GPR::RCX => 1,
            GPR::RDX => 2,
            GPR::RBX => 3,
            GPR::RSP => 4,
            GPR::RBP => 5,
            GPR::RSI => 6,
            GPR::RDI => 7,
            GPR::R8 => 8,
            GPR::R9 => 9,
            GPR::R10 => 10,
            GPR::R11 => 11,
            GPR::R12 => 12,
            GPR::R13 => 13,
            GPR::R14 => 14,
            GPR::R15 => 15,
        }
    }

    /// The number of this register in instruction encodings.
    #[verifier::when_used_as_spec(spec_number)]
    pub fn number(self) -> (n: u8)
        ensures
            n == self.spec_number(),
            n < 16,
    {
        match self {
            GPR::RAX => 0,
            GPR::RCX => 1,
            GPR::RDX => 2,
            GPR::RBX => 3,
            GPR::RSP => 4,
            GPR::RBP => 5,
            GPR::RSI => 6,
            GPR::RDI => 7,
            GPR::R8 => 8,
            GPR::R9 => 9,
            GPR::R10 => 10,
            GPR::R11 => 11,
            GPR::R12 => 12,
            GPR::R13 => 13,
            GPR::R14 => 14,
            GPR::R15 => 15,
        }
    }

    /// The register with the given number, if there is one.
    pub fn from_number(n: u8) -> (gpr: Option<GPR>)
        ensures
            gpr is Some <==> n < 16,
            gpr matches Some(r) ==> r.number() == n,
    {
        match n {
            0 => Some(GPR::RAX),
            1 => Some(GPR::RCX),
            2 => Some(GPR::RDX),
            3 => Some(GPR::RBX),
            4 => Some(GPR::RSP),
            5 => Some(GPR::RBP),
            6 => Some(GPR::RSI),
            7 => Some(GPR::RDI),
            8 => Some(GPR::R8),
            9 => Some(GPR::R9),
            10 => Some(GPR::R10),
            11 => Some(GPR::R11),
            12 => Some(GPR::R12),
            13 => Some(GPR::R13),
            14 => Some(GPR::R14),
            15 => Some(GPR::R15),
            _ => None,
        }
    }
}

impl XMM {
    /// The number of this register in instruction encodings.
    pub open spec fn spec_number(self) -> u8 {
        match self {
            XMM::XMM0 => 0,
            XMM::XMM1 => 1,
            XMM::XMM2 => 2,
            XMM::XMM3 => 3,
            XMM::XMM4 => 4,
            XMM::XMM5 => 5,
            XMM::XMM6 => 6,
            XMM::XMM7 => 7,
        }
    }

    /// The number of this register in instruction encodings.
    #[verifier::when_used_as_spec(spec_number)]
    pub fn number(self) -> (n: u8)
        ensures
            n == self.spec_number(),
            n < 8,
    {
        match self {
            XMM::XMM0 => 0,
            XMM::XMM1 => 1,
            XMM::XMM2 => 2,
            XMM::XMM3 => 3,
            XMM::XMM4 => 4,
            XMM::XMM5 => 5,
            XMM::XMM6 => 6,
            XMM::XMM7 => 7,
        }
    }

    /// The register with the given number, if there is one.
    pub fn from_number(n: u8) -> (xmm: Option<XMM>)
        ensures
            xmm is Some <==> n < 8,
            xmm matches Some(r) ==> r.number() == n,
    {
        match n {
            0 => Some(XMM::XMM0),
            1 => Some(XMM::XMM1),
            2 => Some(XMM::XMM2),
            3 => Some(XMM::XMM3),
            4 => Some(XMM::XMM4),
            5 => Some(XMM::XMM5),
            6 => Some(XMM::XMM6),
            7 => Some(XMM::XMM7),
            _ => None,
        }
    }
}

/// The size of an operand.
#[derive(Clone, Copy, Debug, PartialEq, Eq, Structural, Hash)]
pub enum Size {
    /// 8 bits.
    S8,
    /// 16 bits.
    S16,
    /// 32 bits.
    S32,
    /// 64 bits.
    S64,
}

/// Where an operand lives.
#[derive(Clone, Copy, Debug, PartialEq, Eq, Structural, Hash)]
pub enum Location {
    /// An 8-bit immediate.
    Imm8(u8),
    /// A 32-bit immediate.
    Imm32(u32),
    /// A 64-bit immediate.
    Imm64(u64),
    /// A general-purpose register.
    GPR(GPR),
    /// An XMM register.
    XMM(XMM),
    /// Memory at a register plus a displacement.
    Memory(GPR, i32),
}

/// An instruction handed to the emitter.
#[derive(Clone, Copy, Debug, PartialEq, Eq, Structural, Hash)]
pub enum Instruction {
    /// Move source to destination.
    Mov(Size, Location, Location),
    /// Load the address of the source into the destination.
    Lea(Size, Location, Location),
    /// Add source to destination.
    Add(Size, Location, Location),
    /// Subtract source from destination.
    Sub(Size, Location, Location),
    /// Exclusive-or source into destination.
    Xor(Size, Location, Location),
    /// Pop the top of the stack into the destination.
    Pop(Size, Location),
    /// Store RAX at RDI, RCX times, eight bytes at a time.
    RepStosq,
}

/// What the machine-state model asks of an emitter: each operation appends
/// one instruction to what has been emitted.
pub trait Emitter {
    /// The instructions emitted so far, in order.
    spec fn emitted(&self) -> Seq<Instruction>;

    /// Emits a move.
    fn emit_mov(&mut self, sz: Size, src: Location, dst: Location)
        ensures
            final(self).emitted() == old(self).emitted().push(Instruction::Mov(sz, src, dst)),
    ;

    /// Emits a load of an effective address.
    fn emit_lea(&mut self, sz: Size, src: Location, dst: Location)
        ensures
            final(self).emitted() == old(self).emitted().push(Instruction::Lea(sz, src, dst)),
    ;

    /// Emits an addition.
    fn emit_add(&mut self, sz: Size, src: Location, dst: Location)
        ensures
            final(self).emitted() == old(self).emitted().push(Instruction::Add(sz, src, dst)),
    ;

    /// Emits a subtraction.
    fn emit_sub(&mut self, sz: Size, src: Location, dst: Location)
        ensures
            final(self).emitted() == old(self).emitted().push(Instruction::Sub(sz, src, dst)),
    ;

    /// Emits an exclusive or.
    fn emit_xor(&mut self, sz: Size, src: Location, dst: Location)
        ensures
            final(self).emitted() == old(self).emitted().push(Instruction::Xor(sz, src, dst)),
    ;

    /// Emits a pop.
    fn emit_pop(&mut self, sz: Size, dst: Location)
        ensures
            final(self).emitted() == old(self).emitted().push(Instruction::Pop(sz, dst)),
    ;

    /// Emits `rep stosq`.
    fn emit_rep_stosq(&mut self)
        ensures
            final(self).emitted() == old(self).emitted().push(Instruction::RepStosq),
    ;
}

/// An emitter that keeps the instructions it is given, in order.
#[derive(Debug)]
pub struct Assembler {
    instructions: Vec<Instruction>,
}

impl Assembler {
    /// An assembler that has emitted nothing.
    pub fn new() -> (assembler: Self)
        ensures
            assembler.emitted() == Seq::<Instruction>::empty(),
    {
        Assembler { instructions: Vec::new() }
    }

    /// The instructions emitted so far, in order.
    pub fn instructions(&self) -> (instructions: &[Instruction])
        ensures
            instructions@ == self.emitted(),
    {
        self.instructions.as_slice()
    }
}

impl Emitter for Assembler {
    closed spec fn emitted(&self) -> Seq<Instruction> {
        self.instructions@
    }

    fn emit_mov(&mut self, sz: Size, src: Location, dst: Location) {
        self.instructions.push(Instruction::Mov(sz, src, dst));
    }

    fn emit_lea(&mut self, sz: Size, src: Location, dst: Location) {
        self.instructions.push(Instruction::Lea(sz, src, dst));
    }

    fn emit_add(&mut self, sz: Size, src: Location, dst: Location) {
        self.instructions.push(Instruction::Add(sz, src, dst));
    }

    fn emit_sub(&mut self, sz: Size, src: Location, dst: Location) {
        self.instructions.push(Instruction::Sub(sz, src, dst));
    }

    fn emit_xor(&mut self, sz: Size, src: Location, dst: Location) {
        self.instructions.push(Instruction::Xor(sz, src, dst));
    }

    fn emit_pop(&mut self, sz: Size, dst: Location) {
        self.instructions.push(Instruction::Pop(sz, dst));
    }

    fn emit_rep_stosq(&mut self) {
        self.instructions.push(Instruction::RepStosq);
    }
}

} // verus!
