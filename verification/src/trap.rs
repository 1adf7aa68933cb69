//! Why guest code stops: trap codes, and where in compiled code traps can occur.

use vstd::prelude::*;

verus! {

/// Why a WebAssembly function was interrupted.
#[derive(Clone, Copy, Debug, PartialEq, Eq, Structural, Hash)]
pub enum TrapCode {
    /// The current stack space was exhausted.
    StackOverflow,
    /// A memory access was out of bounds.
    MemoryOutOfBounds,
    /// A wasm atomic operation was presented with a not-naturally-aligned
    /// linear-memory address.
    HeapMisaligned,
    /// A table access was out of bounds.
    TableOutOfBounds,
    /// An indirect call went through a null table entry.
    IndirectCallToNull,
    /// The signature of an indirect call does not match that of the callee.
    BadSignature,
    /// An integer arithmetic operation caused an overflow.
    IntegerOverflow,
    /// An integer division by zero.
    IntegerDivisionByZero,
    /// Failed float-to-int conversion.
    BadConversionToInteger,
    /// Code that was supposed to have been unreachable was reached.
    UnreachableCodeReached,
    /// Execution was interrupted from outside.
    Interrupt,
    /// The gas limit was exceeded.
    GasLimitExceeded,
    /// An `unreachable` instruction was executed.
    Unreachable,
}

impl TrapCode {
    /// What the trap means, in words.
    pub fn message(&self) -> (text: &'static str)
        ensures
            text@ == trap_message(*self),
    {
        match self {
            TrapCode::StackOverflow => "call stack exhausted",
            TrapCode::MemoryOutOfBounds => "out of bounds memory access",
            TrapCode::HeapMisaligned => "misaligned heap",
            TrapCode::TableOutOfBounds => "undefined element: out of bounds table access",
            TrapCode::IndirectCallToNull => "uninitialized element",
            TrapCode::BadSignature => "indirect call type mismatch",
            TrapCode::IntegerOverflow => "integer overflow",
            TrapCode::IntegerDivisionByZero => "integer divide by zero",
            TrapCode::BadConversionToInteger => "invalid conversion to integer",
            TrapCode::UnreachableCodeReached => "unreachable",
            TrapCode::Interrupt => "interrupt",
            TrapCode::GasLimitExceeded => "gas limit exceeded",
            TrapCode::Unreachable => "unreachable",
        }
    }
}

/// What a trap means, in words.
pub open spec fn trap_message(code: TrapCode) -> Seq<char> {
    match code {
        TrapCode::StackOverflow => "call stack exhausted"@,
        TrapCode::MemoryOutOfBounds => "out of bounds memory access"@,
        TrapCode::HeapMisaligned => "misaligned heap"@,
        TrapCode::TableOutOfBounds => "undefined element: out of bounds table access"@,
        TrapCode::IndirectCallToNull => "uninitialized element"@,
        TrapCode::BadSignature => "indirect call type mismatch"@,
        TrapCode::IntegerOverflow => "integer overflow"@,
        TrapCode::IntegerDivisionByZero => "integer divide by zero"@,
        TrapCode::BadConversionToInteger => "invalid conversion to integer"@,
        TrapCode::UnreachableCodeReached => "unreachable"@,
        TrapCode::Interrupt => "interrupt"@,
        TrapCode::GasLimitExceeded => "gas limit exceeded"@,
        TrapCode::Unreachable => "unreachable"@,
    }
}

/// Information about trap.
#[derive(Clone, Copy, Debug, PartialEq, Eq, Structural)]
pub struct TrapInformation {
    /// The offset of the trapping instruction in native code. It is relative to the beginning of the function.
    pub code_offset: u32,
    /// Code of the trap.
    pub trap_code: TrapCode,
}

} // verus!
