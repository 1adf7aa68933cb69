//! Addresses of compiled code and data, as the runtime hands them around.

use vstd::prelude::*;

verus! {

/// The address of the first instruction of a compiled function body.
#[derive(Clone, Copy, Debug, PartialEq, Eq, Structural, Hash)]
pub struct FunctionBodyPtr(pub usize);

/// The address of the first byte of a custom section.
#[derive(Clone, Copy, Debug, PartialEq, Eq, Structural, Hash)]
pub struct SectionBodyPtr(pub usize);

/// Represents a continuous region of executable memory starting with a function
/// entry point.
#[derive(Clone, Copy, Debug, PartialEq, Eq, Structural)]
pub struct FunctionExtent {
    /// Entry point for normal entry of the function. All addresses in the
    /// function lie after this address.
    pub address: FunctionBodyPtr,
    /// Length in bytes.
    pub length: usize,
}

} // verus!
