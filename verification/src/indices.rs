//! Typed indices into the index spaces of a module.
//!
//! Every index space gets a type of its own, so that an index of one space
//! cannot be used in another by accident. Each holds a `u32`.

use vstd::prelude::*;

verus! {

/// Index of a function, imported or local, within a module.
#[derive(Clone, Copy, Debug, PartialEq, Eq, Structural, Hash, PartialOrd, Ord)]
pub struct FunctionIndex(pub u32);

impl FunctionIndex {
    /// The position this index stands for.
    pub open spec fn spec_index(self) -> usize {
        self.0 as usize
    }

    /// Create an index from a position.
    pub fn new(index: usize) -> (created: Self)
        requires
            index <= u32::MAX,
        ensures
            created.spec_index() == index,
    {
        FunctionIndex(index as u32)
    }

    /// The position this index stands for.
    #[verifier::when_used_as_spec(spec_index)]
    pub fn index(self) -> (position: usize)
        ensures
            position == self.spec_index(),
    {
        self.0 as usize
    }

    /// Create an index from a `u32`.
    pub fn from_u32(x: u32) -> (created: Self)
        ensures
            created.spec_index() == x,
    {
        FunctionIndex(x)
    }

    /// This index as a `u32`.
    pub fn as_u32(self) -> (x: u32)
        ensures
            x == self.spec_index(),
    {
        self.0
    }
}

/// Index of a function defined in the module itself.
#[derive(Clone, Copy, Debug, PartialEq, Eq, Structural, Hash, PartialOrd, Ord)]
pub struct LocalFunctionIndex(pub u32);

impl LocalFunctionIndex {
    /// The position this index stands for.
    pub open spec fn spec_index(self) -> usize {
        self.0 as usize
    }

    /// Create an index from a position.
    pub fn new(index: usize) -> (created: Self)
        requires
            index <= u32::MAX,
        ensures
            created.spec_index() == index,
    {
        LocalFunctionIndex(index as u32)
    }

    /// The position this index stands for.
    #[verifier::when_used_as_spec(spec_index)]
    pub fn index(self) -> (position: usize)
        ensures
            position == self.spec_index(),
    {
        self.0 as usize
    }

    /// Create an index from a `u32`.
    pub fn from_u32(x: u32) -> (created: Self)
        ensures
            created.spec_index() == x,
    {
        LocalFunctionIndex(x)
    }

    /// This index as a `u32`.
    pub fn as_u32(self) -> (x: u32)
        ensures
            x == self.spec_index(),
    {
        self.0
    }
}

/// Index of a table, imported or local, within a module.
#[derive(Clone, Copy, Debug, PartialEq, Eq, Structural, Hash, PartialOrd, Ord)]
pub struct TableIndex(pub u32);

impl TableIndex {
    /// The position this index stands for.
    pub open spec fn spec_index(self) -> usize {
        self.0 as usize
    }

    /// Create an index from a position.
    pub fn new(index: usize) -> (created: Self)
        requires
            index <= u32::MAX,
        ensures
            created.spec_index() == index,
    {
        TableIndex(index as u32)
    }

    /// The position this index stands for.
    #[verifier::when_used_as_spec(spec_index)]
    pub fn index(self) -> (position: usize)
        ensures
            position == self.spec_index(),
    {
        self.0 as usize
    }

    /// Create an index from a `u32`.
    pub fn from_u32(x: u32) -> (created: Self)
        ensures
            created.spec_index() == x,
    {
        TableIndex(x)
    }

    /// This index as a `u32`.
    pub fn as_u32(self) -> (x: u32)
        ensures
            x == self.spec_index(),
    {
        self.0
    }
}

/// Index of a table defined in the module itself.
#[derive(Clone, Copy, Debug, PartialEq, Eq, Structural, Hash, PartialOrd, Ord)]
pub struct LocalTableIndex(pub u32);

impl LocalTableIndex {
    /// The position this index stands for.
    pub open spec fn spec_index(self) -> usize {
        self.0 as usize
    }

    /// Create an index from a position.
    pub fn new(index: usize) -> (created: Self)
        requires
            index <= u32::MAX,
        ensures
            created.spec_index() == index,
    {
        LocalTableIndex(index as u32)
    }

    /// The position this index stands for.
    #[verifier::when_used_as_spec(spec_index)]
    pub fn index(self) -> (position: usize)
        ensures
            position == self.spec_index(),
    {
        self.0 as usize
    }

    /// Create an index from a `u32`.
    pub fn from_u32(x: u32) -> (created: Self)
        ensures
            created.spec_index() == x,
    {
        LocalTableIndex(x)
    }

    /// This index as a `u32`.
    pub fn as_u32(self) -> (x: u32)
        ensures
            x == self.spec_index(),
    {
        self.0
    }
}

/// Index of a linear memory, imported or local, within a module.
#[derive(Clone, Copy, Debug, PartialEq, Eq, Structural, Hash, PartialOrd, Ord)]
pub struct MemoryIndex(pub u32);

impl MemoryIndex {
    /// The position this index stands for.
    pub open spec fn spec_index(self) -> usize {
        self.0 as usize
    }

    /// Create an index from a position.
    pub fn new(index: usize) -> (created: Self)
        requires
            index <= u32::MAX,
        ensures
            created.spec_index() == index,
    {
        MemoryIndex(index as u32)
    }

    /// The position this index stands for.
    #[verifier::when_used_as_spec(spec_index)]
    pub fn index(self) -> (position: usize)
        ensures
            position == self.spec_index(),
    {
        self.0 as usize
    }

    /// Create an index from a `u32`.
    pub fn from_u32(x: u32) -> (created: Self)
        ensures
            created.spec_index() == x,
    {
        MemoryIndex(x)
    }

    /// This index as a `u32`.
    pub fn as_u32(self) -> (x: u32)
        ensures
            x == self.spec_index(),
    {
        self.0
    }
}

/// Index of a linear memory defined in the module itself.
#[derive(Clone, Copy, Debug, PartialEq, Eq, Structural, Hash, PartialOrd, Ord)]
pub struct LocalMemoryIndex(pub u32);

impl LocalMemoryIndex {
    /// The position this index stands for.
    pub open spec fn spec_index(self) -> usize {
        self.0 as usize
    }

    /// Create an index from a position.
    pub fn new(index: usize) -> (created: Self)
        requires
            index <= u32::MAX,
        ensures
            created.spec_index() == index,
    {
        LocalMemoryIndex(index as u32)
    }

    /// The position this index stands for.
    #[verifier::when_used_as_spec(spec_index)]
    pub fn index(self) -> (position: usize)
        ensures
            position == self.spec_index(),
    {
        self.0 as usize
    }

    /// Create an index from a `u32`.
    pub fn from_u32(x: u32) -> (created: Self)
        ensures
            created.spec_index() == x,
    {
        LocalMemoryIndex(x)
    }

    /// This index as a `u32`.
    pub fn as_u32(self) -> (x: u32)
        ensures
            x == self.spec_index(),
    {
        self.0
    }
}

/// Index of a global, imported or local, within a module.
#[derive(Clone, Copy, Debug, PartialEq, Eq, Structural, Hash, PartialOrd, Ord)]
pub struct GlobalIndex(pub u32);

impl GlobalIndex {
    /// The position this index stands for.
    pub open spec fn spec_index(self) -> usize {
        self.0 as usize
    }

    /// Create an index from a position.
    pub fn new(index: usize) -> (created: Self)
        requires
            index <= u32::MAX,
        ensures
            created.spec_index() == index,
    {
        GlobalIndex(index as u32)
    }

    /// The position this index stands for.
    #[verifier::when_used_as_spec(spec_index)]
    pub fn index(self) -> (position: usize)
        ensures
            position == self.spec_index(),
    {
        self.0 as usize
    }

    /// Create an index from a `u32`.
    pub fn from_u32(x: u32) -> (created: Self)
        ensures
            created.spec_index() == x,
    {
        GlobalIndex(x)
    }

    /// This index as a `u32`.
    pub fn as_u32(self) -> (x: u32)
        ensures
            x == self.spec_index(),
    {
        self.0
    }
}

/// Index of a global defined in the module itself.
#[derive(Clone, Copy, Debug, PartialEq, Eq, Structural, Hash, PartialOrd, Ord)]
pub struct LocalGlobalIndex(pub u32);

impl LocalGlobalIndex {
    /// The position this index stands for.
    pub open spec fn spec_index(self) -> usize {
        self.0 as usize
    }

    /// Create an index from a position.
    pub fn new(index: usize) -> (created: Self)
        requires
            index <= u32::MAX,
        ensures
            created.spec_index() == index,
    {
        LocalGlobalIndex(index as u32)
    }

    /// The position this index stands for.
    #[verifier::when_used_as_spec(spec_index)]
    pub fn index(self) -> (position: usize)
        ensures
            position == self.spec_index(),
    {
        self.0 as usize
    }

    /// Create an index from a `u32`.
    pub fn from_u32(x: u32) -> (created: Self)
        ensures
            created.spec_index() == x,
    {
        LocalGlobalIndex(x)
    }

    /// This index as a `u32`.
    pub fn as_u32(self) -> (x: u32)
        ensures
            x == self.spec_index(),
    {
        self.0
    }
}

/// Index of a function signature within a module.
#[derive(Clone, Copy, Debug, PartialEq, Eq, Structural, Hash, PartialOrd, Ord)]
pub struct SignatureIndex(pub u32);

impl SignatureIndex {
    /// The position this index stands for.
    pub open spec fn spec_index(self) -> usize {
        self.0 as usize
    }

    /// Create an index from a position.
    pub fn new(index: usize) -> (created: Self)
        requires
            index <= u32::MAX,
        ensures
            created.spec_index() == index,
    {
        SignatureIndex(index as u32)
    }

    /// The position this index stands for.
    #[verifier::when_used_as_spec(spec_index)]
    pub fn index(self) -> (position: usize)
        ensures
            position == self.spec_index(),
    {
        self.0 as usize
    }

    /// Create an index from a `u32`.
    pub fn from_u32(x: u32) -> (created: Self)
        ensures
            created.spec_index() == x,
    {
        SignatureIndex(x)
    }

    /// This index as a `u32`.
    pub fn as_u32(self) -> (x: u32)
        ensures
            x == self.spec_index(),
    {
        self.0
    }
}

/// Index of a passive data segment.
#[derive(Clone, Copy, Debug, PartialEq, Eq, Structural, Hash, PartialOrd, Ord)]
pub struct DataIndex(pub u32);

impl DataIndex {
    /// The position this index stands for.
    pub open spec fn spec_index(self) -> usize {
        self.0 as usize
    }

    /// Create an index from a position.
    pub fn new(index: usize) -> (created: Self)
        requires
            index <= u32::MAX,
        ensures
            created.spec_index() == index,
    {
        DataIndex(index as u32)
    }

    /// The position this index stands for.
    #[verifier::when_used_as_spec(spec_index)]
    pub fn index(self) -> (position: usize)
        ensures
            position == self.spec_index(),
    {
        self.0 as usize
    }

    /// Create an index from a `u32`.
    pub fn from_u32(x: u32) -> (created: Self)
        ensures
            created.spec_index() == x,
    {
        DataIndex(x)
    }

    /// This index as a `u32`.
    pub fn as_u32(self) -> (x: u32)
        ensures
            x == self.spec_index(),
    {
        self.0
    }
}

/// Index of a passive element segment.
#[derive(Clone, Copy, Debug, PartialEq, Eq, Structural, Hash, PartialOrd, Ord)]
pub struct ElemIndex(pub u32);

impl ElemIndex {
    /// The position this index stands for.
    pub open spec fn spec_index(self) -> usize {
        self.0 as usize
    }

    /// Create an index from a position.
    pub fn new(index: usize) -> (created: Self)
        requires
            index <= u32::MAX,
        ensures
            created.spec_index() == index,
    {
        ElemIndex(index as u32)
    }

    /// The position this index stands for.
    #[verifier::when_used_as_spec(spec_index)]
    pub fn index(self) -> (position: usize)
        ensures
            position == self.spec_index(),
    {
        self.0 as usize
    }

    /// Create an index from a `u32`.
    pub fn from_u32(x: u32) -> (created: Self)
        ensures
            created.spec_index() == x,
    {
        ElemIndex(x)
    }

    /// This index as a `u32`.
    pub fn as_u32(self) -> (x: u32)
        ensures
            x == self.spec_index(),
    {
        self.0
    }
}

/// Index of a custom section of the module.
#[derive(Clone, Copy, Debug, PartialEq, Eq, Structural, Hash, PartialOrd, Ord)]
pub struct CustomSectionIndex(pub u32);

impl CustomSectionIndex {
    /// The position this index stands for.
    pub open spec fn spec_index(self) -> usize {
        self.0 as usize
    }

    /// Create an index from a position.
    pub fn new(index: usize) -> (created: Self)
        requires
            index <= u32::MAX,
        ensures
            created.spec_index() == index,
    {
        CustomSectionIndex(index as u32)
    }

    /// The position this index stands for.
    #[verifier::when_used_as_spec(spec_index)]
    pub fn index(self) -> (position: usize)
        ensures
            position == self.spec_index(),
    {
        self.0 as usize
    }

    /// Create an index from a `u32`.
    pub fn from_u32(x: u32) -> (created: Self)
        ensures
            created.spec_index() == x,
    {
        CustomSectionIndex(x)
    }

    /// This index as a `u32`.
    pub fn as_u32(self) -> (x: u32)
        ensures
            x == self.spec_index(),
    {
        self.0
    }
}

/// Index of a custom section of compiled output.
#[derive(Clone, Copy, Debug, PartialEq, Eq, Structural, Hash, PartialOrd, Ord)]
pub struct SectionIndex(pub u32);

impl SectionIndex {
    /// The position this index stands for.
    pub open spec fn spec_index(self) -> usize {
        self.0 as usize
    }

    /// Create an index from a position.
    pub fn new(index: usize) -> (created: Self)
        requires
            index <= u32::MAX,
        ensures
            created.spec_index() == index,
    {
        SectionIndex(index as u32)
    }

    /// The position this index stands for.
    #[verifier::when_used_as_spec(spec_index)]
    pub fn index(self) -> (position: usize)
        ensures
            position == self.spec_index(),
    {
        self.0 as usize
    }

    /// Create an index from a `u32`.
    pub fn from_u32(x: u32) -> (created: Self)
        ensures
            created.spec_index() == x,
    {
        SectionIndex(x)
    }

    /// This index as a `u32`.
    pub fn as_u32(self) -> (x: u32)
        ensures
            x == self.spec_index(),
    {
        self.0
    }
}

/// Index of a jump table of a compiled function.
#[derive(Clone, Copy, Debug, PartialEq, Eq, Structural, Hash, PartialOrd, Ord)]
pub struct JumpTable(pub u32);

impl JumpTable {
    /// The position this index stands for.
    pub open spec fn spec_index(self) -> usize {
        self.0 as usize
    }

    /// Create an index from a position.
    pub fn new(index: usize) -> (created: Self)
        requires
            index <= u32::MAX,
        ensures
            created.spec_index() == index,
    {
        JumpTable(index as u32)
    }

    /// The position this index stands for.
    #[verifier::when_used_as_spec(spec_index)]
    pub fn index(self) -> (position: usize)
        ensures
            position == self.spec_index(),
    {
        self.0 as usize
    }

    /// Create an index from a `u32`.
    pub fn from_u32(x: u32) -> (created: Self)
        ensures
            created.spec_index() == x,
    {
        JumpTable(x)
    }

    /// This index as a `u32`.
    pub fn as_u32(self) -> (x: u32)
        ensures
            x == self.spec_index(),
    {
        self.0
    }
}

/// An entity a module can export.
#[derive(Clone, Copy, Debug, PartialEq, Eq, Structural, Hash)]
pub enum ExportIndex {
    /// Function export.
    Function(FunctionIndex),
    /// Table export.
    Table(TableIndex),
    /// Memory export.
    Memory(MemoryIndex),
    /// Global export.
    Global(GlobalIndex),
}

/// An entity a module can import.
#[derive(Clone, Copy, Debug, PartialEq, Eq, Structural, Hash)]
pub enum ImportIndex {
    /// Function import.
    Function(FunctionIndex),
    /// Table import.
    Table(TableIndex),
    /// Memory import.
    Memory(MemoryIndex),
    /// Global import.
    Global(GlobalIndex),
}

} // verus!
