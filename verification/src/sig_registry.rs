//! A registry of function signatures, for fast signature checks at indirect
//! calls.
//!
//! WebAssembly requires that caller and callee signatures match in an
//! indirect call. The registry gives every distinct function type a dense
//! index, so that a call site compares two integers.

use crate::types::{same_types, FunctionType, FunctionTypeRef, FunctionTypeView};
use vstd::prelude::*;

verus! {

/// An index into the shared signature registry, usable for checking signatures
/// at indirect calls.
#[derive(Debug, Eq, PartialEq, Structural, Clone, Copy, Hash)]
pub struct VMSharedSignatureIndex(pub u32);

impl VMSharedSignatureIndex {
    /// Create a new `VMSharedSignatureIndex`.
    pub fn new(value: u32) -> (index: Self)
        ensures
            index.0 == value,
    {
        Self(value)
    }
}

/// No function type occurs twice in `sigs`.
pub open spec fn distinct(sigs: Seq<FunctionTypeView>) -> bool {
    forall|i: int, j: int| 0 <= i < j < sigs.len() ==> sigs[i] != sigs[j]
}

/// Whether `ty` is among `sigs`.
pub open spec fn is_registered(sigs: Seq<FunctionTypeView>, ty: FunctionTypeView) -> bool {
    exists|i: int| 0 <= i < sigs.len() && sigs[i] == ty
}

/// The index that registering `ty` gives: where it stands among `sigs`, or
/// the next free index where it does not stand there.
pub open spec fn registered_index(sigs: Seq<FunctionTypeView>, ty: FunctionTypeView) -> int {
    if is_registered(sigs, ty) {
        choose|i: int| 0 <= i < sigs.len() && sigs[i] == ty
    } else {
        sigs.len() as int
    }
}

/// The signatures held once `ty` has been registered.
pub open spec fn after_register(sigs: Seq<FunctionTypeView>, ty: FunctionTypeView) -> Seq<
    FunctionTypeView,
> {
    if is_registered(sigs, ty) {
        sigs
    } else {
        sigs.push(ty)
    }
}

/// Registering keeps the signatures distinct, and the index handed out is
/// where the type then stands.
pub proof fn lemma_register_keeps_distinct(sigs: Seq<FunctionTypeView>, ty: FunctionTypeView)
    requires
        distinct(sigs),
    ensures
        distinct(after_register(sigs, ty)),
        0 <= registered_index(sigs, ty) < after_register(sigs, ty).len(),
        after_register(sigs, ty)[registered_index(sigs, ty)] == ty,
        is_registered(after_register(sigs, ty), ty),
        registered_index(after_register(sigs, ty), ty) == registered_index(sigs, ty),
{
}

/// Two function types register to the same index exactly when they are the
/// same type: registering `first` and then `second` hands out one index
/// twice if and only if `first == second`.
pub proof fn lemma_same_index_iff_same_type(
    sigs: Seq<FunctionTypeView>,
    first: FunctionTypeView,
    second: FunctionTypeView,
)
    requires
        distinct(sigs),
    ensures
        registered_index(sigs, first) == registered_index(after_register(sigs, first), second)
            <==> first == second,
{
    lemma_register_keeps_distinct(sigs, first);
}

/// WebAssembly requires that the caller and callee signatures in an indirect
/// call must match. To implement this efficiently, keep a registry of all
/// signatures, shared by all instances, so that call sites can just do an
/// index comparison.
#[derive(Debug)]
pub struct SignatureRegistry {
    index2signature: Vec<FunctionType>,
}

impl SignatureRegistry {
    /// The registered signatures, each at its index.
    pub closed spec fn view(&self) -> Seq<FunctionTypeView> {
        Seq::new(self.index2signature@.len(), |i: int| self.index2signature@[i]@)
    }

    /// No signature is held twice, and every index fits in a `u32`.
    pub closed spec fn wf(&self) -> bool {
        &&& distinct(self@)
        &&& self.index2signature@.len() <= u32::MAX as nat
    }

    /// A well-formed registry holds distinct signatures, at most one for each `u32`.
    pub proof fn lemma_wf(&self)
        requires
            self.wf(),
        ensures
            distinct(self@),
            self@.len() <= u32::MAX as nat,
    {
    }

    /// Create a new `SignatureRegistry`.
    pub fn new() -> (registry: Self)
        ensures
            registry.wf(),
            registry@ == Seq::<FunctionTypeView>::empty(),
    {
        let registry = Self { index2signature: Vec::new() };
        registry
    }

    /// Where `sig` stands in the registry, if it does.
    fn position(&self, sig: FunctionTypeRef<'_>) -> (found: Option<usize>)
        requires
            self.wf(),
        ensures
            found is Some <==> is_registered(self@, sig@),
            found matches Some(i) ==> i == registered_index(self@, sig@),
    {
        let mut i: usize = 0;
        while i < self.index2signature.len()
            invariant
                self.wf(),
                i <= self.index2signature@.len(),
                forall|k: int| 0 <= k < i ==> self@[k] != sig@,
            decreases self.index2signature@.len() - i,
        {
            let held = &self.index2signature[i];
            if same_types(held.params(), sig.params()) && same_types(held.results(), sig.results()) {
                assert(self@[i as int] == sig@);
                return Some(i);
            }
            i += 1;
        }
        None
    }

    /// The number of signatures held.
    pub fn len(&self) -> (count: usize)
        ensures
            count == self@.len(),
    {
        self.index2signature.len()
    }

    /// Whether one more signature can be registered: fewer than 2³² − 1 are held.
    pub fn has_room(&self) -> (room: bool)
        requires
            self.wf(),
        ensures
            room == (self@.len() < u32::MAX),
    {
        self.index2signature.len() < u32::MAX as usize
    }

    /// Register a signature and return its unique index.
    ///
    /// A signature that is already held keeps its index and leaves the
    /// registry as it is; a new one gets the next free index.
    pub fn register(&mut self, sig: FunctionTypeRef<'_>) -> (index: VMSharedSignatureIndex)
        requires
            old(self).wf(),
            is_registered(old(self)@, sig@) || old(self)@.len() < u32::MAX,
        ensures
            final(self).wf(),
            final(self)@ == after_register(old(self)@, sig@),
            index.0 == registered_index(old(self)@, sig@),
    {
        match self.position(sig) {
            Some(i) => VMSharedSignatureIndex::new(i as u32),
            None => {
                let len = self.index2signature.len();
                let ghost before = self@;
                self.index2signature.push(FunctionType::new_from_ref(sig));
                assert(self@ =~= before.push(sig@));
                VMSharedSignatureIndex::new(len as u32)
            },
        }
    }

    /// Registers `sig` where it is held already or there is room for it, and
    /// says that nothing was registered where there is none.
    pub fn try_register(&mut self, sig: FunctionTypeRef<'_>) -> (index: Option<
        VMSharedSignatureIndex,
    >)
        requires
            old(self).wf(),
        ensures
            final(self).wf(),
            index is Some <==> (is_registered(old(self)@, sig@) || old(self)@.len() < u32::MAX),
            index matches Some(i) ==> i.0 == registered_index(old(self)@, sig@) && final(self)@
                == after_register(old(self)@, sig@),
            index is None ==> final(self)@ == old(self)@,
    {
        if self.has_room() || self.position(sig).is_some() {
            Some(self.register(sig))
        } else {
            None
        }
    }

    /// Looks up a shared signature index within this registry.
    ///
    /// Note that for this operation to be semantically correct the `idx` must
    /// have previously come from a call to `register` of this same object.
    pub fn lookup(&self, idx: VMSharedSignatureIndex) -> (found: Option<&FunctionType>)
        ensures
            found is Some <==> idx.0 < self@.len(),
            found matches Some(ty) ==> ty@ == self@[idx.0 as int],
    {
        let i = idx.0 as usize;
        if i < self.index2signature.len() {
            Some(&self.index2signature[i])
        } else {
            None
        }
    }
}

} // verus!
