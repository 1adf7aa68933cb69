//! Memory for compiled code.
//!
//! A code memory holds the image of one loaded module: the function bodies
//! and trampolines, then the executable custom sections, then, from the next
//! page on, the data sections. The image is written while the memory is
//! writable; publishing makes it executable, and it is never both.

use crate::compilation::Relocation;
use crate::link::{apply_relocations, relocated_all, relocations_fit, Addresses};
use vstd::prelude::*;

verus! {

/// Function bodies and executable sections start at multiples of this.
pub const ARCH_FUNCTION_ALIGNMENT: usize = 16;

/// Data sections start at multiples of this.
pub const DATA_SECTION_ALIGNMENT: usize = 64;

/// The size of a page of memory: protections change at multiples of this.
pub const PAGE_SIZE: usize = 4096;

/// The least multiple of `align` that is not below `n`.
pub open spec fn round_up(n: nat, align: nat) -> nat {
    if n % align == 0 {
        n
    } else {
        (n + align - n % align) as nat
    }
}

/// `count` zero bytes.
pub open spec fn zeros(count: nat) -> Seq<u8> {
    Seq::new(count, |i: int| 0u8)
}

/// The bytes `s`, followed by zeros up to a multiple of `align`.
pub open spec fn padded(s: Seq<u8>, align: nat) -> Seq<u8> {
    s + zeros((round_up(s.len(), align) - s.len()) as nat)
}

/// The first `n` of `items` laid out one after the other, each padded so
/// that the next starts at a multiple of `align`.
pub open spec fn laid_out(items: Seq<Seq<u8>>, align: nat, n: nat) -> Seq<u8>
    decreases n,
{
    if n == 0 {
        Seq::empty()
    } else {
        padded(laid_out(items, align, (n - 1) as nat) + items[n - 1], align)
    }
}

/// What each of `items` holds.
pub open spec fn contents(items: Seq<&[u8]>) -> Seq<Seq<u8>> {
    Seq::new(items.len(), |i: int| items[i]@)
}

/// The executable part of an image: the function bodies, then the
/// executable sections, padded to a whole number of pages.
pub open spec fn executable_image(functions: Seq<Seq<u8>>, executable_sections: Seq<Seq<u8>>) -> Seq<
    u8,
> {
    padded(
        laid_out(
            functions + executable_sections,
            ARCH_FUNCTION_ALIGNMENT as nat,
            functions.len() + executable_sections.len(),
        ),
        PAGE_SIZE as nat,
    )
}

/// The image of a loaded module: the executable part, then the data sections.
pub open spec fn image_of(
    functions: Seq<Seq<u8>>,
    executable_sections: Seq<Seq<u8>>,
    data_sections: Seq<Seq<u8>>,
) -> Seq<u8> {
    executable_image(functions, executable_sections) + laid_out(
        data_sections,
        DATA_SECTION_ALIGNMENT as nat,
        data_sections.len(),
    )
}

/// A part of an image: where it starts and how long it is.
#[derive(Clone, Copy, Debug, PartialEq, Eq, Structural)]
pub struct Extent {
    /// The position of the first byte in the image.
    pub offset: usize,
    /// The number of bytes.
    pub len: usize,
}

/// Where the item at position `i` is once `items` are laid out from `start`.
pub open spec fn extent_of(items: Seq<Seq<u8>>, align: nat, start: nat, i: int) -> Extent {
    Extent {
        offset: (start + laid_out(items, align, i as nat).len()) as usize,
        len: items[i].len() as usize,
    }
}

/// Where everything is in the image of a loaded module.
#[derive(Debug)]
pub struct Allocation {
    /// Where each function body or trampoline is.
    pub functions: Vec<Extent>,
    /// Where each executable section is.
    pub executable_sections: Vec<Extent>,
    /// Where each data section is.
    pub data_sections: Vec<Extent>,
}

/// Rounding up gives a multiple of the alignment, and adds less than it.
pub proof fn lemma_round_up(n: nat, align: nat)
    requires
        align > 0,
    ensures
        n <= round_up(n, align) < n + align,
        round_up(n, align) % align == 0,
{
    if n % align != 0 {
        let r = n % align;
        vstd::arithmetic::div_mod::lemma_fundamental_div_mod(n as int, align as int);
        let q = n as int / align as int;
        assert(n + align - r == align * (q + 1)) by (nonlinear_arith)
            requires
                n == align * q + r,
        ;
        vstd::arithmetic::div_mod::lemma_mod_multiples_basic(q + 1, align as int);
        assert((align * (q + 1)) % (align as int) == 0);
    }
}

/// Laying out more items only appends: what was laid out stays where it is.
pub proof fn lemma_laid_out_prefix(items: Seq<Seq<u8>>, align: nat, n: nat, m: nat)
    requires
        align > 0,
        n <= m,
    ensures
        laid_out(items, align, n).len() <= laid_out(items, align, m).len(),
        laid_out(items, align, m).subrange(0, laid_out(items, align, n).len() as int) == laid_out(
            items,
            align,
            n,
        ),
        laid_out(items, align, n).len() % align == 0,
    decreases m,
{
    if n > 0 {
        let before = laid_out(items, align, (n - 1) as nat) + items[n - 1];
        lemma_round_up(before.len(), align);
    }
    if n < m {
        lemma_laid_out_prefix(items, align, n, (m - 1) as nat);
    }
}

/// Every item is found in the layout where its extent says, in full.
pub proof fn lemma_laid_out_holds(items: Seq<Seq<u8>>, align: nat, n: nat, i: int)
    requires
        align > 0,
        0 <= i < n,
    ensures
        laid_out(items, align, i as nat).len() + items[i].len() <= laid_out(items, align, n).len(),
        laid_out(items, align, n).subrange(
            laid_out(items, align, i as nat).len() as int,
            (laid_out(items, align, i as nat).len() + items[i].len()) as int,
        ) == items[i],
{
    let upto = laid_out(items, align, (i + 1) as nat);
    let start = laid_out(items, align, i as nat);
    lemma_laid_out_prefix(items, align, (i + 1) as nat, n);
    assert(upto.subrange(start.len() as int, (start.len() + items[i].len()) as int) =~= items[i]);
}

/// What is laid out does not overlap: an item ends before the next one starts.
pub proof fn lemma_laid_out_disjoint(items: Seq<Seq<u8>>, align: nat, i: int, j: int)
    requires
        align > 0,
        0 <= i < j <= items.len(),
    ensures
        laid_out(items, align, i as nat).len() + items[i].len() <= laid_out(items, align, j as nat).len(),
{
    lemma_laid_out_holds(items, align, j as nat, i);
}

/// Appends `bytes` to the image and pads it to a multiple of `align`.
fn append_padded(image: &mut Vec<u8>, bytes: &[u8], align: usize)
    requires
        align > 0,
    ensures
        final(image)@ == padded(old(image)@ + bytes@, align as nat),
{
    let ghost start = image@;
    let mut i: usize = 0;
    while i < bytes.len()
        invariant
            i <= bytes@.len(),
            image@ == start + bytes@.take(i as int),
        decreases bytes@.len() - i,
    {
        image.push(bytes[i]);
        i += 1;
    }
    let ghost filled = image@;
    proof {
        lemma_round_up(filled.len(), align as nat);
    }
    while image.len() % align != 0
        invariant
            align > 0,
            filled.len() <= image@.len() <= round_up(filled.len(), align as nat),
            round_up(filled.len(), align as nat) % (align as nat) == 0,
            image@ == filled + zeros((image@.len() - filled.len()) as nat),
        decreases round_up(filled.len(), align as nat) - image@.len(),
    {
        image.push(0);
    }
    proof {
        lemma_multiple_between(filled.len(), image@.len(), align as nat);
    }
}

/// A multiple of the alignment between a number and the number rounded up is
/// the number rounded up.
proof fn lemma_multiple_between(n: nat, reached: nat, align: nat)
    requires
        align > 0,
        n <= reached <= round_up(n, align),
        reached % align == 0,
    ensures
        reached == round_up(n, align),
{
    lemma_round_up(n, align);
    let target = round_up(n, align);
    if reached < target {
        vstd::arithmetic::div_mod::lemma_fundamental_div_mod(reached as int, align as int);
        vstd::arithmetic::div_mod::lemma_fundamental_div_mod(target as int, align as int);
        let a = reached as int / align as int;
        let b = target as int / align as int;
        assert(align * b - align * a >= align) by (nonlinear_arith)
            requires
                align * a < align * b,
                align > 0,
        ;
    }
}

/// Lays out `items` behind what the image holds, and says where each went.
fn place_all(image: &mut Vec<u8>, items: &[&[u8]], align: usize) -> (extents: Vec<Extent>)
    requires
        align > 0,
        old(image)@.len() % (align as nat) == 0,
    ensures
        final(image)@ == old(image)@ + laid_out(contents(items@), align as nat, items@.len()),
        extents@.len() == items@.len(),
        forall|i: int|
            0 <= i < items@.len() ==> #[trigger] extents@[i] == extent_of(
                contents(items@),
                align as nat,
                old(image)@.len(),
                i,
            ),
{
    let ghost start = image@;
    let ghost all = contents(items@);
    let mut extents: Vec<Extent> = Vec::new();
    let mut i: usize = 0;
    while i < items.len()
        invariant
            align > 0,
            start.len() % (align as nat) == 0,
            all == contents(items@),
            i <= items@.len(),
            image@ == start + laid_out(all, align as nat, i as nat),
            extents@.len() == i,
            forall|k: int|
                0 <= k < i ==> #[trigger] extents@[k] == extent_of(all, align as nat, start.len(), k),
        decreases items@.len() - i,
    {
        let offset = image.len();
        append_padded(image, items[i], align);
        proof {
            let laid = laid_out(all, align as nat, i as nat);
            let grown = laid + all[i as int];
            // Padding counts from a start that is itself aligned.
            lemma_round_up_shift(start.len(), grown.len(), align as nat);
        }
        extents.push(Extent { offset, len: items[i].len() });
        i += 1;
    }
    extents
}

/// Rounding up from behind an aligned start is rounding up what follows it.
pub proof fn lemma_round_up_shift(start: nat, n: nat, align: nat)
    requires
        align > 0,
        start % align == 0,
    ensures
        round_up(start + n, align) == start + round_up(n, align),
{
    vstd::arithmetic::div_mod::lemma_fundamental_div_mod(start as int, align as int);
    let q = start as int / align as int;
    vstd::arithmetic::div_mod::lemma_mod_multiples_vanish(q, n as int, align as int);
}

/// What may be done with a code memory.
#[derive(Clone, Copy, Debug, PartialEq, Eq, Structural)]
pub enum Protection {
    /// The memory can be read and written, and not executed.
    ReadWrite,
    /// The executable part can be read and executed, the data read; nothing
    /// can be written.
    ReadExecute,
}

/// The memory that holds the code of one loaded module.
#[derive(Debug)]
pub struct CodeMemory {
    base: usize,
    capacity: usize,
    image: Vec<u8>,
    executable_len: usize,
    protection: Protection,
}

/// What a code memory is.
pub struct CodeMemoryView {
    /// The address at which the memory is placed.
    pub base: nat,
    /// The most bytes the memory can hold.
    pub capacity: nat,
    /// What the memory holds.
    pub image: Seq<u8>,
    /// How many bytes, from the start, are executable once published.
    pub executable_len: nat,
    /// What may be done with the memory.
    pub protection: Protection,
}

impl View for CodeMemory {
    type V = CodeMemoryView;

    closed spec fn view(&self) -> CodeMemoryView {
        CodeMemoryView {
            base: self.base as nat,
            capacity: self.capacity as nat,
            image: self.image@,
            executable_len: self.executable_len as nat,
            protection: self.protection,
        }
    }
}

impl CodeMemory {
    /// The image fits the memory, the memory fits the address space, and
    /// the executable part ends at a page boundary within the image.
    pub open spec fn wf(&self) -> bool {
        &&& self@.image.len() <= self@.capacity
        &&& self@.base + self@.capacity <= usize::MAX
        &&& self@.executable_len <= self@.image.len()
        &&& self@.executable_len % (PAGE_SIZE as nat) == 0
    }

    /// A writable code memory of `capacity` bytes at address `base`, which holds nothing.
    pub fn new(base: usize, capacity: usize) -> (memory: Self)
        requires
            base + capacity <= usize::MAX,
        ensures
            memory.wf(),
            memory@ == (CodeMemoryView {
                base: base as nat,
                capacity: capacity as nat,
                image: Seq::empty(),
                executable_len: 0,
                protection: Protection::ReadWrite,
            }),
    {
        CodeMemory {
            base,
            capacity,
            image: Vec::new(),
            executable_len: 0,
            protection: Protection::ReadWrite,
        }
    }

    /// The address at which the memory is placed.
    pub fn base(&self) -> (base: usize)
        ensures
            base == self@.base,
    {
        self.base
    }

    /// What the memory holds.
    pub fn image(&self) -> (image: &[u8])
        ensures
            image@ == self@.image,
    {
        self.image.as_slice()
    }

    /// How many bytes, from the start, are executable once published.
    pub fn executable_len(&self) -> (len: usize)
        ensures
            len == self@.executable_len,
    {
        self.executable_len
    }

    /// What may be done with the memory.
    pub fn protection(&self) -> (protection: Protection)
        ensures
            protection == self@.protection,
    {
        self.protection
    }

    /// Lays out the function bodies, the executable sections and the data
    /// sections in the memory and copies them in.
    ///
    /// Fails, and leaves the memory as it is, if the image does not fit.
    pub fn allocate(
        &mut self,
        functions: &[&[u8]],
        executable_sections: &[&[u8]],
        data_sections: &[&[u8]],
    ) -> (allocated: Result<Allocation, String>)
        requires
            old(self).wf(),
            old(self)@.image.len() == 0,
            old(self)@.protection == Protection::ReadWrite,
        ensures
            final(self).wf(),
            allocated is Ok <==> image_of(
                contents(functions@),
                contents(executable_sections@),
                contents(data_sections@),
            ).len() <= old(self)@.capacity,
            allocated is Err ==> final(self)@ == old(self)@,
            allocated matches Ok(allocation) ==> {
                &&& final(self)@ == (CodeMemoryView {
                    image: image_of(
                        contents(functions@),
                        contents(executable_sections@),
                        contents(data_sections@),
                    ),
                    executable_len: executable_image(
                        contents(functions@),
                        contents(executable_sections@),
                    ).len(),
                    ..old(self)@
                })
                &&& allocation.functions@.len() == functions@.len()
                &&& allocation.executable_sections@.len() == executable_sections@.len()
                &&& allocation.data_sections@.len() == data_sections@.len()
                &&& forall|i: int|
                    0 <= i < functions@.len() ==> #[trigger] allocation.functions@[i] == extent_of(
                        contents(functions@) + contents(executable_sections@),
                        ARCH_FUNCTION_ALIGNMENT as nat,
                        0,
                        i,
                    )
                &&& forall|i: int|
                    0 <= i < executable_sections@.len()
                        ==> #[trigger] allocation.executable_sections@[i] == extent_of(
                        contents(functions@) + contents(executable_sections@),
                        ARCH_FUNCTION_ALIGNMENT as nat,
                        0,
                        functions@.len() + i,
                    )
                &&& forall|i: int|
                    0 <= i < data_sections@.len() ==> #[trigger] allocation.data_sections@[i]
                        == extent_of(
                        contents(data_sections@),
                        DATA_SECTION_ALIGNMENT as nat,
                        executable_image(contents(functions@), contents(executable_sections@)).len(),
                        i,
                    )
            },
    {
        let ghost code = contents(functions@) + contents(executable_sections@);
        let mut image: Vec<u8> = Vec::new();
        let function_extents = place_all(&mut image, functions, ARCH_FUNCTION_ALIGNMENT);
        let section_extents = place_all(&mut image, executable_sections, ARCH_FUNCTION_ALIGNMENT);
        proof {
            lemma_laid_out_concat(
                contents(functions@),
                contents(executable_sections@),
                ARCH_FUNCTION_ALIGNMENT as nat,
                executable_sections@.len(),
            );
            assert forall|i: int| 0 <= i < functions@.len() implies #[trigger] function_extents@[i]
                == extent_of(code, ARCH_FUNCTION_ALIGNMENT as nat, 0, i) by {
                lemma_laid_out_front(
                    contents(functions@),
                    contents(executable_sections@),
                    ARCH_FUNCTION_ALIGNMENT as nat,
                    i as nat,
                );
            }
            assert forall|i: int|
                0 <= i < executable_sections@.len() implies #[trigger] section_extents@[i]
                == extent_of(code, ARCH_FUNCTION_ALIGNMENT as nat, 0, functions@.len() + i) by {
                lemma_laid_out_concat(
                    contents(functions@),
                    contents(executable_sections@),
                    ARCH_FUNCTION_ALIGNMENT as nat,
                    i as nat,
                );
            }
        }
        let empty: [u8; 0] = [];
        append_padded(&mut image, empty.as_slice(), PAGE_SIZE);
        let executable_len = image.len();
        let data_extents = place_all(&mut image, data_sections, DATA_SECTION_ALIGNMENT);
        if image.len() > self.capacity {
            return Err("not enough code memory for the module".to_string());
        }
        self.image = image;
        self.executable_len = executable_len;
        Ok(
            Allocation {
                functions: function_extents,
                executable_sections: section_extents,
                data_sections: data_extents,
            },
        )
    }

    /// Applies relocations, in order, to the code that starts `body` bytes
    /// into the image. The memory has to be writable.
    pub fn relocate(&mut self, body: usize, relocations: &[Relocation], addresses: &Addresses<'_>)
        requires
            old(self).wf(),
            old(self)@.protection == Protection::ReadWrite,
            relocations_fit(relocations@, addresses@, body as int, old(self)@.image.len() as int),
        ensures
            final(self).wf(),
            final(self)@ == (CodeMemoryView {
                image: relocated_all(
                    old(self)@.image,
                    old(self)@.base as int,
                    body as int,
                    relocations@,
                    addresses@,
                    relocations@.len(),
                ),
                ..old(self)@
            }),
            final(self)@.image.len() == old(self)@.image.len(),
    {
        apply_relocations(&mut self.image, self.base, body, relocations, addresses);
    }

    /// Make the memory executable: from now on nothing can be written to it.
    pub fn publish(&mut self)
        requires
            old(self).wf(),
        ensures
            final(self).wf(),
            final(self)@ == (CodeMemoryView { protection: Protection::ReadExecute, ..old(self)@ }),
    {
        self.protection = Protection::ReadExecute;
    }
}

/// A bounded pool of code memories: regions that the host has reserved and
/// that hold nothing yet.
#[derive(Debug)]
pub struct LimitedMemoryPool {
    regions: Vec<CodeMemory>,
}

impl LimitedMemoryPool {
    /// The regions that are left, in the order in which they were added.
    pub closed spec fn view(&self) -> Seq<CodeMemoryView> {
        Seq::new(self.regions@.len(), |i: int| self.regions@[i]@)
    }

    /// Every region that is left is well formed, writable and holds nothing.
    pub closed spec fn wf(&self) -> bool {
        forall|i: int|
            0 <= i < self.regions@.len() ==> (#[trigger] self.regions@[i]).wf()
                && self.regions@[i]@.image.len() == 0 && self.regions@[i]@.protection
                == Protection::ReadWrite
    }

    /// A pool without regions.
    pub fn new() -> (pool: Self)
        ensures
            pool.wf(),
            pool@ == Seq::<CodeMemoryView>::empty(),
    {
        let pool = LimitedMemoryPool { regions: Vec::new() };
        pool
    }

    /// Adds a region of `capacity` bytes at address `base` to the pool.
    pub fn add(&mut self, base: usize, capacity: usize)
        requires
            old(self).wf(),
            base + capacity <= usize::MAX,
        ensures
            final(self).wf(),
            final(self)@ == old(self)@.push(
                CodeMemoryView {
                    base: base as nat,
                    capacity: capacity as nat,
                    image: Seq::empty(),
                    executable_len: 0,
                    protection: Protection::ReadWrite,
                },
            ),
    {
        self.regions.push(CodeMemory::new(base, capacity));
    }

    /// The number of regions that are left.
    pub fn len(&self) -> (count: usize)
        ensures
            count == self@.len(),
    {
        self.regions.len()
    }

    /// Takes the region that was added last out of the pool, if one is left.
    pub fn get(&mut self) -> (region: Option<CodeMemory>)
        requires
            old(self).wf(),
        ensures
            final(self).wf(),
            region is Some <==> old(self)@.len() > 0,
            region matches Some(memory) ==> memory.wf() && memory@.image.len() == 0
                && memory@.protection == Protection::ReadWrite && memory@ == old(self)@.last()
                && final(self)@ == old(self)@.drop_last(),
            region is None ==> final(self)@ == old(self)@,
    {
        let region = self.regions.pop();
        region
    }
}

/// Laying out two lists one after the other is laying out their concatenation.
proof fn lemma_laid_out_concat(a: Seq<Seq<u8>>, b: Seq<Seq<u8>>, align: nat, n: nat)
    requires
        align > 0,
        n <= b.len(),
    ensures
        laid_out(a + b, align, a.len() + n) == laid_out(a, align, a.len()) + laid_out(b, align, n),
    decreases n,
{
    if n == 0 {
        lemma_laid_out_front(a, b, align, a.len());
    } else {
        lemma_laid_out_concat(a, b, align, (n - 1) as nat);
        lemma_laid_out_prefix(a, align, a.len(), a.len());
        let head = laid_out(a, align, a.len());
        let tail = laid_out(b, align, (n - 1) as nat) + b[n - 1];
        lemma_round_up_shift(head.len(), tail.len(), align);
    }
}

/// The layout of the first items of a list does not depend on what follows them.
proof fn lemma_laid_out_front(a: Seq<Seq<u8>>, b: Seq<Seq<u8>>, align: nat, n: nat)
    requires
        n <= a.len(),
    ensures
        laid_out(a + b, align, n) == laid_out(a, align, n),
    decreases n,
{
    if n > 0 {
        lemma_laid_out_front(a, b, align, (n - 1) as nat);
    }
}

} // verus!
