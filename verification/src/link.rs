//! Linking: patching the sites of relocations in an image of compiled code,
//! once the address of everything the code refers to is known.

use crate::compilation::{Relocation, RelocationKind, RelocationTarget};
use crate::executable::le_bytes;
use vstd::prelude::*;

verus! {

/// The number of bytes that a relocation of this kind patches.
pub open spec fn relocation_width(kind: RelocationKind) -> nat {
    match kind {
        RelocationKind::Abs8 => 8,
        RelocationKind::X86PCRel4 => 4,
        RelocationKind::X86PCRel8 => 8,
    }
}

/// The number that a relocation writes at its site: the address of the
/// target plus the addend, absolute or counted from the site, cut to the
/// width of the site.
pub open spec fn relocation_value(
    kind: RelocationKind,
    site_address: int,
    target_address: int,
    addend: int,
) -> nat {
    match kind {
        RelocationKind::Abs8 => ((target_address + addend) % 0x1_0000_0000_0000_0000) as nat,
        RelocationKind::X86PCRel4 => ((target_address + addend - site_address) % 0x1_0000_0000) as nat,
        RelocationKind::X86PCRel8 => ((target_address + addend - site_address)
            % 0x1_0000_0000_0000_0000) as nat,
    }
}

/// An image with `bytes` written over what it held from position `at`.
pub open spec fn patched(image: Seq<u8>, at: int, bytes: Seq<u8>) -> Seq<u8> {
    image.subrange(0, at) + bytes + image.subrange(at + bytes.len(), image.len() as int)
}

/// Where everything that code can refer to has been placed.
pub struct Addresses<'a> {
    /// The address of each function defined in the module.
    pub functions: &'a [usize],
    /// The offset of each jump table of each function, from the start of the function.
    pub jt_offsets: &'a [Vec<u32>],
    /// The address of each custom section.
    pub sections: &'a [usize],
    /// The address of each built-in routine of the runtime.
    pub libcalls: &'a [usize],
}

/// What is known of where everything has been placed.
pub struct AddressesView {
    /// The address of each function defined in the module.
    pub functions: Seq<usize>,
    /// The offset of each jump table of each function, from the start of the function.
    pub jt_offsets: Seq<Seq<u32>>,
    /// The address of each custom section.
    pub sections: Seq<usize>,
    /// The address of each built-in routine of the runtime.
    pub libcalls: Seq<usize>,
}

impl<'a> View for Addresses<'a> {
    type V = AddressesView;

    open spec fn view(&self) -> AddressesView {
        AddressesView {
            functions: self.functions@,
            jt_offsets: Seq::new(self.jt_offsets@.len(), |i: int| self.jt_offsets@[i]@),
            sections: self.sections@,
            libcalls: self.libcalls@,
        }
    }
}

/// Whether the target of a relocation is among what has been placed.
pub open spec fn target_known(target: RelocationTarget, addresses: AddressesView) -> bool {
    match target {
        RelocationTarget::LocalFunc(f) => f.index() < addresses.functions.len(),
        RelocationTarget::LibCall(l) => l.0 < addresses.libcalls.len(),
        RelocationTarget::JumpTable(f, jt) => f.index() < addresses.functions.len() && f.index()
            < addresses.jt_offsets.len() && jt.index() < addresses.jt_offsets[f.index() as int].len(),
        RelocationTarget::CustomSection(s) => s.index() < addresses.sections.len(),
    }
}

/// The address of the target of a relocation.
pub open spec fn target_address(target: RelocationTarget, addresses: AddressesView) -> int {
    match target {
        RelocationTarget::LocalFunc(f) => addresses.functions[f.index() as int] as int,
        RelocationTarget::LibCall(l) => addresses.libcalls[l.0 as int] as int,
        RelocationTarget::JumpTable(f, jt) => addresses.functions[f.index() as int]
            + addresses.jt_offsets[f.index() as int][jt.index() as int],
        RelocationTarget::CustomSection(s) => addresses.sections[s.index() as int] as int,
    }
}

/// Whether a relocation can be applied to code that starts `body` bytes into
/// an image of `len` bytes: its target is known and its site lies within the
/// image.
pub open spec fn relocation_fits(r: Relocation, addresses: AddressesView, body: int, len: int) -> bool {
    target_known(r.reloc_target, addresses) && body + r.offset + relocation_width(r.kind) <= len
}

/// The image with one relocation applied to the code that starts `body`
/// bytes into it, where the image is placed at address `base`.
pub open spec fn relocated(
    image: Seq<u8>,
    base: int,
    body: int,
    r: Relocation,
    addresses: AddressesView,
) -> Seq<u8> {
    patched(
        image,
        body + r.offset,
        le_bytes(
            relocation_value(
                r.kind,
                base + body + r.offset,
                target_address(r.reloc_target, addresses),
                r.addend as int,
            ),
            relocation_width(r.kind),
        ),
    )
}

/// Whether the first `n` of `relocations` can be applied, in order.
pub open spec fn relocations_fit(
    relocations: Seq<Relocation>,
    addresses: AddressesView,
    body: int,
    len: int,
) -> bool {
    forall|i: int| 0 <= i < relocations.len() ==> relocation_fits(#[trigger] relocations[i], addresses, body, len)
}

/// The image with the first `n` of `relocations` applied in order to the
/// code that starts `body` bytes into it.
pub open spec fn relocated_all(
    image: Seq<u8>,
    base: int,
    body: int,
    relocations: Seq<Relocation>,
    addresses: AddressesView,
    n: nat,
) -> Seq<u8>
    decreases n,
{
    if n == 0 {
        image
    } else {
        relocated(
            relocated_all(image, base, body, relocations, addresses, (n - 1) as nat),
            base,
            body,
            relocations[n - 1],
            addresses,
        )
    }
}

/// Applying relocations keeps the length of the image.
pub proof fn lemma_relocated_len(
    image: Seq<u8>,
    base: int,
    body: int,
    relocations: Seq<Relocation>,
    addresses: AddressesView,
    n: nat,
)
    requires
        n <= relocations.len(),
        body >= 0,
        relocations_fit(relocations, addresses, body, image.len() as int),
    ensures
        relocated_all(image, base, body, relocations, addresses, n).len() == image.len(),
    decreases n,
{
    if n > 0 {
        lemma_relocated_len(image, base, body, relocations, addresses, (n - 1) as nat);
        let r = relocations[n - 1];
        crate::executable::lemma_le_round_trip(
            relocation_value(
                r.kind,
                base + body + r.offset,
                target_address(r.reloc_target, addresses),
                r.addend as int,
            ),
            relocation_width(r.kind),
        );
    }
}

/// A relocation changes the bytes of its site and no other: the site then
/// holds the value of the relocation, lowest byte first.
pub proof fn lemma_relocated_site(
    image: Seq<u8>,
    base: int,
    body: int,
    r: Relocation,
    addresses: AddressesView,
)
    requires
        body >= 0,
        relocation_fits(r, addresses, body, image.len() as int),
    ensures
        relocated(image, base, body, r, addresses).len() == image.len(),
        crate::executable::le_value(
            relocated(image, base, body, r, addresses).subrange(
                body + r.offset,
                body + r.offset + relocation_width(r.kind),
            ),
        ) == relocation_value(
            r.kind,
            base + body + r.offset,
            target_address(r.reloc_target, addresses),
            r.addend as int,
        ),
        forall|i: int|
            0 <= i < image.len() && !(body + r.offset <= i < body + r.offset + relocation_width(r.kind))
                ==> relocated(image, base, body, r, addresses)[i] == image[i],
{
    let value = relocation_value(
        r.kind,
        base + body + r.offset,
        target_address(r.reloc_target, addresses),
        r.addend as int,
    );
    let width = relocation_width(r.kind);
    crate::executable::lemma_le_round_trip(value, width);
    reveal_with_fuel(crate::executable::pow256, 9);
    crate::executable::lemma_le_value(value, width);
    assert(relocated(image, base, body, r, addresses).subrange(
        body + r.offset,
        body + r.offset + relocation_width(r.kind),
    ) =~= le_bytes(value, width));
}

/// Writes the `width` lowest bytes of `value`, lowest first, from position `at`.
pub fn write_le(image: &mut Vec<u8>, at: usize, value: u64, width: usize)
    requires
        at + width <= old(image)@.len(),
    ensures
        final(image)@ == patched(old(image)@, at as int, le_bytes(value as nat, width as nat)),
{
    let ghost start = image@;
    let total = image.len();
    let mut rest = value;
    let mut i: usize = 0;
    proof {
        crate::executable::lemma_le_round_trip(value as nat, width as nat);
    }
    while i < width
        invariant
            i <= width,
            at + width <= start.len() == total,
            image@.len() == start.len(),
            image@.subrange(0, at + i) + le_bytes(rest as nat, (width - i) as nat) + start.subrange(
                at + width,
                start.len() as int,
            ) == patched(start, at as int, le_bytes(value as nat, width as nat)),
            image@.subrange(at + width, start.len() as int) == start.subrange(
                at + width,
                start.len() as int,
            ),
        decreases width - i,
    {
        image.set(at + i, (rest % 256) as u8);
        rest = rest / 256;
        i += 1;
    }
}

/// The address of the target of a relocation.
pub fn address_of(target: RelocationTarget, addresses: &Addresses<'_>) -> (address: u128)
    requires
        target_known(target, addresses@),
    ensures
        address == target_address(target, addresses@),
{
    match target {
        RelocationTarget::LocalFunc(f) => addresses.functions[f.index()] as u128,
        RelocationTarget::LibCall(l) => addresses.libcalls[l.0 as usize] as u128,
        RelocationTarget::JumpTable(f, jt) => addresses.functions[f.index()] as u128
            + addresses.jt_offsets[f.index()][jt.index()] as u128,
        RelocationTarget::CustomSection(s) => addresses.sections[s.index()] as u128,
    }
}

/// The number that a relocation writes at its site.
pub fn value_of(kind: RelocationKind, site_address: usize, target_address: u128, addend: i64) -> (value:
    u64)
    requires
        target_address <= 2 * u64::MAX,
    ensures
        value == relocation_value(kind, site_address as int, target_address as int, addend as int),
{
    let shift: i128 = 0x3_0000_0000_0000_0000;
    let absolute: i128 = target_address as i128 + addend as i128;
    let relative: i128 = absolute - site_address as i128;
    match kind {
        RelocationKind::Abs8 => ((absolute + shift) as u128 % 0x1_0000_0000_0000_0000) as u64,
        RelocationKind::X86PCRel4 => ((relative + shift) as u128 % 0x1_0000_0000) as u64,
        RelocationKind::X86PCRel8 => ((relative + shift) as u128 % 0x1_0000_0000_0000_0000) as u64,
    }
}

/// The number of bytes that a relocation of this kind patches.
pub fn width_of(kind: RelocationKind) -> (width: usize)
    ensures
        width == relocation_width(kind),
{
    match kind {
        RelocationKind::Abs8 => 8,
        RelocationKind::X86PCRel4 => 4,
        RelocationKind::X86PCRel8 => 8,
    }
}

/// Whether a relocation can be applied to code that starts `body` bytes into
/// an image of `len` bytes.
pub fn fits(r: &Relocation, addresses: &Addresses<'_>, body: usize, len: usize) -> (fits: bool)
    ensures
        fits == relocation_fits(*r, addresses@, body as int, len as int),
{
    let known = match r.reloc_target {
        RelocationTarget::LocalFunc(f) => f.index() < addresses.functions.len(),
        RelocationTarget::LibCall(l) => (l.0 as usize) < addresses.libcalls.len(),
        RelocationTarget::JumpTable(f, jt) => f.index() < addresses.functions.len() && f.index()
            < addresses.jt_offsets.len() && jt.index() < addresses.jt_offsets[f.index()].len(),
        RelocationTarget::CustomSection(s) => s.index() < addresses.sections.len(),
    };
    known && body as u128 + r.offset as u128 + width_of(r.kind) as u128 <= len as u128
}

/// Applies one relocation to the code that starts `body` bytes into the
/// image, where the image is placed at address `base`.
pub fn apply_relocation(
    image: &mut Vec<u8>,
    base: usize,
    body: usize,
    r: &Relocation,
    addresses: &Addresses<'_>,
)
    requires
        relocation_fits(*r, addresses@, body as int, old(image)@.len() as int),
        base + old(image)@.len() <= usize::MAX,
    ensures
        final(image)@ == relocated(old(image)@, base as int, body as int, *r, addresses@),
{
    let site = body + r.offset as usize;
    let target = address_of(r.reloc_target, addresses);
    let value = value_of(r.kind, base + site, target, r.addend);
    write_le(image, site, value, width_of(r.kind));
}

/// Applies relocations, in order, to the code that starts `body` bytes into
/// the image, where the image is placed at address `base`.
pub fn apply_relocations(
    image: &mut Vec<u8>,
    base: usize,
    body: usize,
    relocations: &[Relocation],
    addresses: &Addresses<'_>,
)
    requires
        relocations_fit(relocations@, addresses@, body as int, old(image)@.len() as int),
        base + old(image)@.len() <= usize::MAX,
    ensures
        final(image)@ == relocated_all(
            old(image)@,
            base as int,
            body as int,
            relocations@,
            addresses@,
            relocations@.len(),
        ),
        final(image)@.len() == old(image)@.len(),
{
    let ghost start = image@;
    let mut i: usize = 0;
    while i < relocations.len()
        invariant
            i <= relocations@.len(),
            relocations_fit(relocations@, addresses@, body as int, start.len() as int),
            base + start.len() <= usize::MAX,
            image@.len() == start.len(),
            image@ == relocated_all(start, base as int, body as int, relocations@, addresses@, i as nat),
        decreases relocations@.len() - i,
    {
        proof {
            lemma_relocated_len(start, base as int, body as int, relocations@, addresses@, (i + 1) as nat);
        }
        apply_relocation(image, base, body, &relocations[i], addresses);
        i += 1;
    }
}

} // verus!
