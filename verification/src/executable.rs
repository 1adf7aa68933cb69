//! The serialized form of a compiled module.
//!
//! ```text
//! offset 0..22      the magic header: "\0wasmer-universal" and five reserved bytes
//! offset 22..       the length L of the payload, in LEB128
//!                   the payload, L bytes
//! offset end-8..end the position of the root object within the payload,
//!                   as a little-endian u64
//! ```

use vstd::prelude::*;

verus! {

/// The length of the magic header.
pub const MAGIC_HEADER_LEN: usize = 22;

/// The most bytes that the LEB128 form of a payload length takes.
pub const MAX_LENGTH_BYTES: usize = 10;

/// The bytes every serialized executable starts with.
pub open spec fn magic_header() -> Seq<u8> {
    seq![
        0u8, 0x77, 0x61, 0x73, 0x6d, 0x65, 0x72, 0x2d, 0x75, 0x6e, 0x69, 0x76, 0x65, 0x72, 0x73,
        0x61, 0x6c, 0xFF, 0xFF, 0xFF, 0xFF, 0xFF,
    ]
}

/// The bytes every serialized executable starts with.
pub fn magic_header_bytes() -> (magic: [u8; 22])
    ensures
        magic@ == magic_header(),
{
    let magic = [
        0u8, 0x77, 0x61, 0x73, 0x6d, 0x65, 0x72, 0x2d, 0x75, 0x6e, 0x69, 0x76, 0x65, 0x72, 0x73,
        0x61, 0x6c, 0xFF, 0xFF, 0xFF, 0xFF, 0xFF,
    ];
    magic
}

/// A number in unsigned LEB128: seven bits to a byte, lowest first, the high
/// bit set on every byte but the last.
pub open spec fn leb128(n: nat) -> Seq<u8>
    decreases n,
{
    if n < 128 {
        seq![n as u8]
    } else {
        seq![(n % 128 + 128) as u8] + leb128(n / 128)
    }
}

/// The number that starts `bytes` in unsigned LEB128 and the count of bytes it
/// takes, if it ends within `limit` bytes.
pub open spec fn leb128_decode(bytes: Seq<u8>, limit: nat) -> Option<(nat, nat)>
    decreases limit,
{
    if limit == 0 || bytes.len() == 0 {
        None
    } else if bytes[0] < 128 {
        Some((bytes[0] as nat, 1nat))
    } else {
        match leb128_decode(bytes.skip(1), (limit - 1) as nat) {
            Some((value, count)) => Some(((bytes[0] - 128 + 128 * value) as nat, count + 1)),
            None => None,
        }
    }
}

/// The `width` lowest bytes of a number, lowest first.
pub open spec fn le_bytes(n: nat, width: nat) -> Seq<u8>
    decreases width,
{
    if width == 0 {
        Seq::empty()
    } else {
        seq![(n % 256) as u8] + le_bytes(n / 256, (width - 1) as nat)
    }
}

/// The number that `bytes` hold, lowest byte first.
pub open spec fn le_value(bytes: Seq<u8>) -> nat
    decreases bytes.len(),
{
    if bytes.len() == 0 {
        0
    } else {
        bytes[0] as nat + 256 * le_value(bytes.skip(1))
    }
}

/// The serialized form of a payload whose root object is at position `root`.
pub open spec fn frame(payload: Seq<u8>, root: u64) -> Seq<u8> {
    magic_header() + leb128(payload.len()) + payload + le_bytes(root as nat, 8)
}

/// Why a buffer is not a serialized executable.
#[derive(Clone, Copy, Debug, PartialEq, Eq, Structural)]
pub enum FrameError {
    /// The buffer does not start with the magic header.
    NotUniversal,
    /// The buffer is too short to hold a length and a root position.
    TooSmall,
    /// The length does not decode, does not match the buffer, or the root
    /// position lies outside the payload.
    Malformed,
}

/// What a serialized executable holds: where its payload starts, how long it
/// is, and where in it the root object is.
pub struct FrameView {
    /// The position of the first byte of the payload in the buffer.
    pub start: nat,
    /// The length of the payload.
    pub len: nat,
    /// The position of the root object within the payload.
    pub root: nat,
}

/// Takes a buffer apart: the frame it holds, or why it holds none.
pub open spec fn parse_frame(data: Seq<u8>) -> Result<FrameView, FrameError> {
    if !(data.len() >= 22 && data.subrange(0, 22) == magic_header()) {
        Err(FrameError::NotUniversal)
    } else if data.len() < 22 + 8 {
        Err(FrameError::TooSmall)
    } else {
        match leb128_decode(data.subrange(22, data.len() - 8), 10) {
            None => Err(FrameError::Malformed),
            Some((len, count)) => {
                let root = le_value(data.subrange(data.len() - 8, data.len() as int));
                if 22 + count + len + 8 == data.len() && root <= len {
                    Ok(FrameView { start: 22 + count, len, root })
                } else {
                    Err(FrameError::Malformed)
                }
            },
        }
    }
}

/// A number that decodes takes at least one byte, and no more than there are
/// or the limit allows.
pub proof fn lemma_leb128_decode_count(bytes: Seq<u8>, limit: nat)
    ensures
        leb128_decode(bytes, limit) matches Some((value, count)) ==> 1 <= count <= limit && count
            <= bytes.len(),
    decreases limit,
{
    if limit > 0 && bytes.len() > 0 && bytes[0] >= 128 {
        lemma_leb128_decode_count(bytes.skip(1), (limit - 1) as nat);
    }
}

/// The payload of a frame lies between the length and the root position,
/// and the root position lies within the payload.
pub proof fn lemma_parse_frame_bounds(data: Seq<u8>)
    ensures
        parse_frame(data) matches Ok(frame) ==> 23 <= frame.start <= 32 && frame.start + frame.len
            + 8 == data.len() && frame.root <= frame.len,
{
    if data.len() >= 30 {
        lemma_leb128_decode_count(data.subrange(22, data.len() - 8), 10);
    }
}

/// What is said of a buffer that is not a serialized executable.
pub open spec fn frame_error_message(error: FrameError) -> Seq<char> {
    match error {
        FrameError::NotUniversal => "the provided bytes are not wasmer-universal"@,
        FrameError::TooSmall => "the data buffer is too small to be valid"@,
        FrameError::Malformed => "the buffer is malformed"@,
    }
}

/// Decoding what was encoded gives the number back, whatever follows it.
pub proof fn lemma_leb128_round_trip(n: nat, rest: Seq<u8>, limit: nat)
    requires
        leb128(n).len() <= limit,
    ensures
        leb128_decode(leb128(n) + rest, limit) == Some((n, leb128(n).len())),
    decreases n,
{
    if n >= 128 {
        assert((leb128(n) + rest).skip(1) =~= leb128(n / 128) + rest);
        lemma_leb128_round_trip(n / 128, rest, (limit - 1) as nat);
    }
}

/// A number below 2⁶⁴ takes at most ten bytes in LEB128.
pub proof fn lemma_leb128_len(n: nat)
    requires
        n <= u64::MAX,
    ensures
        1 <= leb128(n).len() <= 10,
{
    reveal_with_fuel(leb128, 11);
}

/// The bytes of a number give the number back, if it fits in them.
pub proof fn lemma_le_value(n: nat, width: nat)
    requires
        n < pow256(width),
    ensures
        le_value(le_bytes(n, width)) == n,
    decreases width,
{
    if width > 0 {
        let bytes = le_bytes(n, width);
        assert(bytes.skip(1) =~= le_bytes(n / 256, (width - 1) as nat));
        lemma_le_value(n / 256, (width - 1) as nat);
    }
}

/// The eight bytes of a number below 2⁶⁴ give the number back.
pub proof fn lemma_le_round_trip(n: nat, width: nat)
    ensures
        le_bytes(n, width).len() == width,
        width == 8 && n <= u64::MAX ==> le_value(le_bytes(n, width)) == n,
{
    lemma_le_len(n, width);
    if width == 8 && n <= u64::MAX {
        reveal_with_fuel(le_bytes, 9);
        reveal_with_fuel(le_value, 9);
    }
}

proof fn lemma_le_len(n: nat, width: nat)
    ensures
        le_bytes(n, width).len() == width,
    decreases width,
{
    if width > 0 {
        lemma_le_len(n / 256, (width - 1) as nat);
    }
}

/// Serializing is deterministic and loses nothing: a framed payload parses,
/// and parsing gives back the payload's place and the root position.
pub proof fn lemma_frame_round_trip(payload: Seq<u8>, root: u64)
    requires
        payload.len() <= u64::MAX,
        root <= payload.len(),
    ensures
        parse_frame(frame(payload, root)) == Ok::<FrameView, FrameError>(
            FrameView {
                start: 22 + leb128(payload.len()).len(),
                len: payload.len(),
                root: root as nat,
            },
        ),
        frame(payload, root).subrange(
            22 + leb128(payload.len()).len() as int,
            22 + leb128(payload.len()).len() + payload.len() as int,
        ) == payload,
{
    let data = frame(payload, root);
    let length = leb128(payload.len());
    lemma_leb128_len(payload.len());
    lemma_le_round_trip(root as nat, 8);
    assert(data.subrange(0, 22) =~= magic_header());
    assert(data.subrange(22, data.len() - 8) =~= length + payload);
    lemma_leb128_round_trip(payload.len(), payload, 10);
    assert(data.subrange(data.len() - 8, data.len() as int) =~= le_bytes(root as nat, 8));
}

/// Serializing loses nothing: payloads or root positions that differ give
/// serialized forms that differ.
pub proof fn lemma_frame_injective(payload: Seq<u8>, root: u64, other: Seq<u8>, other_root: u64)
    requires
        payload.len() <= u64::MAX,
        other.len() <= u64::MAX,
        root <= payload.len(),
        other_root <= other.len(),
        frame(payload, root) == frame(other, other_root),
    ensures
        payload == other,
        root == other_root,
{
    lemma_frame_round_trip(payload, root);
    lemma_frame_round_trip(other, other_root);
}

/// 128 to the power of `k`.
pub open spec fn pow128(k: nat) -> nat
    decreases k,
{
    if k == 0 {
        1
    } else {
        128 * pow128((k - 1) as nat)
    }
}

proof fn lemma_pow128_bound(k: nat)
    requires
        k <= 10,
    ensures
        1 <= pow128(k) <= 0x400000000000000000,
        k < 10 ==> pow128(k) <= 0x8000000000000000,
{
    reveal_with_fuel(pow128, 11);
}

/// Appends a number in unsigned LEB128.
pub fn encode_leb128(n: u64, out: &mut Vec<u8>)
    ensures
        final(out)@ == old(out)@ + leb128(n as nat),
{
    let mut rest = n;
    let ghost start = out@;
    while rest >= 128
        invariant
            out@ + leb128(rest as nat) == start + leb128(n as nat),
        decreases rest,
    {
        let ghost before = out@;
        out.push((rest % 128 + 128) as u8);
        rest = rest / 128;
    }
    let ghost before = out@;
    out.push(rest as u8);
}

/// What decoding gives for numbers that fit in 64 bits: the number that
/// starts `bytes` within ten bytes, and the count of bytes it takes.
pub open spec fn leb128_decode_u64(bytes: Seq<u8>) -> Option<(u64, usize)> {
    match leb128_decode(bytes, 10) {
        Some((value, count)) => if value <= u64::MAX {
            Some((value as u64, count as usize))
        } else {
            None
        },
        None => None,
    }
}

/// Reads the number in unsigned LEB128 that starts `data`.
pub fn decode_leb128(data: &[u8]) -> (decoded: Option<(u64, usize)>)
    ensures
        decoded == leb128_decode_u64(data@),
{
    let mut acc: u128 = 0;
    let mut mult: u128 = 1;
    let mut i: usize = 0;
    proof {
        assert(data@.skip(0) =~= data@);
    }
    while i < 10 && i < data.len()
        invariant
            i <= 10,
            i <= data@.len(),
            mult == pow128(i as nat),
            acc < mult,
            leb128_decode(data@, 10) == match leb128_decode(data@.skip(i as int), (10 - i) as nat) {
                Some((v, k)) => Some(((acc + mult * v) as nat, (k + i) as nat)),
                None => None,
            },
        decreases 10 - i,
    {
        let b = data[i];
        proof {
            lemma_pow128_bound(i as nat);
            assert(data@.skip(i as int).skip(1) =~= data@.skip(i + 1));
        }
        if b < 128 {
            assert(mult * b <= 0x8000000000000000 * 128) by (nonlinear_arith)
                requires
                    mult <= 0x8000000000000000,
                    b < 128,
            ;
            let value: u128 = acc + mult * (b as u128);
            return if value <= u64::MAX as u128 {
                Some((value as u64, i + 1))
            } else {
                None
            };
        }
        let low: u128 = (b - 128) as u128;
        assert(mult * low <= mult * 127 && mult * 128 == pow128((i + 1) as nat)) by (nonlinear_arith)
            requires
                low <= 127,
                mult == pow128(i as nat),
                pow128((i + 1) as nat) == 128 * pow128(i as nat),
        ;
        proof {
            match leb128_decode(data@.skip(i + 1), (10 - i - 1) as nat) {
                Some((v, k)) => {
                    assert(mult * (low + 128 * v) == mult * low + (mult * 128) * v)
                        by (nonlinear_arith);
                },
                None => {},
            }
        }
        acc = acc + mult * low;
        mult = mult * 128;
        i += 1;
    }
    None
}

/// Appends the eight bytes of a number, lowest first.
pub fn write_u64_le(n: u64, out: &mut Vec<u8>)
    ensures
        final(out)@ == old(out)@ + le_bytes(n as nat, 8),
{
    let mut rest = n;
    let ghost start = out@;
    let mut i: usize = 0;
    while i < 8
        invariant
            i <= 8,
            out@ + le_bytes(rest as nat, (8 - i) as nat) == start + le_bytes(n as nat, 8),
        decreases 8 - i,
    {
        out.push((rest % 256) as u8);
        rest = rest / 256;
        i += 1;
    }
}

/// Reads a number from its eight bytes, lowest first.
pub fn read_u64_le(bytes: &[u8]) -> (n: u64)
    requires
        bytes@.len() == 8,
    ensures
        n == le_value(bytes@),
{
    let mut acc: u64 = 0;
    let mut i: usize = 8;
    while i > 0
        invariant
            i <= 8,
            bytes@.len() == 8,
            acc == le_value(bytes@.skip(i as int)),
            acc < pow256((8 - i) as nat),
        decreases i,
    {
        i -= 1;
        proof {
            lemma_pow256_bound((8 - i - 1) as nat);
            assert(bytes@.skip(i as int).skip(1) =~= bytes@.skip(i + 1));
        }
        acc = acc * 256 + bytes[i] as u64;
    }
    proof {
        assert(bytes@.skip(0) =~= bytes@);
    }
    acc
}

/// 256 to the power of `k`.
pub open spec fn pow256(k: nat) -> nat
    decreases k,
{
    if k == 0 {
        1
    } else {
        256 * pow256((k - 1) as nat)
    }
}

proof fn lemma_pow256_bound(k: nat)
    requires
        k <= 8,
    ensures
        1 <= pow256(k) <= 0x10000000000000000,
        k < 8 ==> pow256(k) <= 0x100000000000000,
        pow256(k + 1) == 256 * pow256(k),
{
    reveal_with_fuel(pow256, 10);
}

/// The serialized form of a payload whose root object is at position `root`.
pub fn serialize_frame(payload: &[u8], root: u64) -> (data: Vec<u8>)
    ensures
        data@ == frame(payload@, root),
{
    let magic = magic_header_bytes();
    let mut data: Vec<u8> = Vec::new();
    let mut i: usize = 0;
    while i < 22
        invariant
            i <= 22,
            magic@ == magic_header(),
            data@ == magic_header().take(i as int),
        decreases 22 - i,
    {
        data.push(magic[i]);
        i += 1;
    }
    encode_leb128(payload.len() as u64, &mut data);
    let ghost headed = data@;
    let mut j: usize = 0;
    while j < payload.len()
        invariant
            j <= payload@.len(),
            data@ == headed + payload@.take(j as int),
        decreases payload@.len() - j,
    {
        data.push(payload[j]);
        j += 1;
    }
    write_u64_le(root, &mut data);
    data
}

/// Why a serialized executable could not be loaded.
#[derive(Debug)]
pub enum DeserializeError {
    /// The bytes are not a serialized executable of this engine.
    Incompatible(String),
    /// The bytes are a serialized executable, but what they hold is damaged.
    CorruptedBinary(String),
}

/// A 0-copy view of the encoded `UniversalExecutable` payload.
#[derive(Clone, Copy)]
pub struct UniversalExecutableRef<'a> {
    buffer: &'a [u8],
    start: usize,
    len: usize,
    root: u64,
}

impl<'a> UniversalExecutableRef<'a> {
    /// The whole buffer, as it was given.
    pub closed spec fn buffer(&self) -> Seq<u8> {
        self.buffer@
    }

    /// The view is of a buffer that holds a frame, and says where its parts are.
    pub closed spec fn wf(&self) -> bool {
        parse_frame(self.buffer@) == Ok::<FrameView, FrameError>(
            FrameView { start: self.start as nat, len: self.len as nat, root: self.root as nat },
        )
    }

    /// The payload of the frame.
    pub closed spec fn spec_payload(&self) -> Seq<u8> {
        self.buffer@.subrange(self.start as int, self.start + self.len)
    }

    /// The position of the root object within the payload.
    pub closed spec fn spec_root(&self) -> u64 {
        self.root
    }

    /// Verify the buffer for whether it is a valid `UniversalExecutable`.
    pub fn verify_serialized(data: &[u8]) -> (verified: Result<(), &'static str>)
        ensures
            verified is Ok <==> parse_frame(data@) is Ok,
            verified matches Err(message) ==> parse_frame(data@) matches Err(error) && message@
                == frame_error_message(error),
    {
        match UniversalExecutableRef::parse(data) {
            Ok(_) => Ok(()),
            Err(FrameError::NotUniversal) => Err("the provided bytes are not wasmer-universal"),
            Err(FrameError::TooSmall) => Err("the data buffer is too small to be valid"),
            Err(FrameError::Malformed) => Err("the buffer is malformed"),
        }
    }

    /// Takes a buffer apart: a view of the frame it holds, or why it holds none.
    pub fn parse(data: &'a [u8]) -> (parsed: Result<UniversalExecutableRef<'a>, FrameError>)
        ensures
            match parse_frame(data@) {
                Ok(frame) => parsed matches Ok(view) && view.wf() && view.buffer() == data@
                    && view.spec_root() == frame.root && view.spec_payload() == data@.subrange(
                    frame.start as int,
                    (frame.start + frame.len) as int,
                ),
                Err(error) => parsed matches Err(e) && e == error,
            },
    {
        let magic = magic_header_bytes();
        if data.len() < 22 {
            return Err(FrameError::NotUniversal);
        }
        let mut i: usize = 0;
        while i < 22
            invariant
                i <= 22 <= data@.len(),
                magic@ == magic_header(),
                data@.subrange(0, i as int) == magic_header().take(i as int),
            decreases 22 - i,
        {
            if data[i] != magic[i] {
                return Err(FrameError::NotUniversal);
            }
            i += 1;
        }
        assert(magic_header().take(22) =~= magic_header());
        if data.len() < 22 + 8 {
            return Err(FrameError::TooSmall);
        }
        let end = data.len() - 8;
        let length = vstd::slice::slice_subrange(data, 22, end);
        let position = vstd::slice::slice_subrange(data, end, data.len());
        proof {
            lemma_leb128_decode_count(length@, 10);
        }
        match decode_leb128(length) {
            None => Err(FrameError::Malformed),
            Some((len, count)) => {
                let root = read_u64_le(position);
                if len <= (end - 22 - count) as u64 && len as usize == end - 22 - count && root
                    <= len {
                    Ok(UniversalExecutableRef { buffer: data, start: 22 + count, len: len as usize, root })
                } else {
                    Err(FrameError::Malformed)
                }
            },
        }
    }

    /// A view of the serialized executable in `data`, for loading without a copy.
    ///
    /// The payload is not looked into: whoever reads the root object from it
    /// has to see to it that the bytes stay valid and aligned.
    pub fn deserialize(data: &'a [u8]) -> (view: Result<UniversalExecutableRef<'a>, DeserializeError>)
        ensures
            view is Ok <==> parse_frame(data@) is Ok,
            view matches Ok(v) ==> v.wf() && v.buffer() == data@,
            view matches Err(error) ==> parse_frame(data@) matches Err(e) && error matches DeserializeError::Incompatible(
                message,
            ) && message@ == frame_error_message(e),
    {
        match Self::parse(data) {
            Ok(view) => Ok(view),
            Err(FrameError::NotUniversal) => Err(
                DeserializeError::Incompatible(
                    "the provided bytes are not wasmer-universal".to_string(),
                ),
            ),
            Err(FrameError::TooSmall) => Err(
                DeserializeError::Incompatible("the data buffer is too small to be valid".to_string()),
            ),
            Err(FrameError::Malformed) => Err(
                DeserializeError::Incompatible("the buffer is malformed".to_string()),
            ),
        }
    }

    /// The payload of the frame.
    pub fn payload(&self) -> (payload: &'a [u8])
        requires
            self.wf(),
        ensures
            payload@ == self.spec_payload(),
    {
        let end = self.buffer.len() - 8;
        vstd::slice::slice_subrange(self.buffer, self.start, end)
    }

    /// The position of the root object within the payload.
    pub fn root_position(&self) -> (root: u64)
        ensures
            root == self.spec_root(),
    {
        self.root
    }

    /// The serialized form of this executable: the buffer it is a view of.
    pub fn serialize(&self) -> (data: Vec<u8>)
        ensures
            data@ == self.buffer(),
    {
        crate::executable::copy_bytes(self.buffer)
    }
}

/// Copies bytes.
pub fn copy_bytes(bytes: &[u8]) -> (copy: Vec<u8>)
    ensures
        copy@ == bytes@,
{
    let mut copy: Vec<u8> = Vec::new();
    let mut i: usize = 0;
    while i < bytes.len()
        invariant
            i <= bytes@.len(),
            copy@ == bytes@.take(i as int),
        decreases bytes@.len() - i,
    {
        copy.push(bytes[i]);
        i += 1;
    }
    copy
}

} // verus!
