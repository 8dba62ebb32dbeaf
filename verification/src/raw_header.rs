//! The 33-byte wire header and its little-endian codec.

use vstd::prelude::*;
use vstd::slice::slice_subrange;

verus! {

/// Size of an encoded header in bytes.
pub const LENGTH: usize = 33;

/// Protocol signature that opens every header.
pub const SIGNATURE: u64 = 0x0101010101012101;

/// The one supported protocol version.
pub const VERSION: u32 = 1;

#[derive(Debug, Clone, Copy, PartialEq, Eq, Structural)]
pub struct RawHeader {
    pub signature: u64,
    pub length: u64,
    pub expect_response: u8,
    pub command: u32,
    pub return_code: u32,
    pub flags: u32,
    pub version: u32,
}

/// The four bytes of `x`, least significant first.
pub open spec fn u32_le(x: u32) -> Seq<u8> {
    seq![
        (x % 256) as u8,
        (x / 256 % 256) as u8,
        (x / 65536 % 256) as u8,
        (x / 16777216) as u8,
    ]
}

/// The eight bytes of `x`, least significant first.
pub open spec fn u64_le(x: u64) -> Seq<u8> {
    u32_le((x % 4294967296) as u32) + u32_le((x / 4294967296) as u32)
}

/// The number that four bytes spell, least significant byte first.
pub open spec fn le_u32(b: Seq<u8>) -> u32
    recommends
        b.len() == 4,
{
    (b[0] + 256 * b[1] + 65536 * b[2] + 16777216 * b[3]) as u32
}

/// The number that eight bytes spell, least significant byte first.
pub open spec fn le_u64(b: Seq<u8>) -> u64
    recommends
        b.len() == 8,
{
    (le_u32(b.subrange(0, 4)) + 4294967296 * le_u32(b.subrange(4, 8))) as u64
}

/// Writing a 32-bit number out and reading it back changes nothing.
pub proof fn lemma_u32_le_roundtrip(x: u32)
    ensures
        u32_le(x).len() == 4,
        le_u32(u32_le(x)) == x,
{
}

/// Four digits in base 256 are recovered from their sum by division.
proof fn lemma_base256_digits(b0: int, b1: int, b2: int, b3: int)
    requires
        0 <= b0 < 256,
        0 <= b1 < 256,
        0 <= b2 < 256,
        0 <= b3 < 256,
    ensures
        ({
            let x = b0 + 256 * b1 + 65536 * b2 + 16777216 * b3;
            &&& 0 <= x < 4294967296
            &&& x % 256 == b0
            &&& x / 256 % 256 == b1
            &&& x / 65536 % 256 == b2
            &&& x / 16777216 == b3
        }),
{
    let x = b0 + 256 * b1 + 65536 * b2 + 16777216 * b3;
    let y1 = b1 + 256 * b2 + 65536 * b3;
    let y2 = b2 + 256 * b3;
    assert(x == b0 + 256 * y1);
    assert(x / 256 == y1 && x % 256 == b0);
    assert(y1 % 256 == b1);
    assert(x == (b0 + 256 * b1) + 65536 * y2);
    assert(x / 65536 == y2);
    assert(y2 % 256 == b2);
    assert(x == (b0 + 256 * b1 + 65536 * b2) + 16777216 * b3);
    assert(x / 16777216 == b3);
}

/// Reading four bytes and writing the number out gives the same bytes.
pub proof fn lemma_le_u32_roundtrip(b: Seq<u8>)
    requires
        b.len() == 4,
    ensures
        u32_le(le_u32(b)) == b,
{
    lemma_base256_digits(b[0] as int, b[1] as int, b[2] as int, b[3] as int);
    assert(u32_le(le_u32(b)) =~= b);
}

/// Writing a 64-bit number out and reading it back changes nothing.
pub proof fn lemma_u64_le_roundtrip(x: u64)
    ensures
        u64_le(x).len() == 8,
        le_u64(u64_le(x)) == x,
{
    let lo = (x % 4294967296) as u32;
    let hi = (x / 4294967296) as u32;
    lemma_u32_le_roundtrip(lo);
    lemma_u32_le_roundtrip(hi);
    assert(u64_le(x).subrange(0, 4) =~= u32_le(lo));
    assert(u64_le(x).subrange(4, 8) =~= u32_le(hi));
}

/// Reading eight bytes and writing the number out gives the same bytes.
pub proof fn lemma_le_u64_roundtrip(b: Seq<u8>)
    requires
        b.len() == 8,
    ensures
        u64_le(le_u64(b)) == b,
{
    let lo_bytes = b.subrange(0, 4);
    let hi_bytes = b.subrange(4, 8);
    lemma_base256_digits(b[0] as int, b[1] as int, b[2] as int, b[3] as int);
    lemma_base256_digits(b[4] as int, b[5] as int, b[6] as int, b[7] as int);
    lemma_le_u32_roundtrip(lo_bytes);
    lemma_le_u32_roundtrip(hi_bytes);
    let lo = le_u32(lo_bytes);
    let hi = le_u32(hi_bytes);
    let x = le_u64(b);
    assert(x == lo + 4294967296 * hi);
    assert((x % 4294967296) as u32 == lo);
    assert((x / 4294967296) as u32 == hi);
    assert(u64_le(x) =~= lo_bytes + hi_bytes);
    assert(lo_bytes + hi_bytes =~= b);
}

/// Copies a slice of exactly `N` bytes into an array.
pub fn into_array<const N: usize>(slice: &[u8]) -> (out: [u8; N])
    requires
        slice@.len() == N,
    ensures
        out@ == slice@,
{
    let mut out = [0u8; N];
    let mut i: usize = 0;
    while i < N
        invariant
            i <= N,
            slice@.len() == N,
            out@.len() == N,
            forall|j: int| 0 <= j < i ==> out@[j] == slice@[j],
        decreases N - i,
    {
        out[i] = slice[i];
        i += 1;
    }
    assert(out@ =~= slice@);
    out
}

/// Reads a 32-bit number from its four little-endian bytes.
pub fn u32_from_le_bytes(b: [u8; 4]) -> (x: u32)
    ensures
        x == le_u32(b@),
{
    let b0: u32 = b[0] as u32;
    let b1: u32 = b[1] as u32;
    let b2: u32 = b[2] as u32;
    let b3: u32 = b[3] as u32;
    b0 + 256 * b1 + 65536 * b2 + 16777216 * b3
}

/// Reads a 64-bit number from its eight little-endian bytes.
pub fn u64_from_le_bytes(b: [u8; 8]) -> (x: u64)
    ensures
        x == le_u64(b@),
{
    let lo: u32 = u32_from_le_bytes(into_array(slice_subrange(b.as_slice(), 0, 4)));
    let hi: u32 = u32_from_le_bytes(into_array(slice_subrange(b.as_slice(), 4, 8)));
    lo as u64 + 4294967296 * (hi as u64)
}

/// Writes a 32-bit number as four little-endian bytes.
pub fn u32_to_le_bytes(x: u32) -> (b: [u8; 4])
    ensures
        b@ == u32_le(x),
{
    let b: [u8; 4] = [
        (x % 256) as u8,
        (x / 256 % 256) as u8,
        (x / 65536 % 256) as u8,
        (x / 16777216) as u8,
    ];
    assert(b@ =~= u32_le(x));
    b
}

/// Writes a 64-bit number as eight little-endian bytes.
pub fn u64_to_le_bytes(x: u64) -> (b: [u8; 8])
    ensures
        b@ == u64_le(x),
{
    let lo: [u8; 4] = u32_to_le_bytes((x % 4294967296) as u32);
    let hi: [u8; 4] = u32_to_le_bytes((x / 4294967296) as u32);
    let mut v: Vec<u8> = Vec::new();
    v.extend_from_slice(lo.as_slice());
    v.extend_from_slice(hi.as_slice());
    into_array(v.as_slice())
}

impl RawHeader {
    /// The header that a sequence of 33 bytes spells: each field read
    /// little-endian at its fixed offset.
    pub open spec fn decode(b: Seq<u8>) -> RawHeader
        recommends
            b.len() == LENGTH,
    {
        RawHeader {
            signature: le_u64(b.subrange(0, 8)),
            length: le_u64(b.subrange(8, 16)),
            expect_response: b[16],
            command: le_u32(b.subrange(17, 21)),
            return_code: le_u32(b.subrange(21, 25)),
            flags: le_u32(b.subrange(25, 29)),
            version: le_u32(b.subrange(29, 33)),
        }
    }

    /// The 33 bytes of this header on the wire.
    pub open spec fn encode(self) -> Seq<u8> {
        u64_le(self.signature) + u64_le(self.length) + seq![self.expect_response] + u32_le(
            self.command,
        ) + u32_le(self.return_code) + u32_le(self.flags) + u32_le(self.version)
    }

    /// Whether signature and version are the ones this protocol speaks.
    pub open spec fn well_signed(self) -> bool {
        self.signature == SIGNATURE && self.version == VERSION
    }

    /// The wire bytes of this header, as a vector.
    pub fn to_vec(&self) -> (v: Vec<u8>)
        ensures
            v@ == self.encode(),
            v@.len() == LENGTH,
    {
        let mut v: Vec<u8> = Vec::new();
        v.extend_from_slice(u64_to_le_bytes(self.signature).as_slice());
        v.extend_from_slice(u64_to_le_bytes(self.length).as_slice());
        v.push(self.expect_response);
        v.extend_from_slice(u32_to_le_bytes(self.command).as_slice());
        v.extend_from_slice(u32_to_le_bytes(self.return_code).as_slice());
        v.extend_from_slice(u32_to_le_bytes(self.flags).as_slice());
        v.extend_from_slice(u32_to_le_bytes(self.version).as_slice());
        assert(v@ =~= self.encode());
        v
    }
}

impl From<[u8; LENGTH]> for RawHeader {
    fn from(bytes: [u8; LENGTH]) -> (header: RawHeader) {
        let s = bytes.as_slice();
        RawHeader {
            signature: u64_from_le_bytes(into_array(slice_subrange(s, 0, 8))),
            length: u64_from_le_bytes(into_array(slice_subrange(s, 8, 16))),
            expect_response: bytes[16],
            command: u32_from_le_bytes(into_array(slice_subrange(s, 17, 21))),
            return_code: u32_from_le_bytes(into_array(slice_subrange(s, 21, 25))),
            flags: u32_from_le_bytes(into_array(slice_subrange(s, 25, 29))),
            version: u32_from_le_bytes(into_array(slice_subrange(s, 29, 33))),
        }
    }
}

impl vstd::std_specs::convert::FromSpecImpl<[u8; LENGTH]> for RawHeader {
    open spec fn obeys_from_spec() -> bool {
        true
    }

    open spec fn from_spec(bytes: [u8; LENGTH]) -> RawHeader {
        RawHeader::decode(bytes@)
    }
}

impl From<RawHeader> for [u8; LENGTH] {
    fn from(header: RawHeader) -> (bytes: [u8; LENGTH])
        ensures
            bytes@ == header.encode(),
    {
        let v = header.to_vec();
        into_array(v.as_slice())
    }
}

impl vstd::std_specs::convert::FromSpecImpl<RawHeader> for [u8; LENGTH] {
    open spec fn obeys_from_spec() -> bool {
        false
    }

    open spec fn from_spec(header: RawHeader) -> [u8; LENGTH] {
        arbitrary()
    }
}

/// Encoding a header and decoding the bytes gives the header back.
pub proof fn lemma_decode_encode(h: RawHeader)
    ensures
        h.encode().len() == LENGTH,
        RawHeader::decode(h.encode()) == h,
{
    let b = h.encode();
    lemma_u64_le_roundtrip(h.signature);
    lemma_u64_le_roundtrip(h.length);
    lemma_u32_le_roundtrip(h.command);
    lemma_u32_le_roundtrip(h.return_code);
    lemma_u32_le_roundtrip(h.flags);
    lemma_u32_le_roundtrip(h.version);
    assert(b.subrange(0, 8) =~= u64_le(h.signature));
    assert(b.subrange(8, 16) =~= u64_le(h.length));
    assert(b.subrange(17, 21) =~= u32_le(h.command));
    assert(b.subrange(21, 25) =~= u32_le(h.return_code));
    assert(b.subrange(25, 29) =~= u32_le(h.flags));
    assert(b.subrange(29, 33) =~= u32_le(h.version));
}

/// Decoding 33 bytes and encoding the header gives the same bytes.
pub proof fn lemma_encode_decode(b: Seq<u8>)
    requires
        b.len() == LENGTH,
    ensures
        RawHeader::decode(b).encode() == b,
{
    lemma_le_u64_roundtrip(b.subrange(0, 8));
    lemma_le_u64_roundtrip(b.subrange(8, 16));
    lemma_le_u32_roundtrip(b.subrange(17, 21));
    lemma_le_u32_roundtrip(b.subrange(21, 25));
    lemma_le_u32_roundtrip(b.subrange(25, 29));
    lemma_le_u32_roundtrip(b.subrange(29, 33));
    assert(RawHeader::decode(b).encode() =~= b);
}

} // verus!
