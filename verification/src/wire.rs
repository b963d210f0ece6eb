//! Fixed-width fields as they lie on the wire: big-endian 32-bit words that
//! carry IEEE-754 single-precision values.

use vstd::prelude::*;

verus! {

/// Width in bytes of a single-precision value on the wire.
pub const F32_BYTES: usize = 4;

/// A single-precision value, held as its IEEE-754 bit pattern. Arithmetic
/// on the number is left to the caller, who turns `bits` into a native value.
#[derive(Clone, Copy, Debug, PartialEq, Eq, Structural)]
pub struct Binary32 {
    pub bits: u32,
}

impl Default for Binary32 {
    /// Positive zero.
    fn default() -> (value: Self)
        ensures
            value.bits == 0,
    {
        Binary32 { bits: 0 }
    }
}

/// The word that four bytes spell, most significant byte first.
pub open spec fn be_u32(bytes: Seq<u8>) -> u32
    recommends
        bytes.len() == 4,
{
    (bytes[0] * 0x100_0000 + bytes[1] * 0x1_0000 + bytes[2] * 0x100 + bytes[3]) as u32
}

/// The four bytes of a word, most significant first.
pub open spec fn be_bytes(word: u32) -> Seq<u8> {
    seq![
        (word / 0x100_0000) as u8,
        (word / 0x1_0000 % 0x100) as u8,
        (word / 0x100 % 0x100) as u8,
        (word % 0x100) as u8,
    ]
}

/// The single-precision value whose four bytes start at `offset`.
pub open spec fn float_at(bytes: Seq<u8>, offset: int) -> Binary32
    recommends
        0 <= offset,
        offset + 4 <= bytes.len(),
{
    Binary32 { bits: be_u32(bytes.subrange(offset, offset + 4)) }
}

/// Reads a single-precision value from exactly four bytes.
pub fn bytes_to_float(bytes: &[u8]) -> (value: Binary32)
    requires
        bytes@.len() == 4,
    ensures
        value.bits == be_u32(bytes@),
{
    let b0: u32 = bytes[0] as u32;
    let b1: u32 = bytes[1] as u32;
    let b2: u32 = bytes[2] as u32;
    let b3: u32 = bytes[3] as u32;
    Binary32 { bits: b0 * 0x100_0000 + b1 * 0x1_0000 + b2 * 0x100 + b3 }
}

/// Reads the single-precision value whose four bytes start at `offset`.
pub fn read_float(bytes: &[u8], offset: usize) -> (value: Binary32)
    requires
        offset + 4 <= bytes.len(),
    ensures
        value == float_at(bytes@, offset as int),
{
    bytes_to_float(vstd::slice::slice_subrange(bytes, offset, offset + 4))
}

/// Writes a single-precision value as four bytes.
pub fn float_to_bytes(value: Binary32) -> (bytes: [u8; 4])
    ensures
        bytes@ == be_bytes(value.bits),
{
    let w: u32 = value.bits;
    let bytes = [
        (w / 0x100_0000) as u8,
        (w / 0x1_0000 % 0x100) as u8,
        (w / 0x100 % 0x100) as u8,
        (w % 0x100) as u8,
    ];
    assert(bytes@ =~= be_bytes(w));
    bytes
}

/// Copies the `N` bytes that start at `offset`.
pub fn array_at<const N: usize>(bytes: &[u8], offset: usize) -> (out: [u8; N])
    requires
        offset + N <= bytes.len(),
    ensures
        out@ == bytes@.subrange(offset as int, offset + N),
{
    let mut out = [0u8; N];
    let mut i: usize = 0;
    while i < N
        invariant
            i <= N,
            offset + N <= bytes.len(),
            forall|k: int| 0 <= k < i ==> out@[k] == bytes@[offset + k],
        decreases N - i,
    {
        out[i] = bytes[offset + i];
        i += 1;
    }
    assert(out@ =~= bytes@.subrange(offset as int, offset + N));
    out
}

/// Writing a word and reading it back gives the word.
pub proof fn lemma_be_bytes_then_u32(word: u32)
    ensures
        be_bytes(word).len() == 4,
        be_u32(be_bytes(word)) == word,
{
}

/// Reading four bytes and writing the word back gives the bytes.
pub proof fn lemma_be_u32_then_bytes(bytes: Seq<u8>)
    requires
        bytes.len() == 4,
    ensures
        be_bytes(be_u32(bytes)) == bytes,
{
    let b0 = bytes[0] as u32;
    let b1 = bytes[1] as u32;
    let b2 = bytes[2] as u32;
    let b3 = bytes[3] as u32;
    let w = be_u32(bytes);
    assert(w == b0 * 0x100_0000 + b1 * 0x1_0000 + b2 * 0x100 + b3);
    assert(w / 0x100_0000 == b0 && w / 0x1_0000 % 0x100 == b1 && w / 0x100 % 0x100 == b2 && w
        % 0x100 == b3) by (bit_vector)
        requires
            b0 < 0x100 && b1 < 0x100 && b2 < 0x100 && b3 < 0x100,
            w == b0 * 0x100_0000 + b1 * 0x1_0000 + b2 * 0x100 + b3,
    ;
    assert(be_bytes(w) =~= bytes);
}

} // verus!
