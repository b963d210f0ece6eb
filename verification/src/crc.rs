//! Table-driven CRC-8 with no initial value and no final exclusive-or.

use vstd::prelude::*;

verus! {

/// Generator polynomial of the link's checksum.
pub const CRC_POLY: u8 = 0xab;

/// One round of the bitwise division: shift left by one bit and, when the
/// bit shifted out was set, exclusive-or with the polynomial.
pub open spec fn crc_round(crc: u8, poly: u8) -> u8 {
    (crc << 1) ^ (if (crc & 0x80) > 0 {
        poly
    } else {
        0u8
    })
}

/// `n` rounds applied to `crc`.
pub open spec fn crc_rounds(crc: u8, poly: u8, n: nat) -> u8
    decreases n,
{
    if n == 0 {
        crc
    } else {
        crc_round(crc_rounds(crc, poly, (n - 1) as nat), poly)
    }
}

/// Table entry of a byte value: eight rounds starting from that value.
pub open spec fn crc_entry(index: u8, poly: u8) -> u8 {
    crc_rounds(index, poly, 8)
}

/// The 256-entry lookup table of a polynomial.
pub open spec fn crc_table(poly: u8) -> Seq<u8> {
    Seq::new(256, |i: int| crc_entry(i as u8, poly))
}

/// Checksum of `data` under the table `lut`: starting from zero, each byte
/// in turn replaces the running value by `lut[value ^ byte]`.
pub open spec fn crc_of(lut: Seq<u8>, data: Seq<u8>) -> u8
    recommends
        lut.len() == 256,
    decreases data.len(),
{
    if data.len() == 0 {
        0
    } else {
        lut[(crc_of(lut, data.drop_last()) ^ data.last()) as int]
    }
}

/// Whether the last byte of `frame` is the checksum of the bytes before it.
pub open spec fn crc_matches(lut: Seq<u8>, frame: Seq<u8>) -> bool {
    frame.len() > 0 && frame.last() == crc_of(lut, frame.drop_last())
}

/// `data` followed by its checksum.
pub open spec fn with_crc(lut: Seq<u8>, data: Seq<u8>) -> Seq<u8> {
    data.push(crc_of(lut, data))
}

/// A table in which no value occurs twice.
pub open spec fn one_to_one(lut: Seq<u8>) -> bool {
    lut.len() == 256 && forall|i: int, j: int|
        0 <= i < 256 && 0 <= j < 256 && lut[i] == lut[j] ==> i == j
}

/// `byte` with bit number `bit` inverted.
pub open spec fn flip_bit(byte: u8, bit: u8) -> u8 {
    byte ^ (1u8 << bit)
}

/// Builds the lookup table of `poly`.
pub fn crc_init(poly: u8) -> (lut: [u8; 256])
    ensures
        lut@ == crc_table(poly),
{
    let mut lut = [0u8; 256];
    let mut i: usize = 0;
    while i < 256
        invariant
            i <= 256,
            forall|k: int| 0 <= k < i ==> lut@[k] == crc_entry(k as u8, poly),
        decreases 256 - i,
    {
        let mut crc: u8 = i as u8;
        let mut j: u8 = 0;
        while j < 8
            invariant
                j <= 8,
                i < 256,
                crc == crc_rounds(i as u8, poly, j as nat),
            decreases 8 - j,
        {
            crc = (crc << 1) ^ (if (crc & 0x80) > 0 {
                poly
            } else {
                0
            });
            j += 1;
        }
        lut[i] = crc;
        i += 1;
    }
    lut
}

/// Checksum of the first `size` bytes of `data`.
pub fn calc_crc(lut: &[u8; 256], data: &[u8], size: u8) -> (crc: u8)
    requires
        size <= data@.len(),
    ensures
        crc == crc_of(lut@, data@.take(size as int)),
{
    let mut size = size;
    let ghost n = size as int;
    let mut crc: u8 = 0;
    let mut i: usize = 0;
    while size > 0
        invariant
            i + size == n,
            n <= data@.len(),
            crc == crc_of(lut@, data@.take(i as int)),
        decreases size,
    {
        size -= 1;
        proof {
            assert(data@.take(i + 1).drop_last() == data@.take(i as int));
        }
        crc = lut[(crc ^ data[i]) as usize];
        i += 1;
    }
    crc
}

/// Checksum of all of `data`.
pub fn checksum(lut: &[u8; 256], data: &[u8]) -> (crc: u8)
    ensures
        crc == crc_of(lut@, data@),
{
    let mut crc: u8 = 0;
    let mut i: usize = 0;
    while i < data.len()
        invariant
            i <= data@.len(),
            crc == crc_of(lut@, data@.take(i as int)),
        decreases data@.len() - i,
    {
        proof {
            assert(data@.take(i + 1).drop_last() == data@.take(i as int));
        }
        crc = lut[(crc ^ data[i]) as usize];
        i += 1;
    }
    proof {
        assert(data@.take(data@.len() as int) == data@);
    }
    crc
}

/// Tests the trailing checksum byte of `frame`.
pub fn check_crc(lut: &[u8; 256], frame: &[u8]) -> (ok: bool)
    ensures
        ok == crc_matches(lut@, frame@),
{
    let n = frame.len();
    if n == 0 {
        return false;
    }
    let body = vstd::slice::slice_subrange(frame, 0, n - 1);
    assert(body@ == frame@.drop_last());
    checksum(lut, body) == frame[n - 1]
}

proof fn lemma_round_one_to_one(a: u8, b: u8, poly: u8)
    requires
        poly & 1 == 1,
        crc_round(a, poly) == crc_round(b, poly),
    ensures
        a == b,
{
    assert(poly & 1 == 1 && crc_round(a, poly) == crc_round(b, poly) ==> a == b) by (bit_vector);
}

proof fn lemma_rounds_one_to_one(a: u8, b: u8, poly: u8, n: nat)
    requires
        poly & 1 == 1,
        crc_rounds(a, poly, n) == crc_rounds(b, poly, n),
    ensures
        a == b,
    decreases n,
{
    if n > 0 {
        lemma_round_one_to_one(
            crc_rounds(a, poly, (n - 1) as nat),
            crc_rounds(b, poly, (n - 1) as nat),
            poly,
        );
        lemma_rounds_one_to_one(a, b, poly, (n - 1) as nat);
    }
}

/// The table of a polynomial with its lowest bit set holds every byte
/// value exactly once.
pub proof fn lemma_odd_table_one_to_one(poly: u8)
    requires
        poly & 1 == 1,
    ensures
        one_to_one(crc_table(poly)),
{
    let lut = crc_table(poly);
    assert forall|i: int, j: int|
        0 <= i < 256 && 0 <= j < 256 && lut[i] == lut[j] implies i == j by {
        lemma_rounds_one_to_one(i as u8, j as u8, poly, 8);
    }
}

/// The table of the link's polynomial holds every byte value exactly once.
pub proof fn lemma_link_table_one_to_one()
    ensures
        one_to_one(crc_table(CRC_POLY)),
{
    assert(CRC_POLY & 1 == 1) by (bit_vector)
        requires
            CRC_POLY == 0xab,
    ;
    lemma_odd_table_one_to_one(CRC_POLY);
}

/// Whatever the polynomial, entry 0 of its table is 0 and entry 1 is the
/// polynomial itself.
pub proof fn lemma_table_first_entries(poly: u8)
    ensures
        crc_table(poly)[0] == 0,
        crc_table(poly)[1] == poly,
{
    reveal_with_fuel(crc_rounds, 9);
    assert(crc_round(0, poly) == 0) by (bit_vector);
    assert(crc_round(1, poly) == 2) by (bit_vector);
    assert(crc_round(2, poly) == 4) by (bit_vector);
    assert(crc_round(4, poly) == 8) by (bit_vector);
    assert(crc_round(8, poly) == 16) by (bit_vector);
    assert(crc_round(16, poly) == 32) by (bit_vector);
    assert(crc_round(32, poly) == 64) by (bit_vector);
    assert(crc_round(64, poly) == 128) by (bit_vector);
    assert(crc_round(128, poly) == poly) by (bit_vector);
}

/// A sequence with its checksum appended passes the check, under any table.
pub proof fn lemma_with_crc_matches(lut: Seq<u8>, data: Seq<u8>)
    ensures
        crc_matches(lut, with_crc(lut, data)),
{
    assert(with_crc(lut, data).drop_last() == data);
}

/// Under a one-to-one table, replacing one byte of a sequence by a
/// different byte changes the checksum.
pub proof fn lemma_byte_change_changes_crc(lut: Seq<u8>, data: Seq<u8>, at: int, byte: u8)
    requires
        one_to_one(lut),
        0 <= at < data.len(),
        byte != data[at],
    ensures
        crc_of(lut, data.update(at, byte)) != crc_of(lut, data),
    decreases data.len(),
{
    let changed = data.update(at, byte);
    let before = crc_of(lut, data.drop_last());
    let after = crc_of(lut, changed.drop_last());
    let x = data.last();
    let y = changed.last();
    if at == data.len() - 1 {
        assert(changed.drop_last() == data.drop_last());
    } else {
        assert(changed.drop_last() == data.drop_last().update(at, byte));
        lemma_byte_change_changes_crc(lut, data.drop_last(), at, byte);
    }
    assert((before != after || x != y) ==> before ^ x != after ^ y || (before != after && x != y))
        by (bit_vector);
    assert(before ^ x != after ^ y);
}

/// Under the link's table, inverting any one bit of a sequence that ends in
/// its checksum, in the sequence or in the checksum, makes the check fail.
pub proof fn lemma_bit_flip_fails_check(data: Seq<u8>, at: int, bit: u8)
    requires
        0 <= at <= data.len(),
        bit < 8,
    ensures
        ({
            let lut = crc_table(CRC_POLY);
            let frame = with_crc(lut, data);
            !crc_matches(lut, frame.update(at, flip_bit(frame[at], bit)))
        }),
{
    let lut = crc_table(CRC_POLY);
    let frame = with_crc(lut, data);
    let flipped = flip_bit(frame[at], bit);
    let damaged = frame.update(at, flipped);
    let b = frame[at];
    assert(bit < 8 ==> b ^ (1u8 << bit) != b) by (bit_vector);
    if at == data.len() {
        assert(damaged.drop_last() == data);
    } else {
        lemma_link_table_one_to_one();
        lemma_byte_change_changes_crc(lut, data, at, flipped);
        assert(damaged.drop_last() == data.update(at, flipped));
    }
}

} // verus!
