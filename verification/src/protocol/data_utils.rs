//! Conversions between registers, bytes, bits and 32-bit values.

use vstd::prelude::*;
use crate::error::{ModbusError, ModbusResult, is_invalid_data};
use crate::protocol::{be_word, bit_of, words_of_bytes};

verus! {

/// High byte of a 16-bit value.
pub open spec fn high_byte(v: u16) -> u8 {
    (v / 256) as u8
}

/// Low byte of a 16-bit value.
pub open spec fn low_byte(v: u16) -> u8 {
    (v % 256) as u8
}

/// 16-bit values as big-endian bytes, two per value.
pub open spec fn bytes_of_words(w: Seq<u16>) -> Seq<u8> {
    Seq::new(
        2 * w.len(),
        |i: int|
            if i % 2 == 0 {
                high_byte(w[i / 2])
            } else {
                low_byte(w[i / 2])
            },
    )
}

/// The bytes that `pack_bits` makes of `n` bits: byte `i / 8` holds bit `i`
/// at position `i % 8`, and positions past the last bit are clear.
pub open spec fn packs_bits(bytes: Seq<u8>, bits: Seq<bool>) -> bool {
    &&& bytes.len() == (bits.len() + 7) / 8
    &&& forall|i: int|
        0 <= i < 8 * bytes.len() ==> #[trigger] bit_of(bytes[i / 8], i % 8) == (i < bits.len()
            && bits[i])
}

/// The bits that `unpack_bits` reads: bit `i` of the bytes, or `false` past
/// their end.
pub open spec fn unpacked_bits(bytes: Seq<u8>, count: nat) -> Seq<bool> {
    Seq::new(count, |i: int| i / 8 < bytes.len() && bit_of(bytes[i / 8], i % 8))
}

/// Setting bit `k` of a byte sets exactly that bit.
pub proof fn lemma_set_bit(b: u8, k: u8, m: u8)
    requires
        k < 8,
        m < 8,
    ensures
        ((b | (1u8 << k)) & (1u8 << m) != 0) == ((b & (1u8 << m) != 0) || k == m),
{
    assert(((b | (1u8 << k)) & (1u8 << m) != 0) == ((b & (1u8 << m) != 0) || k == m))
        by (bit_vector)
        requires
            k < 8,
            m < 8,
    ;
}

/// A byte with no bit set is zero, so no bit of zero is set.
pub proof fn lemma_zero_bits(m: u8)
    requires
        m < 8,
    ensures
        0u8 & (1u8 << m) == 0,
{
    assert(0u8 & (1u8 << m) == 0) by (bit_vector);
}

/// Two bytes with the same eight bits are equal.
pub proof fn lemma_byte_of_bits(a: u8, b: u8)
    requires
        forall|k: int| 0 <= k < 8 ==> bit_of(a, k) == bit_of(b, k),
    ensures
        a == b,
{
    assert(bit_of(a, 0) == bit_of(b, 0));
    assert(bit_of(a, 1) == bit_of(b, 1));
    assert(bit_of(a, 2) == bit_of(b, 2));
    assert(bit_of(a, 3) == bit_of(b, 3));
    assert(bit_of(a, 4) == bit_of(b, 4));
    assert(bit_of(a, 5) == bit_of(b, 5));
    assert(bit_of(a, 6) == bit_of(b, 6));
    assert(bit_of(a, 7) == bit_of(b, 7));
    assert(a == b) by (bit_vector)
        requires
            (a & (1u8 << 0u8) != 0) == (b & (1u8 << 0u8) != 0),
            (a & (1u8 << 1u8) != 0) == (b & (1u8 << 1u8) != 0),
            (a & (1u8 << 2u8) != 0) == (b & (1u8 << 2u8) != 0),
            (a & (1u8 << 3u8) != 0) == (b & (1u8 << 3u8) != 0),
            (a & (1u8 << 4u8) != 0) == (b & (1u8 << 4u8) != 0),
            (a & (1u8 << 5u8) != 0) == (b & (1u8 << 5u8) != 0),
            (a & (1u8 << 6u8) != 0) == (b & (1u8 << 6u8) != 0),
            (a & (1u8 << 7u8) != 0) == (b & (1u8 << 7u8) != 0),
    ;
}

/// Registers as big-endian bytes.
pub fn registers_to_bytes(registers: &[u16]) -> (bytes: Vec<u8>)
    requires
        2 * registers@.len() <= usize::MAX,
    ensures
        bytes@ == bytes_of_words(registers@),
        words_of_bytes(bytes@) == registers@,
{
    proof {
        lemma_registers_bytes_roundtrip(registers@);
    }
    let mut bytes: Vec<u8> = Vec::with_capacity(registers.len() * 2);
    let mut i: usize = 0;
    while i < registers.len()
        invariant
            i <= registers@.len(),
            2 * registers@.len() <= usize::MAX,
            bytes@ == bytes_of_words(registers@.take(i as int)),
        decreases registers.len() - i,
    {
        let r = registers[i];
        bytes.push((r / 256) as u8);
        bytes.push((r % 256) as u8);
        i = i + 1;
        assert(bytes@ =~= bytes_of_words(registers@.take(i as int)));
    }
    assert(registers@.take(registers@.len() as int) =~= registers@);
    bytes
}

/// Bytes as big-endian registers; an odd number of bytes is an error.
pub fn bytes_to_registers(bytes: &[u8]) -> (r: ModbusResult<Vec<u16>>)
    ensures
        bytes@.len() % 2 != 0 ==> (r matches Err(e) && is_invalid_data(
            e,
            "Byte array length must be even"@,
        )),
        bytes@.len() % 2 == 0 ==> (r matches Ok(v) && v@ == words_of_bytes(bytes@)
            && bytes_of_words(v@) == bytes@),
{
    proof {
        if bytes@.len() % 2 == 0 {
            lemma_bytes_registers_roundtrip(bytes@);
        }
    }
    if bytes.len() % 2 != 0 {
        return Err(ModbusError::invalid_data("Byte array length must be even"));
    }
    let mut registers: Vec<u16> = Vec::new();
    let mut k: usize = 0;
    while k < bytes.len() / 2
        invariant
            bytes@.len() % 2 == 0,
            k <= bytes@.len() / 2,
            registers@ == words_of_bytes(bytes@).take(k as int),
        decreases bytes.len() / 2 - k,
    {
        let value: u16 = (bytes[2 * k] as u16) * 256 + (bytes[2 * k + 1] as u16);
        registers.push(value);
        k = k + 1;
        assert(registers@ =~= words_of_bytes(bytes@).take(k as int));
    }
    assert(registers@ =~= words_of_bytes(bytes@));
    Ok(registers)
}

/// Packs bits into bytes, eight per byte, least significant bit first.
pub fn pack_bits(bits: &[bool]) -> (bytes: Vec<u8>)
    ensures
        packs_bits(bytes@, bits@),
{
    let n = bits.len();
    let byte_count = n / 8 + if n % 8 == 0 { 0 } else { 1 };
    assert(byte_count == (n + 7) / 8);
    let mut bytes: Vec<u8> = Vec::new();
    let mut j: usize = 0;
    while j < byte_count
        invariant
            n == bits@.len(),
            byte_count == (n + 7) / 8,
            j <= byte_count,
            bytes@.len() == j,
            forall|i: int|
                0 <= i < 8 * j ==> #[trigger] bit_of(bytes@[i / 8], i % 8) == (i < n && bits@[i]),
        decreases byte_count - j,
    {
        let mut byte: u8 = 0;
        let mut k: u8 = 0;
        assert forall|m: int| 0 <= m < 8 implies #[trigger] bit_of(byte, m) == (m < k && 8 * j + m
            < n && bits@[8 * j + m]) by {
            lemma_zero_bits(m as u8);
        }
        while k < 8
            invariant
                n == bits@.len(),
                j < byte_count,
                byte_count == (n + 7) / 8,
                k <= 8,
                forall|m: int|
                    0 <= m < 8 ==> #[trigger] bit_of(byte, m) == (m < k && 8 * j + m < n
                        && bits@[8 * j + m]),
            decreases 8 - k,
        {
            if 8 * j + (k as usize) < n && bits[8 * j + (k as usize)] {
                let ghost old_byte = byte;
                byte = byte | (1u8 << k);
                proof {
                    assert forall|m: int| 0 <= m < 8 implies #[trigger] bit_of(byte, m) == (m < k
                        + 1 && 8 * j + m < n && bits@[8 * j + m]) by {
                        lemma_set_bit(old_byte, k, m as u8);
                        assert(bit_of(old_byte, m) == (m < k && 8 * j + m < n && bits@[8 * j + m]));
                        assert(bit_of(byte, m) == (bit_of(old_byte, m) || k == m as u8));
                    }
                }
            }
            k = k + 1;
        }
        let ghost old_bytes = bytes@;
        bytes.push(byte);
        proof {
            assert forall|i: int| 0 <= i < 8 * (j + 1) implies #[trigger] bit_of(
                bytes@[i / 8],
                i % 8,
            ) == (i < n && bits@[i]) by {
                if i < 8 * j {
                    assert(bytes@[i / 8] == old_bytes[i / 8]);
                } else {
                    assert(i / 8 == j);
                    assert(bit_of(byte, i % 8) == (i % 8 < 8 && 8 * j + i % 8 < n
                        && bits@[8 * j + i % 8]));
                }
            }
        }
        j = j + 1;
    }
    bytes
}

/// Reads `bit_count` bits from bytes, least significant bit first; bits past
/// the end of the bytes are `false`.
pub fn unpack_bits(bytes: &[u8], bit_count: usize) -> (bits: Vec<bool>)
    ensures
        bits@ == unpacked_bits(bytes@, bit_count as nat),
{
    let mut bits: Vec<bool> = Vec::new();
    let mut i: usize = 0;
    while i < bit_count
        invariant
            i <= bit_count,
            bits@ == unpacked_bits(bytes@, bit_count as nat).take(i as int),
        decreases bit_count - i,
    {
        let byte_index = i / 8;
        let bit_index = (i % 8) as u8;
        if byte_index < bytes.len() {
            bits.push((bytes[byte_index] & (1u8 << bit_index)) != 0);
        } else {
            bits.push(false);
        }
        i = i + 1;
        assert(bits@ =~= unpacked_bits(bytes@, bit_count as nat).take(i as int));
    }
    assert(bits@ =~= unpacked_bits(bytes@, bit_count as nat));
    bits
}

/// A 32-bit value as two registers, high word first.
pub fn u32_to_registers(value: u32) -> (r: [u16; 2])
    ensures
        r@ == seq![(value / 65536) as u16, (value % 65536) as u16],
{
    let r = [(value / 65536) as u16, (value % 65536) as u16];
    assert(r@ =~= seq![(value / 65536) as u16, (value % 65536) as u16]);
    r
}

/// Two registers, high word first, as a 32-bit value; fewer than two
/// registers is an error.
pub fn registers_to_u32(registers: &[u16]) -> (r: ModbusResult<u32>)
    ensures
        registers@.len() < 2 ==> (r matches Err(e) && is_invalid_data(
            e,
            "Need at least 2 registers for u32"@,
        )),
        registers@.len() >= 2 ==> r == Ok::<u32, ModbusError>(
            (registers@[0] as int * 65536 + registers@[1] as int) as u32,
        ),
{
    if registers.len() < 2 {
        return Err(ModbusError::invalid_data("Need at least 2 registers for u32"));
    }
    Ok((registers[0] as u32) * 65536 + (registers[1] as u32))
}

/// Registers written as bytes read back as the same registers.
pub proof fn lemma_registers_bytes_roundtrip(w: Seq<u16>)
    ensures
        words_of_bytes(bytes_of_words(w)) == w,
{
    assert(words_of_bytes(bytes_of_words(w)) =~= w);
}

/// An even number of bytes read as registers writes back as the same bytes.
pub proof fn lemma_bytes_registers_roundtrip(b: Seq<u8>)
    requires
        b.len() % 2 == 0,
    ensures
        bytes_of_words(words_of_bytes(b)) == b,
{
    let w = words_of_bytes(b);
    assert forall|i: int| 0 <= i < b.len() implies #[trigger] bytes_of_words(w)[i] == b[i] by {
        let k = i / 2;
        assert(w[k] == be_word(b[2 * k], b[2 * k + 1]));
    }
    assert(bytes_of_words(w) =~= b);
}

/// Unpacking packed bits gives back the bits.
pub proof fn lemma_pack_unpack(bits: Seq<bool>, bytes: Seq<u8>)
    requires
        packs_bits(bytes, bits),
    ensures
        unpacked_bits(bytes, bits.len()) == bits,
{
    assert forall|i: int| 0 <= i < bits.len() implies #[trigger] unpacked_bits(bytes, bits.len())[i]
        == bits[i] by {
        assert(bit_of(bytes[i / 8], i % 8) == (i < bits.len() && bits[i]));
    }
    assert(unpacked_bits(bytes, bits.len()) =~= bits);
}

/// Packing all the bits of some bytes gives back the bytes.
pub proof fn lemma_unpack_pack(bytes: Seq<u8>, packed: Seq<u8>)
    requires
        packs_bits(packed, unpacked_bits(bytes, 8 * bytes.len())),
    ensures
        packed == bytes,
{
    let bits = unpacked_bits(bytes, 8 * bytes.len());
    assert(packed.len() == bytes.len());
    assert forall|j: int| 0 <= j < bytes.len() implies packed[j] == bytes[j] by {
        assert forall|k: int| 0 <= k < 8 implies bit_of(packed[j], k) == bit_of(bytes[j], k) by {
            let i = 8 * j + k;
            assert(i / 8 == j);
            assert(i % 8 == k);
            assert(bit_of(packed[i / 8], i % 8) == (i < bits.len() && bits[i]));
        }
        lemma_byte_of_bits(packed[j], bytes[j]);
    }
    assert(packed =~= bytes);
}

/// A 32-bit value split into two registers joins back into the value.
pub proof fn lemma_u32_registers_roundtrip(value: u32)
    ensures
        ((value / 65536) as u16 as int * 65536 + (value % 65536) as u16 as int) as u32 == value,
{
}

} // verus!
