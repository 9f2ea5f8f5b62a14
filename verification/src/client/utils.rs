//! Conversions of register values to and from 32-bit integers, high word
//! first.

use vstd::prelude::*;

verus! {

/// 32-bit values of consecutive register pairs, high word first; a trailing
/// odd register is ignored.
pub open spec fn u32s_of_registers(r: Seq<u16>) -> Seq<u32> {
    Seq::new(r.len() / 2, |i: int| (r[2 * i] as int * 65536 + r[2 * i + 1] as int) as u32)
}

/// Two registers per 32-bit value, high word first.
pub open spec fn registers_of_u32s(v: Seq<u32>) -> Seq<u16> {
    Seq::new(
        2 * v.len(),
        |i: int|
            if i % 2 == 0 {
                (v[i / 2] / 65536) as u16
            } else {
                (v[i / 2] % 65536) as u16
            },
    )
}

/// Register pairs as unsigned 32-bit values.
pub fn registers_to_u32_be(registers: &[u16]) -> (r: Vec<u32>)
    ensures
        r@ == u32s_of_registers(registers@),
        registers@.len() % 2 == 0 ==> registers_of_u32s(r@) == registers@,
{
    let mut out: Vec<u32> = Vec::new();
    let mut k: usize = 0;
    while k < registers.len() / 2
        invariant
            k <= registers@.len() / 2,
            out@ == u32s_of_registers(registers@).take(k as int),
        decreases registers.len() / 2 - k,
    {
        let v = (registers[2 * k] as u32) * 65536 + (registers[2 * k + 1] as u32);
        out.push(v);
        k = k + 1;
        assert(out@ =~= u32s_of_registers(registers@).take(k as int));
    }
    assert(out@ =~= u32s_of_registers(registers@));
    proof {
        if registers@.len() % 2 == 0 {
            lemma_registers_u32_be_roundtrip(registers@);
        }
    }
    out
}

/// Register pairs as signed 32-bit values (two's complement).
pub fn registers_to_i32_be(registers: &[u16]) -> (r: Vec<i32>)
    ensures
        r@.len() == registers@.len() / 2,
        forall|i: int| 0 <= i < r@.len() ==> #[trigger] r@[i] == u32s_of_registers(registers@)[i] as i32,
{
    let unsigned = registers_to_u32_be(registers);
    let mut out: Vec<i32> = Vec::new();
    let mut i: usize = 0;
    while i < unsigned.len()
        invariant
            i <= unsigned@.len(),
            unsigned@ == u32s_of_registers(registers@),
            out@.len() == i,
            forall|j: int| 0 <= j < i ==> #[trigger] out@[j] == unsigned@[j] as i32,
        decreases unsigned.len() - i,
    {
        out.push(unsigned[i] as i32);
        i = i + 1;
    }
    out
}

/// 32-bit values as register pairs, high word first.
pub fn u32_to_registers_be(values: &[u32]) -> (r: Vec<u16>)
    requires
        2 * values@.len() <= usize::MAX,
    ensures
        r@ == registers_of_u32s(values@),
        r@.len() == 2 * values@.len(),
        u32s_of_registers(r@) == values@,
{
    proof {
        lemma_u32_registers_be_roundtrip(values@);
    }
    let mut out: Vec<u16> = Vec::new();
    let mut i: usize = 0;
    while i < values.len()
        invariant
            i <= values@.len(),
            2 * values@.len() <= usize::MAX,
            out@ == registers_of_u32s(values@.take(i as int)),
        decreases values.len() - i,
    {
        let v = values[i];
        out.push((v / 65536) as u16);
        out.push((v % 65536) as u16);
        i = i + 1;
        assert(out@ =~= registers_of_u32s(values@.take(i as int)));
    }
    assert(values@.take(values@.len() as int) =~= values@);
    out
}

/// Values split into register pairs join back into the same values.
pub proof fn lemma_u32_registers_be_roundtrip(v: Seq<u32>)
    ensures
        u32s_of_registers(registers_of_u32s(v)) == v,
{
    let r = registers_of_u32s(v);
    assert forall|i: int| 0 <= i < v.len() implies #[trigger] u32s_of_registers(r)[i] == v[i] by {
        assert((2 * i) / 2 == i);
        assert((2 * i + 1) / 2 == i);
        assert((2 * i) % 2 == 0);
        assert((2 * i + 1) % 2 == 1);
    }
    assert(u32s_of_registers(r) =~= v);
}

/// An even number of registers joined into values splits back into the same
/// registers.
pub proof fn lemma_registers_u32_be_roundtrip(r: Seq<u16>)
    requires
        r.len() % 2 == 0,
    ensures
        registers_of_u32s(u32s_of_registers(r)) == r,
{
    let v = u32s_of_registers(r);
    assert forall|i: int| 0 <= i < r.len() implies #[trigger] registers_of_u32s(v)[i] == r[i] by {
        let k = i / 2;
        assert(v[k] == (r[2 * k] as int * 65536 + r[2 * k + 1] as int) as u32);
    }
    assert(registers_of_u32s(v) =~= r);
}

} // verus!
