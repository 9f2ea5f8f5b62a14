//! Building human-readable text: decimal and hexadecimal numbers and
//! space-separated lists.

use vstd::prelude::*;

verus! {

/// `String::push` appends one character at the end of the string.
pub assume_specification[ String::push ](s: &mut String, ch: char)
    ensures
        final(s)@ == old(s)@.push(ch),
;

/// The character of a decimal digit.
pub open spec fn digit_char(d: int) -> char {
    if 0 <= d < 10 {
        (48 + d) as char
    } else {
        '?'
    }
}

/// Decimal rendering of a natural number, without leading zeros.
pub open spec fn dec_str(n: nat) -> Seq<char>
    decreases n,
{
    if n < 10 {
        seq![digit_char(n as int)]
    } else {
        dec_str(n / 10).push(digit_char((n % 10) as int))
    }
}

/// Upper-case hexadecimal digit.
pub open spec fn hex_upper(d: int) -> char {
    if 0 <= d < 10 {
        (48 + d) as char
    } else if 10 <= d < 16 {
        (55 + d) as char
    } else {
        '?'
    }
}

/// Lower-case hexadecimal digit.
pub open spec fn hex_lower(d: int) -> char {
    if 0 <= d < 10 {
        (48 + d) as char
    } else if 10 <= d < 16 {
        (87 + d) as char
    } else {
        '?'
    }
}

/// A byte as two upper-case hexadecimal digits.
pub open spec fn hex2_upper(b: u8) -> Seq<char> {
    seq![hex_upper(b as int / 16), hex_upper(b as int % 16)]
}

/// A byte as two lower-case hexadecimal digits.
pub open spec fn hex2_lower(b: u8) -> Seq<char> {
    seq![hex_lower(b as int / 16), hex_lower(b as int % 16)]
}

/// A 16-bit value as four upper-case hexadecimal digits.
pub open spec fn hex4_upper(v: u16) -> Seq<char> {
    hex2_upper((v / 256) as u8) + hex2_upper((v % 256) as u8)
}

/// Bytes as lower-case hexadecimal, two digits per byte, no separator.
pub open spec fn hex_lower_bytes(s: Seq<u8>) -> Seq<char>
    decreases s.len(),
{
    if s.len() == 0 {
        Seq::empty()
    } else {
        hex_lower_bytes(s.drop_last()) + hex2_lower(s.last())
    }
}

/// Bytes as upper-case two-digit hexadecimal, separated by single spaces.
pub open spec fn hex_bytes_spaced(s: Seq<u8>) -> Seq<char>
    decreases s.len(),
{
    if s.len() == 0 {
        Seq::empty()
    } else if s.len() == 1 {
        hex2_upper(s[0])
    } else {
        hex_bytes_spaced(s.drop_last()) + seq![' '] + hex2_upper(s.last())
    }
}

/// 16-bit values as upper-case four-digit hexadecimal, separated by single spaces.
pub open spec fn hex_words_spaced(s: Seq<u16>) -> Seq<char>
    decreases s.len(),
{
    if s.len() == 0 {
        Seq::empty()
    } else if s.len() == 1 {
        hex4_upper(s[0])
    } else {
        hex_words_spaced(s.drop_last()) + seq![' '] + hex4_upper(s.last())
    }
}

/// Booleans as `true` / `false` words separated by `", "`.
pub open spec fn bools_listed(s: Seq<bool>) -> Seq<char>
    decreases s.len(),
{
    if s.len() == 0 {
        Seq::empty()
    } else if s.len() == 1 {
        bool_str(s[0])
    } else {
        bools_listed(s.drop_last()) + ", "@ + bool_str(s.last())
    }
}

/// `true` or `false`.
pub open spec fn bool_str(b: bool) -> Seq<char> {
    if b {
        "true"@
    } else {
        "false"@
    }
}

/// Decimal 16-bit values separated by `", "`.
pub open spec fn words_listed(s: Seq<u16>) -> Seq<char>
    decreases s.len(),
{
    if s.len() == 0 {
        Seq::empty()
    } else if s.len() == 1 {
        dec_str(s[0] as nat)
    } else {
        words_listed(s.drop_last()) + ", "@ + dec_str(s.last() as nat)
    }
}

fn digit_to_char(d: u64) -> (c: char)
    requires
        d < 10,
    ensures
        c == digit_char(d as int),
{
    let b: u8 = 48u8 + (d as u8);
    b as char
}

/// The upper-case hexadecimal digit of a nibble.
pub fn hex_digit_upper(d: u8) -> (c: char)
    requires
        d < 16,
    ensures
        c == hex_upper(d as int),
{
    if d < 10 {
        let b: u8 = 48u8 + d;
        b as char
    } else {
        let b: u8 = 55u8 + d;
        b as char
    }
}

/// The lower-case hexadecimal digit of a nibble.
pub fn hex_digit_lower(d: u8) -> (c: char)
    requires
        d < 16,
    ensures
        c == hex_lower(d as int),
{
    if d < 10 {
        let b: u8 = 48u8 + d;
        b as char
    } else {
        let b: u8 = 87u8 + d;
        b as char
    }
}

/// Appends a string slice.
pub fn push_text(s: &mut String, t: &str)
    ensures
        final(s)@ == old(s)@ + t@,
{
    s.append(t);
}

/// Appends the decimal rendering of `n`.
pub fn push_decimal(s: &mut String, n: u64)
    ensures
        final(s)@ == old(s)@ + dec_str(n as nat),
{
    push_decimal_wide(s, n as u128);
}

/// Appends the decimal rendering of a 128-bit `n`.
pub fn push_decimal_wide(s: &mut String, n: u128)
    ensures
        final(s)@ == old(s)@ + dec_str(n as nat),
    decreases n,
{
    let ghost start = s@;
    if n >= 10 {
        push_decimal_wide(s, n / 10);
    }
    let c = digit_to_char((n % 10) as u64);
    s.push(c);
    assert(s@ =~= start + dec_str(n as nat));
}

/// Appends a byte as two upper-case hexadecimal digits.
pub fn push_hex2_upper(s: &mut String, b: u8)
    ensures
        final(s)@ == old(s)@ + hex2_upper(b),
{
    let ghost start = s@;
    s.push(hex_digit_upper(b / 16));
    s.push(hex_digit_upper(b % 16));
    assert(s@ =~= start + hex2_upper(b));
}

/// Appends a byte as two lower-case hexadecimal digits.
pub fn push_hex2_lower(s: &mut String, b: u8)
    ensures
        final(s)@ == old(s)@ + hex2_lower(b),
{
    let ghost start = s@;
    s.push(hex_digit_lower(b / 16));
    s.push(hex_digit_lower(b % 16));
    assert(s@ =~= start + hex2_lower(b));
}

/// Appends a 16-bit value as four upper-case hexadecimal digits.
pub fn push_hex4_upper(s: &mut String, v: u16)
    ensures
        final(s)@ == old(s)@ + hex4_upper(v),
{
    let ghost start = s@;
    push_hex2_upper(s, (v / 256) as u8);
    push_hex2_upper(s, (v % 256) as u8);
    assert(s@ =~= start + hex4_upper(v));
}

/// Appends bytes as upper-case hexadecimal separated by spaces.
pub fn push_hex_bytes_spaced(s: &mut String, bytes: &[u8])
    ensures
        final(s)@ == old(s)@ + hex_bytes_spaced(bytes@),
{
    let ghost start = s@;
    let mut i: usize = 0;
    while i < bytes.len()
        invariant
            i <= bytes@.len(),
            s@ == start + hex_bytes_spaced(bytes@.take(i as int)),
        decreases bytes.len() - i,
    {
        let ghost before = s@;
        if i > 0 {
            s.push(' ');
        }
        push_hex2_upper(s, bytes[i]);
        proof {
            let t = bytes@.take(i + 1);
            assert(t.drop_last() =~= bytes@.take(i as int));
            assert(t.last() == bytes@[i as int]);
            if i == 0 {
                assert(hex_bytes_spaced(t) == hex2_upper(t[0]));
                assert(bytes@.take(0) =~= Seq::<u8>::empty());
            }
            assert(s@ =~= start + hex_bytes_spaced(t));
        }
        i = i + 1;
    }
    assert(bytes@.take(bytes@.len() as int) =~= bytes@);
}

/// Appends 16-bit values as upper-case hexadecimal separated by spaces.
pub fn push_hex_words_spaced(s: &mut String, words: &[u16])
    ensures
        final(s)@ == old(s)@ + hex_words_spaced(words@),
{
    let ghost start = s@;
    let mut i: usize = 0;
    while i < words.len()
        invariant
            i <= words@.len(),
            s@ == start + hex_words_spaced(words@.take(i as int)),
        decreases words.len() - i,
    {
        if i > 0 {
            s.push(' ');
        }
        push_hex4_upper(s, words[i]);
        proof {
            let t = words@.take(i + 1);
            assert(t.drop_last() =~= words@.take(i as int));
            if i == 0 {
                assert(hex_words_spaced(t) == hex4_upper(t[0]));
                assert(words@.take(0) =~= Seq::<u16>::empty());
            }
            assert(s@ =~= start + hex_words_spaced(t));
        }
        i = i + 1;
    }
    assert(words@.take(words@.len() as int) =~= words@);
}

/// Appends booleans as `true`/`false` separated by `", "`.
pub fn push_bools_listed(s: &mut String, bits: &[bool])
    ensures
        final(s)@ == old(s)@ + bools_listed(bits@),
{
    let ghost start = s@;
    let mut i: usize = 0;
    while i < bits.len()
        invariant
            i <= bits@.len(),
            s@ == start + bools_listed(bits@.take(i as int)),
        decreases bits.len() - i,
    {
        if i > 0 {
            push_text(s, ", ");
        }
        if bits[i] {
            push_text(s, "true");
        } else {
            push_text(s, "false");
        }
        proof {
            let t = bits@.take(i + 1);
            assert(t.drop_last() =~= bits@.take(i as int));
            if i == 0 {
                assert(bools_listed(t) == bool_str(t[0]));
                assert(bits@.take(0) =~= Seq::<bool>::empty());
            }
            assert(s@ =~= start + bools_listed(t));
        }
        i = i + 1;
    }
    assert(bits@.take(bits@.len() as int) =~= bits@);
}

/// Appends decimal 16-bit values separated by `", "`.
pub fn push_words_listed(s: &mut String, words: &[u16])
    ensures
        final(s)@ == old(s)@ + words_listed(words@),
{
    let ghost start = s@;
    let mut i: usize = 0;
    while i < words.len()
        invariant
            i <= words@.len(),
            s@ == start + words_listed(words@.take(i as int)),
        decreases words.len() - i,
    {
        if i > 0 {
            push_text(s, ", ");
        }
        push_decimal(s, words[i] as u64);
        proof {
            let t = words@.take(i + 1);
            assert(t.drop_last() =~= words@.take(i as int));
            if i == 0 {
                assert(words_listed(t) == dec_str(t[0] as nat));
                assert(words@.take(0) =~= Seq::<u16>::empty());
            }
            assert(s@ =~= start + words_listed(t));
        }
        i = i + 1;
    }
    assert(words@.take(words@.len() as int) =~= words@);
}

} // verus!
