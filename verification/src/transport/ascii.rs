//! Modbus ASCII framing: `:` followed by the bytes of slave id, function code,
//! fields and LRC as upper-case hexadecimal text, ended by CR LF.

use vstd::prelude::*;
use crate::error::{ModbusError, ModbusResult, is_frame_error};
use crate::protocol::{
    ModbusFunction, ModbusRequest, ModbusResponse, function_code, function_of_code,
};
use crate::text::{hex2_upper, push_hex2_upper, push_text};
use crate::transport::{is_exception_response, is_success_response, push_request_body, request_body};

verus! {

/// The sum of some bytes.
pub open spec fn byte_sum(s: Seq<u8>) -> nat
    decreases s.len(),
{
    if s.len() == 0 {
        0
    } else {
        byte_sum(s.drop_last()) + s.last() as nat
    }
}

/// The LRC of some bytes: the two's complement of their sum, modulo 256.
pub open spec fn lrc(s: Seq<u8>) -> u8 {
    ((256 - byte_sum(s) % 256) % 256) as u8
}

/// Bytes and their LRC add up to a multiple of 256.
pub proof fn lemma_lrc_checks(s: Seq<u8>)
    ensures
        (byte_sum(s) + lrc(s)) % 256 == 0,
{
}

/// The LRC of some bytes: the two's complement of their sum, modulo 256.
pub fn calculate_lrc(data: &[u8]) -> (r: u8)
    ensures
        r == lrc(data@),
{
    let mut sum: u32 = 0;
    let mut i: usize = 0;
    while i < data.len()
        invariant
            i <= data@.len(),
            sum == byte_sum(data@.take(i as int)) % 256,
        decreases data.len() - i,
    {
        let ghost before = byte_sum(data@.take(i as int));
        assert(data@.take(i + 1).drop_last() =~= data@.take(i as int));
        assert(byte_sum(data@.take(i + 1)) == before + data@[i as int]);
        assert((before % 256 + data@[i as int]) % 256 == (before + data@[i as int]) % 256) by {
            vstd::arithmetic::div_mod::lemma_add_mod_noop(before as int, data@[i as int] as int, 256);
            vstd::arithmetic::div_mod::lemma_small_mod(data@[i as int] as nat, 256);
        }
        sum = (sum + data[i] as u32) % 256;
        i = i + 1;
    }
    assert(data@.take(data@.len() as int) =~= data@);
    ((256 - sum) % 256) as u8
}

/// The ASCII character of a hexadecimal digit, upper case.
pub open spec fn hex_ascii(d: int) -> u8 {
    if d < 10 {
        (48 + d) as u8
    } else {
        (55 + d) as u8
    }
}

/// A byte as two upper-case hexadecimal ASCII characters.
pub open spec fn ascii_hex_of_byte(b: u8) -> Seq<u8> {
    seq![hex_ascii(b as int / 16), hex_ascii(b as int % 16)]
}

/// Bytes as upper-case hexadecimal ASCII characters, two per byte.
pub open spec fn ascii_hex_bytes(s: Seq<u8>) -> Seq<u8> {
    Seq::new(
        2 * s.len(),
        |i: int|
            if i % 2 == 0 {
                hex_ascii(s[i / 2] as int / 16)
            } else {
                hex_ascii(s[i / 2] as int % 16)
            },
    )
}

/// The value of a hexadecimal ASCII character (either case), if it is one.
pub open spec fn hex_value(c: u8) -> Option<u8> {
    if 48 <= c <= 57 {
        Some((c - 48) as u8)
    } else if 65 <= c <= 70 {
        Some((c - 55) as u8)
    } else if 97 <= c <= 102 {
        Some((c - 87) as u8)
    } else {
        None
    }
}

/// Whether every character is a hexadecimal digit.
pub open spec fn all_hex(s: Seq<u8>) -> bool {
    forall|i: int| 0 <= i < s.len() ==> #[trigger] hex_value(s[i]) is Some
}

/// Hexadecimal text read as bytes, two characters per byte.
pub open spec fn decoded_hex(s: Seq<u8>) -> Seq<u8> {
    Seq::new(
        s.len() / 2,
        |i: int| (hex_value(s[2 * i])->0 as int * 16 + hex_value(s[2 * i + 1])->0 as int) as u8,
    )
}

/// The message of the error for a character that is not a hexadecimal digit.
pub open spec fn bad_hex_text(c: u8) -> Seq<char> {
    "Invalid ASCII hex character: "@ + seq![c as char]
}

/// `c` is the first character of `s` that is not a hexadecimal digit.
pub open spec fn first_non_hex(s: Seq<u8>, c: u8) -> bool {
    exists|k: int|
        0 <= k < s.len() && #[trigger] s[k] == c && hex_value(c) is None && all_hex(s.take(k))
}

/// Encodes a byte as two upper-case hexadecimal ASCII characters.
pub fn byte_to_ascii_hex(byte: u8) -> (r: [u8; 2])
    ensures
        r@ == ascii_hex_of_byte(byte),
{
    let high = byte / 16;
    let low = byte % 16;
    let high_char = if high < 10 {
        48 + high
    } else {
        55 + high
    };
    let low_char = if low < 10 {
        48 + low
    } else {
        55 + low
    };
    let r = [high_char, low_char];
    assert(r@ =~= ascii_hex_of_byte(byte));
    r
}

/// The value of one hexadecimal ASCII character.
pub fn ascii_char_to_hex(c: u8) -> (r: ModbusResult<u8>)
    ensures
        match hex_value(c) {
            Some(v) => r == Ok::<u8, ModbusError>(v),
            None => r matches Err(e) && is_frame_error(e, bad_hex_text(c)),
        },
{
    if 48 <= c && c <= 57 {
        Ok(c - 48)
    } else if 65 <= c && c <= 70 {
        Ok(c - 55)
    } else if 97 <= c && c <= 102 {
        Ok(c - 87)
    } else {
        let mut m = String::new();
        push_text(&mut m, "Invalid ASCII hex character: ");
        m.push(c as char);
        assert(m@ =~= bad_hex_text(c));
        Err(ModbusError::Frame { message: m })
    }
}

/// The byte of two hexadecimal ASCII characters.
pub fn ascii_hex_to_byte(ascii: &[u8]) -> (r: ModbusResult<u8>)
    ensures
        ascii@.len() != 2 ==> (r matches Err(e) && is_frame_error(e, "Invalid ASCII hex length"@)),
        ascii@.len() == 2 && hex_value(ascii@[0]) is None ==> (r matches Err(e) && is_frame_error(
            e,
            bad_hex_text(ascii@[0]),
        )),
        ascii@.len() == 2 && hex_value(ascii@[0]) is Some && hex_value(ascii@[1]) is None ==> (r matches Err(
            e,
        ) && is_frame_error(e, bad_hex_text(ascii@[1]))),
        ascii@.len() == 2 && all_hex(ascii@) ==> r == Ok::<u8, ModbusError>(decoded_hex(ascii@)[0]),
{
    if ascii.len() != 2 {
        return Err(ModbusError::frame("Invalid ASCII hex length"));
    }
    let high = ascii_char_to_hex(ascii[0])?;
    let low = ascii_char_to_hex(ascii[1])?;
    proof {
        assert(hex_value(ascii@[0]) is Some);
        assert(hex_value(ascii@[1]) is Some);
    }
    Ok(high * 16 + low)
}

/// Appends bytes as upper-case hexadecimal ASCII characters.
pub fn push_ascii_hex(frame: &mut Vec<u8>, bytes: &[u8])
    ensures
        final(frame)@ == old(frame)@ + ascii_hex_bytes(bytes@),
{
    let ghost start = frame@;
    let mut i: usize = 0;
    while i < bytes.len()
        invariant
            i <= bytes@.len(),
            frame@ == start + ascii_hex_bytes(bytes@.take(i as int)),
        decreases bytes.len() - i,
    {
        let pair = byte_to_ascii_hex(bytes[i]);
        frame.push(pair[0]);
        frame.push(pair[1]);
        i = i + 1;
        assert(frame@ =~= start + ascii_hex_bytes(bytes@.take(i as int)));
    }
    assert(bytes@.take(bytes@.len() as int) =~= bytes@);
}

/// The ASCII frame of some bytes: `:`, their hexadecimal text followed by
/// that of their LRC, CR LF.
pub open spec fn ascii_frame_of(body: Seq<u8>) -> Seq<u8> {
    seq![58u8] + ascii_hex_bytes(body.push(lrc(body))) + seq![13u8, 10u8]
}

/// The ASCII frame of a request.
pub open spec fn ascii_request_frame(r: ModbusRequest) -> Seq<u8> {
    ascii_frame_of(request_body(r))
}

/// Encodes a request as an ASCII frame; this always succeeds.
pub fn encode_ascii_request(request: &ModbusRequest) -> (r: ModbusResult<Vec<u8>>)
    ensures
        r matches Ok(frame) && frame@ == ascii_request_frame(*request),
{
    let mut raw_data: Vec<u8> = Vec::new();
    push_request_body(&mut raw_data, request);
    let lrc = calculate_lrc(raw_data.as_slice());
    let mut frame: Vec<u8> = Vec::new();
    frame.push(58u8);
    push_ascii_hex(&mut frame, raw_data.as_slice());
    let lrc_ascii = byte_to_ascii_hex(lrc);
    frame.push(lrc_ascii[0]);
    frame.push(lrc_ascii[1]);
    frame.push(0x0D);
    frame.push(0x0A);
    proof {
        let body = request_body(*request);
        assert(ascii_hex_bytes(body.push(lrc)) =~= ascii_hex_bytes(body) + ascii_hex_of_byte(lrc));
    }
    assert(frame@ =~= ascii_request_frame(*request));
    Ok(frame)
}

/// The structural problem of an ASCII frame, checked in this order: length,
/// start character, end characters, even number of hexadecimal characters.
pub open spec fn ascii_structure_problem(f: Seq<u8>) -> Option<Seq<char>> {
    if f.len() < 11 {
        Some("ASCII frame too short"@)
    } else if f[0] != 58 {
        Some("Invalid ASCII frame start character"@)
    } else if f[f.len() - 2] != 13 || f[f.len() - 1] != 10 {
        Some("Invalid ASCII frame end characters"@)
    } else if (f.len() - 3) % 2 != 0 {
        Some("Invalid ASCII frame length"@)
    } else {
        None
    }
}

/// The hexadecimal text between the start character and CR LF.
pub open spec fn ascii_inner(f: Seq<u8>) -> Seq<u8> {
    f.subrange(1, f.len() - 2)
}

/// Checks the structure of an ASCII frame and reads its hexadecimal text as
/// bytes (slave id, function code, payload and LRC).
pub fn ascii_frame_bytes(frame: &[u8]) -> (r: ModbusResult<Vec<u8>>)
    ensures
        ascii_structure_problem(frame@) matches Some(m) ==> (r matches Err(e) && is_frame_error(
            e,
            m,
        )),
        ascii_structure_problem(frame@) is None && !all_hex(ascii_inner(frame@)) ==> (r matches Err(
            e,
        ) && exists|c: u8|
            first_non_hex(ascii_inner(frame@), c) && #[trigger] is_frame_error(e, bad_hex_text(c))),
        ascii_structure_problem(frame@) is None && all_hex(ascii_inner(frame@)) ==> (r matches Ok(
            raw,
        ) && raw@ == decoded_hex(ascii_inner(frame@)) && raw@.len() >= 4),
{
    if frame.len() < 11 {
        return Err(ModbusError::frame("ASCII frame too short"));
    }
    if frame[0] != 58 {
        return Err(ModbusError::frame("Invalid ASCII frame start character"));
    }
    let len = frame.len();
    if frame[len - 2] != 0x0D || frame[len - 1] != 0x0A {
        return Err(ModbusError::frame("Invalid ASCII frame end characters"));
    }
    let ascii_data = vstd::slice::slice_subrange(frame, 1, len - 2);
    if ascii_data.len() % 2 != 0 {
        return Err(ModbusError::frame("Invalid ASCII frame length"));
    }
    let ghost s = ascii_data@;
    assert(s == ascii_inner(frame@));
    let mut raw_data: Vec<u8> = Vec::new();
    let mut k: usize = 0;
    while k < ascii_data.len() / 2
        invariant
            s == ascii_data@,
            s == ascii_inner(frame@),
            ascii_structure_problem(frame@) is None,
            s.len() % 2 == 0,
            k <= s.len() / 2,
            all_hex(s.take(2 * k)),
            raw_data@ == decoded_hex(s).take(k as int),
        decreases ascii_data.len() / 2 - k,
    {
        let chunk = vstd::slice::slice_subrange(ascii_data, 2 * k, 2 * k + 2);
        assert(chunk@ =~= s.subrange(2 * k, 2 * k + 2));
        let byte = match ascii_hex_to_byte(chunk) {
            Ok(b) => b,
            Err(e) => {
                proof {
                    assert(chunk@[0] == s[2 * k]);
                    assert(chunk@[1] == s[2 * k + 1]);
                    if hex_value(s[2 * k]) is None {
                        assert(first_non_hex(s, s[2 * k]));
                        assert(is_frame_error(e, bad_hex_text(s[2 * k])));
                    } else {
                        assert(all_hex(s.take(2 * k + 1))) by {
                            assert forall|i: int| 0 <= i < 2 * k + 1 implies #[trigger] hex_value(
                                s.take(2 * k + 1)[i],
                            ) is Some by {
                                if i < 2 * k {
                                    assert(s.take(2 * k + 1)[i] == s.take(2 * k)[i]);
                                }
                            }
                        }
                        assert(first_non_hex(s, s[2 * k + 1]));
                        assert(is_frame_error(e, bad_hex_text(s[2 * k + 1])));
                    }
                }
                return Err(e);
            },
        };
        raw_data.push(byte);
        proof {
            assert(all_hex(s.take(2 * k + 2))) by {
                assert forall|i: int| 0 <= i < 2 * k + 2 implies #[trigger] hex_value(
                    s.take(2 * k + 2)[i],
                ) is Some by {
                    if i < 2 * k {
                        assert(s.take(2 * k + 2)[i] == s.take(2 * k)[i]);
                    } else {
                        assert(hex_value(chunk@[i - 2 * k]) is Some);
                    }
                }
            }
        }
        k = k + 1;
        assert(raw_data@ =~= decoded_hex(s).take(k as int));
    }
    assert(s.take(s.len() as int) =~= s);
    assert(raw_data@ =~= decoded_hex(s));
    Ok(raw_data)
}

/// The message of the error for a frame whose LRC does not match.
pub open spec fn lrc_mismatch_text(calculated: u8, received: u8) -> Seq<char> {
    "LRC mismatch: expected 0x"@ + hex2_upper(calculated) + ", got 0x"@ + hex2_upper(received)
}

/// What decoding the bytes of an ASCII frame (slave id, function code,
/// payload, LRC) gives.
pub open spec fn ascii_raw_decoded(raw: Seq<u8>, r: ModbusResult<ModbusResponse>) -> bool {
    let data = raw.drop_last();
    if raw.len() < 3 {
        r matches Err(e) && is_frame_error(e, "ASCII frame too short after decoding"@)
    } else if raw.last() != lrc(data) {
        r matches Err(e) && is_frame_error(e, lrc_mismatch_text(lrc(data), raw.last()))
    } else if data[1] >= 0x80 {
        if data.len() < 3 {
            r matches Err(e) && is_frame_error(e, "Invalid exception response"@)
        } else {
            match function_of_code((data[1] - 0x80) as u8) {
                None => r == Err::<ModbusResponse, ModbusError>(
                    ModbusError::InvalidFunction { code: (data[1] - 0x80) as u8 },
                ),
                Some(g) => r matches Ok(resp) && is_exception_response(resp, data[0], g, data[2]),
            }
        }
    } else {
        match function_of_code(data[1]) {
            None => r == Err::<ModbusResponse, ModbusError>(
                ModbusError::InvalidFunction { code: data[1] },
            ),
            Some(g) => r matches Ok(resp) && is_success_response(
                resp,
                data[0],
                g,
                data.subrange(2, data.len() as int),
            ),
        }
    }
}

/// Decodes the bytes of an ASCII frame: checks the LRC, then reads slave id,
/// function code and payload or exception code.
pub fn decode_ascii_raw(raw: Vec<u8>) -> (r: ModbusResult<ModbusResponse>)
    ensures
        ascii_raw_decoded(raw@, r),
{
    let mut raw_data = raw;
    let ghost received = raw_data@;
    if raw_data.len() < 3 {
        return Err(ModbusError::frame("ASCII frame too short after decoding"));
    }
    let received_lrc = raw_data.pop().unwrap();
    assert(raw_data@ =~= received.drop_last());
    let calculated_lrc = calculate_lrc(raw_data.as_slice());
    if received_lrc != calculated_lrc {
        let mut m = String::new();
        push_text(&mut m, "LRC mismatch: expected 0x");
        push_hex2_upper(&mut m, calculated_lrc);
        push_text(&mut m, ", got 0x");
        push_hex2_upper(&mut m, received_lrc);
        assert(m@ =~= lrc_mismatch_text(calculated_lrc, received_lrc));
        return Err(ModbusError::Frame { message: m });
    }
    let slave_id = raw_data[0];
    let function_code = raw_data[1];
    if function_code >= 0x80 {
        if raw_data.len() < 3 {
            return Err(ModbusError::frame("Invalid exception response"));
        }
        let base_function = function_code - 0x80;
        let exception_code = raw_data[2];
        let function = ModbusFunction::from_u8(base_function)?;
        return Ok(ModbusResponse::new_exception(slave_id, function, exception_code));
    }
    let function = ModbusFunction::from_u8(function_code)?;
    let n = raw_data.len();
    let data = if n > 2 {
        vstd::slice::slice_to_vec(vstd::slice::slice_subrange(raw_data.as_slice(), 2, n))
    } else {
        Vec::new()
    };
    assert(data@ =~= raw_data@.subrange(2, n as int));
    Ok(ModbusResponse::new_success(slave_id, function, data))
}

/// Decodes an ASCII response frame.
pub fn decode_ascii_response(frame: &[u8]) -> (r: ModbusResult<ModbusResponse>)
    ensures
        ascii_structure_problem(frame@) matches Some(m) ==> (r matches Err(e) && is_frame_error(
            e,
            m,
        )),
        ascii_structure_problem(frame@) is None && !all_hex(ascii_inner(frame@)) ==> (r matches Err(
            e,
        ) && exists|c: u8|
            first_non_hex(ascii_inner(frame@), c) && #[trigger] is_frame_error(e, bad_hex_text(c))),
        ascii_structure_problem(frame@) is None && all_hex(ascii_inner(frame@)) ==> ascii_raw_decoded(
            decoded_hex(ascii_inner(frame@)),
            r,
        ),
{
    let raw = ascii_frame_bytes(frame)?;
    decode_ascii_raw(raw)
}

/// The ASCII frame of a normal response.
pub open spec fn ascii_response_frame(slave_id: u8, function: ModbusFunction, data: Seq<u8>) -> Seq<u8> {
    ascii_frame_of(seq![slave_id, function_code(function)] + data)
}

/// Hexadecimal digits read back as the nibbles they encode.
pub proof fn lemma_hex_ascii_value(d: int)
    requires
        0 <= d < 16,
    ensures
        hex_value(hex_ascii(d)) == Some(d as u8),
{
}

/// Bytes written as hexadecimal text read back as the same bytes.
pub proof fn lemma_ascii_hex_roundtrip(s: Seq<u8>)
    ensures
        all_hex(ascii_hex_bytes(s)),
        decoded_hex(ascii_hex_bytes(s)) == s,
{
    let t = ascii_hex_bytes(s);
    assert forall|i: int| 0 <= i < t.len() implies #[trigger] hex_value(t[i]) is Some by {
        if i % 2 == 0 {
            lemma_hex_ascii_value(s[i / 2] as int / 16);
        } else {
            lemma_hex_ascii_value(s[i / 2] as int % 16);
        }
    }
    assert forall|i: int| 0 <= i < s.len() implies #[trigger] decoded_hex(t)[i] == s[i] by {
        assert((2 * i) / 2 == i);
        assert((2 * i + 1) / 2 == i);
        lemma_hex_ascii_value(s[i] as int / 16);
        lemma_hex_ascii_value(s[i] as int % 16);
    }
    assert(decoded_hex(t) =~= s);
}

/// A normal ASCII response frame with a non-empty payload passes its
/// structure and LRC checks and decodes to the response it was made of.
pub proof fn lemma_ascii_response_roundtrip(slave_id: u8, function: ModbusFunction, data: Seq<u8>)
    requires
        data.len() >= 1,
    ensures
        ({
            let f = ascii_response_frame(slave_id, function, data);
            let raw = decoded_hex(ascii_inner(f));
            &&& ascii_structure_problem(f) is None
            &&& all_hex(ascii_inner(f))
            &&& raw == (seq![slave_id, function_code(function)] + data).push(
                lrc(seq![slave_id, function_code(function)] + data),
            )
            &&& forall|r: ModbusResult<ModbusResponse>|
                #[trigger] ascii_raw_decoded(raw, r) ==> (r matches Ok(resp) && is_success_response(
                    resp,
                    slave_id,
                    function,
                    data,
                ))
        }),
{
    let body = seq![slave_id, function_code(function)] + data;
    let raw = body.push(lrc(body));
    let hex = ascii_hex_bytes(raw);
    let f = ascii_response_frame(slave_id, function, data);
    assert(f == seq![58u8] + hex + seq![13u8, 10u8]);
    assert(f.len() == hex.len() + 3);
    assert(hex.len() == 2 * raw.len());
    assert(raw.len() >= 4);
    assert(f[0] == 58u8);
    assert(f[f.len() - 2] == 13u8);
    assert(f[f.len() - 1] == 10u8);
    assert(ascii_structure_problem(f) is None);
    assert(ascii_inner(f) =~= hex);
    lemma_ascii_hex_roundtrip(raw);
    assert(raw.drop_last() =~= body);
    assert(raw.last() == lrc(body));
    assert(body[0] == slave_id);
    assert(body[1] == function_code(function));
    assert(body.subrange(2, body.len() as int) =~= data);
    crate::protocol::lemma_function_code_roundtrip(function, 0);
}

/// An ASCII exception frame (slave, function code with the high bit set,
/// exception code) passes its structure and LRC checks and decodes to an
/// exception response from that slave, for that function, whose exception is
/// the one the exception code stands for.
pub proof fn lemma_ascii_exception_roundtrip(slave_id: u8, function: ModbusFunction, code: u8)
    ensures
        ({
            let body = seq![slave_id, function_code(function) | 0x80, code];
            let f = ascii_frame_of(body);
            let raw = decoded_hex(ascii_inner(f));
            &&& ascii_structure_problem(f) is None
            &&& all_hex(ascii_inner(f))
            &&& raw == body.push(lrc(body))
            &&& forall|r: ModbusResult<ModbusResponse>|
                #[trigger] ascii_raw_decoded(raw, r) ==> (r matches Ok(resp) && resp.slave_id
                    == slave_id && resp.function == function && resp.data@.len() == 0
                    && resp.exception == Some(crate::protocol::exception_for(code)))
        }),
{
    let fc = function_code(function);
    let body = seq![slave_id, fc | 0x80, code];
    let raw = body.push(lrc(body));
    let hex = ascii_hex_bytes(raw);
    let f = ascii_frame_of(body);
    assert(f == seq![58u8] + hex + seq![13u8, 10u8]);
    assert(hex.len() == 2 * raw.len());
    assert(f.len() == 11);
    assert(f[0] == 58u8);
    assert(f[f.len() - 2] == 13u8);
    assert(f[f.len() - 1] == 10u8);
    assert(ascii_structure_problem(f) is None);
    assert(ascii_inner(f) =~= hex);
    lemma_ascii_hex_roundtrip(raw);
    assert(raw.drop_last() =~= body);
    assert(raw.last() == lrc(body));
    crate::protocol::lemma_function_code_roundtrip(function, 0);
    assert(fc < 0x80 ==> (fc | 0x80) >= 0x80 && ((fc | 0x80) - 0x80) as u8 == fc) by (bit_vector);
}

} // verus!
