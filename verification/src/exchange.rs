//! Laws of a whole exchange: what a server makes of the frames that the
//! client side encodes, and what the client reads back from the server's
//! replies.

use vstd::prelude::*;
use crate::client::{at_most, request_is};
use crate::protocol::{
    ModbusFunction, ModbusRequest, bits_of_bytes, counted_payload, function_code, words_of_bytes,
};
use crate::protocol::data_utils::{bytes_of_words, lemma_registers_bytes_roundtrip, packs_bits};
use crate::register_bank::{
    BankModel, BankWrite, bank_after_write, lemma_read_after_write_bits, lemma_read_after_write_words, read_bits, read_words,
    write_bits, write_words,
};
use crate::server::{
    bank_after, carried_coils, read_bits_handled, read_words_handled, carried_registers, handled, rtu_reply_frame, rtu_request_checked,
    rtu_request_payload, tcp_reply_frame, tcp_request_payload, tcp_request_well_framed,
};
use crate::transport::{frame_word, request_body, request_fields};
use crate::transport::rtu::{rtu_request_frame, rtu_response_frame};
use crate::transport::tcp::{tcp_request_frame, tcp_response_frame};

verus! {

/// TCP and RTU carry the same message: after the 6-byte MBAP header a TCP
/// request frame holds exactly what an RTU request frame holds before its CRC.
pub proof fn lemma_tcp_rtu_same_message(r: ModbusRequest, transaction_id: u16)
    ensures
        ({
            let t = tcp_request_frame(r, transaction_id);
            let u = rtu_request_frame(r);
            &&& t.skip(6) == request_body(r)
            &&& u.take(u.len() - 2) == request_body(r)
        }),
{
    let t = tcp_request_frame(r, transaction_id);
    let u = rtu_request_frame(r);
    assert(t.skip(6) =~= request_body(r));
    assert(u.take(u.len() - 2) =~= request_body(r));
}

/// A request framed for TCP reaches the server as a well-framed request whose
/// unit id, function code and payload are the request's slave id, function
/// code and fields; the server's reply frame to it is the response frame with
/// the request's transaction id, slave id and function.
pub proof fn lemma_tcp_request_reaches_server(r: ModbusRequest, transaction_id: u16)
    requires
        request_body(r).len() < 65536,
    ensures
        ({
            let f = tcp_request_frame(r, transaction_id);
            &&& tcp_request_well_framed(f)
            &&& f[6] == r.slave_id
            &&& f[7] == function_code(r.function)
            &&& tcp_request_payload(f) == request_fields(r)
            &&& forall|reply: Seq<u8>|
                #[trigger] tcp_reply_frame(f, reply) == tcp_response_frame(
                    transaction_id,
                    r.slave_id,
                    r.function,
                    reply,
                )
        }),
{
    let body = request_body(r);
    let f = tcp_request_frame(r, transaction_id);
    assert(frame_word(f, 2) == 0);
    assert(frame_word(f, 4) == body.len());
    assert(tcp_request_payload(f) =~= request_fields(r));
    assert forall|reply: Seq<u8>|
        #[trigger] tcp_reply_frame(f, reply) == tcp_response_frame(
            transaction_id,
            r.slave_id,
            r.function,
            reply,
        ) by {
        assert(tcp_reply_frame(f, reply) =~= tcp_response_frame(
            transaction_id,
            r.slave_id,
            r.function,
            reply,
        ));
    }
}

/// A request framed for RTU passes the server's CRC check, and reaches it
/// with the request's slave id, function code and fields; the server's reply
/// frame to it is the response frame with that slave id and function.
pub proof fn lemma_rtu_request_reaches_server(r: ModbusRequest)
    ensures
        ({
            let f = rtu_request_frame(r);
            &&& rtu_request_checked(f)
            &&& f[0] == r.slave_id
            &&& f[1] == function_code(r.function)
            &&& rtu_request_payload(f) == request_fields(r)
            &&& forall|reply: Seq<u8>|
                #[trigger] rtu_reply_frame(f[0], f[1], reply) == rtu_response_frame(
                    r.slave_id,
                    r.function,
                    reply,
                )
        }),
{
    let body = request_body(r);
    let f = rtu_request_frame(r);
    assert(f.subrange(0, f.len() - 2) =~= body);
    assert(rtu_request_payload(f) =~= request_fields(r));
}

/// Registers written with a write-multiple-registers request are stored from
/// its address on, the server echoes address and quantity, and a read of the
/// same registers then answers a payload from which the client reads back
/// exactly the values written.
#[verifier::spinoff_prover]
pub proof fn lemma_registers_written_then_read(
    b: BankModel,
    write: ModbusRequest,
    read: ModbusRequest,
    slave_id: u8,
    address: u16,
    values: Seq<u16>,
)
    requires
        1 <= values.len() <= 123,
        request_is(
            write,
            slave_id,
            ModbusFunction::WriteMultipleRegisters,
            address,
            values.len() as u16,
            bytes_of_words(values),
        ),
        request_is(
            read,
            slave_id,
            ModbusFunction::ReadHoldingRegisters,
            address,
            values.len() as u16,
            Seq::empty(),
        ),
    ensures
        bank_after(0x10, request_fields(write), b) == (BankModel {
            holding_registers: write_words(b.holding_registers, address, values),
            ..b
        }),
        forall|o: Result<Seq<u8>, crate::error::ModbusError>|
            #[trigger] handled(0x10, request_fields(write), b, o) ==> o == Ok::<
                Seq<u8>,
                crate::error::ModbusError,
            >(request_fields(write).take(4)),
        forall|o: Result<Seq<u8>, crate::error::ModbusError>|
            #[trigger] handled(
                0x03,
                request_fields(read),
                bank_after(0x10, request_fields(write), b),
                o,
            ) ==> (o matches Ok(reply) && reply.len() >= 1 && reply.len() >= 1 + reply[0]
                && reply[0] % 2 == 0 && words_of_bytes(counted_payload(reply)) == values),
{
    let q = values.len();
    let wf = request_fields(write);
    let rf = request_fields(read);
    assert(frame_word(wf, 0) == address);
    assert(frame_word(wf, 2) == q);
    assert(wf[4] == 2 * q);
    assert(wf.len() == 5 + 2 * q);
    assert(wf.subrange(5, 5 + 2 * frame_word(wf, 2)) =~= bytes_of_words(values));
    lemma_registers_bytes_roundtrip(values);
    assert(carried_registers(wf) == values);
    let after = bank_after(0x10, wf, b);
    assert(after.holding_registers == write_words(b.holding_registers, address, values));
    assert(frame_word(rf, 0) == address);
    assert(frame_word(rf, 2) == q);
    lemma_read_after_write_words(b.holding_registers, address, values);
    let words = read_words(after.holding_registers, address, q);
    assert(words == values);
    let reply = seq![(q * 2) as u8] + bytes_of_words(words);
    assert(counted_payload(reply) =~= bytes_of_words(values));
    assert forall|o: Result<Seq<u8>, crate::error::ModbusError>|
        #[trigger] handled(0x03, rf, after, o) implies (o matches Ok(r) && r.len() >= 1 && r.len()
            >= 1 + r[0] && r[0] % 2 == 0 && words_of_bytes(counted_payload(r)) == values) by {
        assert(read_words_handled(rf, after.holding_registers, "Invalid read holding registers request"@, o));
        assert(o == Ok::<Seq<u8>, crate::error::ModbusError>(reply));
    }
}

/// Coils written with a write-multiple-coils request are stored from its
/// address on, the server echoes address and quantity, and a read of the same
/// coils then answers a payload from which the client reads back exactly the
/// values written.
pub proof fn lemma_coils_written_then_read(
    b: BankModel,
    write: ModbusRequest,
    read: ModbusRequest,
    slave_id: u8,
    address: u16,
    values: Seq<bool>,
)
    requires
        1 <= values.len() <= 1968,
        write.slave_id == slave_id,
        write.function == ModbusFunction::WriteMultipleCoils,
        write.address == address,
        write.quantity == values.len(),
        packs_bits(write.data@, values),
        request_is(read, slave_id, ModbusFunction::ReadCoils, address, values.len() as u16, Seq::empty()),
    ensures
        bank_after(0x0F, request_fields(write), b) == (BankModel {
            coils: write_bits(b.coils, address, values),
            ..b
        }),
        forall|o: Result<Seq<u8>, crate::error::ModbusError>|
            #[trigger] handled(0x0F, request_fields(write), b, o) ==> o == Ok::<
                Seq<u8>,
                crate::error::ModbusError,
            >(request_fields(write).take(4)),
        forall|o: Result<Seq<u8>, crate::error::ModbusError>|
            #[trigger] handled(
                0x01,
                request_fields(read),
                bank_after(0x0F, request_fields(write), b),
                o,
            ) ==> (o matches Ok(reply) && reply.len() >= 1 && reply.len() >= 1 + reply[0]
                && at_most(bits_of_bytes(counted_payload(reply)), values.len()) == values),
{
    let q = values.len();
    let wf = request_fields(write);
    let rf = request_fields(read);
    let data = write.data@;
    assert(frame_word(wf, 0) == address);
    assert(frame_word(wf, 2) == q);
    assert(wf[4] == data.len());
    assert(wf.len() == 5 + data.len());
    assert forall|i: int| 0 <= i < q implies #[trigger] carried_coils(wf)[i] == values[i] by {
        assert(wf[5 + i / 8] == data[i / 8]);
        assert(bit_of_index(data, i) == (i < q && values[i]));
    }
    assert(carried_coils(wf) =~= values);
    let after = bank_after(0x0F, wf, b);
    assert(frame_word(rf, 0) == address);
    assert(frame_word(rf, 2) == q);
    lemma_read_after_write_bits(b.coils, address, values);
    let bits = read_bits(after.coils, address, q);
    assert(bits == values);
    assert forall|o: Result<Seq<u8>, crate::error::ModbusError>|
        #[trigger] handled(0x01, rf, after, o) implies (o matches Ok(reply) && reply.len() >= 1
            && reply.len() >= 1 + reply[0] && at_most(bits_of_bytes(counted_payload(reply)), q)
            == values) by {
        let reply = o->Ok_0;
        let packed = reply.drop_first();
        assert(packs_bits(packed, values));
        assert(counted_payload(reply) =~= packed);
        assert forall|i: int| 0 <= i < q implies #[trigger] bits_of_bytes(packed)[i] == values[i] by {
            assert(bit_of_index(packed, i) == (i < q && values[i]));
        }
        assert(at_most(bits_of_bytes(packed), q) =~= values);
    }
}

/// A register written with a write-single-register request is stored at its
/// address, the server echoes the request, and a read of that one register
/// then gives the value back.
pub proof fn lemma_register_set_then_read(
    b: BankModel,
    write: ModbusRequest,
    read: ModbusRequest,
    slave_id: u8,
    address: u16,
    value: u16,
)
    requires
        request_is(
            write,
            slave_id,
            ModbusFunction::WriteSingleRegister,
            address,
            1,
            bytes_of_words(seq![value]),
        ),
        request_is(read, slave_id, ModbusFunction::ReadHoldingRegisters, address, 1, Seq::empty()),
    ensures
        bank_after(0x06, request_fields(write), b) == (BankModel {
            holding_registers: b.holding_registers.insert(address, value),
            ..b
        }),
        forall|o: Result<Seq<u8>, crate::error::ModbusError>|
            #[trigger] handled(0x06, request_fields(write), b, o) ==> o == Ok::<
                Seq<u8>,
                crate::error::ModbusError,
            >(request_fields(write)),
        forall|o: Result<Seq<u8>, crate::error::ModbusError>|
            #[trigger] handled(
                0x03,
                request_fields(read),
                bank_after(0x06, request_fields(write), b),
                o,
            ) ==> (o matches Ok(reply) && reply.len() >= 1 && reply.len() >= 1 + reply[0]
                && reply[0] % 2 == 0 && words_of_bytes(counted_payload(reply)) == seq![value]),
{
    let wf = request_fields(write);
    let rf = request_fields(read);
    assert(frame_word(wf, 0) == address);
    assert(frame_word(wf, 2) == value);
    let after = bank_after(0x06, wf, b);
    assert(frame_word(rf, 0) == address);
    assert(frame_word(rf, 2) == 1);
    let words = read_words(after.holding_registers, address, 1);
    assert(crate::register_bank::wrap_addr(address, 0) == address);
    assert(words =~= seq![value]);
    let reply = seq![2u8] + bytes_of_words(words);
    assert(counted_payload(reply) =~= bytes_of_words(words));
    lemma_registers_bytes_roundtrip(words);
}

/// A coil written with a write-single-coil request carrying `FF 00` (on) or
/// `00 00` (off) is stored at its address, the server echoes the request, and
/// a read of that one coil then gives the value back.
pub proof fn lemma_coil_set_then_read(
    b: BankModel,
    write: ModbusRequest,
    read: ModbusRequest,
    slave_id: u8,
    address: u16,
    value: bool,
)
    requires
        request_is(
            write,
            slave_id,
            ModbusFunction::WriteSingleCoil,
            address,
            1,
            if value {
                seq![0xFFu8, 0x00u8]
            } else {
                seq![0x00u8, 0x00u8]
            },
        ),
        request_is(read, slave_id, ModbusFunction::ReadCoils, address, 1, Seq::empty()),
    ensures
        bank_after(0x05, request_fields(write), b) == (BankModel {
            coils: b.coils.insert(address, value),
            ..b
        }),
        forall|o: Result<Seq<u8>, crate::error::ModbusError>|
            #[trigger] handled(0x05, request_fields(write), b, o) ==> o == Ok::<
                Seq<u8>,
                crate::error::ModbusError,
            >(request_fields(write)),
        forall|o: Result<Seq<u8>, crate::error::ModbusError>|
            #[trigger] handled(
                0x01,
                request_fields(read),
                bank_after(0x05, request_fields(write), b),
                o,
            ) ==> (o matches Ok(reply) && reply.len() >= 1 && reply.len() >= 1 + reply[0]
                && at_most(bits_of_bytes(counted_payload(reply)), 1) == seq![value]),
{
    let wf = request_fields(write);
    let rf = request_fields(read);
    assert(frame_word(wf, 0) == address);
    assert(frame_word(wf, 2) == if value { 0xFF00u16 } else { 0u16 });
    let after = bank_after(0x05, wf, b);
    assert(frame_word(rf, 0) == address);
    assert(frame_word(rf, 2) == 1);
    assert(crate::register_bank::wrap_addr(address, 0) == address);
    let bits = read_bits(after.coils, address, 1);
    assert(bits =~= seq![value]);
    assert forall|o: Result<Seq<u8>, crate::error::ModbusError>|
        #[trigger] handled(0x01, rf, after, o) implies (o matches Ok(reply) && reply.len() >= 1
            && reply.len() >= 1 + reply[0] && at_most(bits_of_bytes(counted_payload(reply)), 1)
            == seq![value]) by {
        let reply = o->Ok_0;
        let packed = reply.drop_first();
        assert(packs_bits(packed, bits));
        assert(counted_payload(reply) =~= packed);
        assert(bit_of_index(packed, 0) == value);
        assert(at_most(bits_of_bytes(packed), 1) =~= seq![value]);
    }
}

/// Bit `i` of some bytes, eight per byte, least significant bit first.
spec fn bit_of_index(bytes: Seq<u8>, i: int) -> bool {
    crate::protocol::bit_of(bytes[i / 8], i % 8)
}

/// What the four read functions answer, each from its own table: for a
/// request payload with address `a` and quantity `q` in range, read coils
/// (0x01) and read discrete inputs (0x02) answer the byte count and the `q`
/// bits from `a` on of the coils and of the discrete inputs, packed eight per
/// byte; read holding registers (0x03) and read input registers (0x04) answer
/// `2q` and the `q` values from `a` on of the holding and of the input
/// registers, high byte first.
pub proof fn lemma_read_replies(b: BankModel, data: Seq<u8>)
    requires
        data.len() >= 4,
    ensures
        ({
            let a = frame_word(data, 0);
            let q = frame_word(data, 2);
            &&& 1 <= q <= 2000 ==> forall|o: Result<Seq<u8>, crate::error::ModbusError>|
                #[trigger] handled(0x01, data, b, o) ==> (o matches Ok(reply) && reply.len() >= 1
                    && reply[0] == ((q + 7) / 8) as u8 && packs_bits(
                    reply.drop_first(),
                    read_bits(b.coils, a, q as nat),
                ))
            &&& 1 <= q <= 2000 ==> forall|o: Result<Seq<u8>, crate::error::ModbusError>|
                #[trigger] handled(0x02, data, b, o) ==> (o matches Ok(reply) && reply.len() >= 1
                    && reply[0] == ((q + 7) / 8) as u8 && packs_bits(
                    reply.drop_first(),
                    read_bits(b.discrete_inputs, a, q as nat),
                ))
            &&& 1 <= q <= 125 ==> forall|o: Result<Seq<u8>, crate::error::ModbusError>|
                #[trigger] handled(0x03, data, b, o) ==> o == Ok::<
                    Seq<u8>,
                    crate::error::ModbusError,
                >(seq![(2 * q) as u8] + bytes_of_words(read_words(b.holding_registers, a, q as nat)))
            &&& 1 <= q <= 125 ==> forall|o: Result<Seq<u8>, crate::error::ModbusError>|
                #[trigger] handled(0x04, data, b, o) ==> o == Ok::<
                    Seq<u8>,
                    crate::error::ModbusError,
                >(seq![(2 * q) as u8] + bytes_of_words(read_words(b.input_registers, a, q as nat)))
        }),
{
}

/// An input register set to a value is read back as that value by a
/// read-input-registers request for its address.
pub proof fn lemma_input_register_set_then_read(
    b: BankModel,
    read: ModbusRequest,
    slave_id: u8,
    address: u16,
    value: u16,
)
    requires
        request_is(read, slave_id, ModbusFunction::ReadInputRegisters, address, 1, Seq::empty()),
    ensures
        forall|o: Result<Seq<u8>, crate::error::ModbusError>|
            #[trigger] handled(
                0x04,
                request_fields(read),
                bank_after_write(b, BankWrite::InputRegister(address, value)),
                o,
            ) ==> (o matches Ok(reply) && reply.len() >= 1 && reply.len() >= 1 + reply[0]
                && reply[0] % 2 == 0 && words_of_bytes(counted_payload(reply)) == seq![value]),
{
    let rf = request_fields(read);
    let after = bank_after_write(b, BankWrite::InputRegister(address, value));
    assert(frame_word(rf, 0) == address);
    assert(frame_word(rf, 2) == 1);
    assert(crate::register_bank::wrap_addr(address, 0) == address);
    let words = read_words(after.input_registers, address, 1);
    assert(words =~= seq![value]);
    let reply = seq![2u8] + bytes_of_words(words);
    assert(counted_payload(reply) =~= bytes_of_words(words));
    lemma_registers_bytes_roundtrip(words);
    lemma_read_replies(after, rf);
}

/// A discrete input set to a value is read back as that value by a
/// read-discrete-inputs request for its address.
pub proof fn lemma_discrete_input_set_then_read(
    b: BankModel,
    read: ModbusRequest,
    slave_id: u8,
    address: u16,
    value: bool,
)
    requires
        request_is(read, slave_id, ModbusFunction::ReadDiscreteInputs, address, 1, Seq::empty()),
    ensures
        forall|o: Result<Seq<u8>, crate::error::ModbusError>|
            #[trigger] handled(
                0x02,
                request_fields(read),
                bank_after_write(b, BankWrite::DiscreteInput(address, value)),
                o,
            ) ==> (o matches Ok(reply) && reply.len() >= 1 && reply.len() >= 1 + reply[0]
                && at_most(bits_of_bytes(counted_payload(reply)), 1) == seq![value]),
{
    let rf = request_fields(read);
    let after = bank_after_write(b, BankWrite::DiscreteInput(address, value));
    assert(frame_word(rf, 0) == address);
    assert(frame_word(rf, 2) == 1);
    assert(crate::register_bank::wrap_addr(address, 0) == address);
    let bits = read_bits(after.discrete_inputs, address, 1);
    assert(bits =~= seq![value]);
    lemma_read_replies(after, rf);
    assert forall|o: Result<Seq<u8>, crate::error::ModbusError>|
        #[trigger] handled(0x02, rf, after, o) implies (o matches Ok(reply) && reply.len() >= 1
            && reply.len() >= 1 + reply[0] && at_most(bits_of_bytes(counted_payload(reply)), 1)
            == seq![value]) by {
        let reply = o->Ok_0;
        let packed = reply.drop_first();
        assert(packs_bits(packed, bits));
        assert(counted_payload(reply) =~= packed);
        assert(bit_of_index(packed, 0) == value);
        assert(at_most(bits_of_bytes(packed), 1) =~= seq![value]);
    }
}

} // verus!
