//! Storage of a server's data: coils, discrete inputs, holding registers and
//! input registers, each a map from a 16-bit address to a value; addresses
//! that were never written read as `false` or 0.

use vstd::prelude::*;
use std::collections::HashMap;
use crate::error::{ModbusError, ModbusResult};

verus! {

broadcast use vstd::std_specs::hash::group_hash_axioms;

/// The address `i` places after `address`, wrapping around at 65536.
pub open spec fn wrap_addr(address: u16, i: int) -> u16 {
    ((address as int + i) % 65536) as u16
}

/// The bit stored at an address (`false` where nothing was stored).
pub open spec fn bit_at(m: Map<u16, bool>, a: u16) -> bool {
    if m.contains_key(a) {
        m[a]
    } else {
        false
    }
}

/// The word stored at an address (0 where nothing was stored).
pub open spec fn word_at(m: Map<u16, u16>, a: u16) -> u16 {
    if m.contains_key(a) {
        m[a]
    } else {
        0
    }
}

/// `quantity` consecutive bits starting at `address`.
pub open spec fn read_bits(m: Map<u16, bool>, address: u16, quantity: nat) -> Seq<bool> {
    Seq::new(quantity, |i: int| bit_at(m, wrap_addr(address, i)))
}

/// `quantity` consecutive words starting at `address`.
pub open spec fn read_words(m: Map<u16, u16>, address: u16, quantity: nat) -> Seq<u16> {
    Seq::new(quantity, |i: int| word_at(m, wrap_addr(address, i)))
}

/// The map after storing `values` one after another from `address` on.
pub open spec fn write_bits(m: Map<u16, bool>, address: u16, values: Seq<bool>) -> Map<u16, bool>
    decreases values.len(),
{
    if values.len() == 0 {
        m
    } else {
        write_bits(m, address, values.drop_last()).insert(
            wrap_addr(address, values.len() - 1),
            values.last(),
        )
    }
}

/// The map after storing `values` one after another from `address` on.
pub open spec fn write_words(m: Map<u16, u16>, address: u16, values: Seq<u16>) -> Map<u16, u16>
    decreases values.len(),
{
    if values.len() == 0 {
        m
    } else {
        write_words(m, address, values.drop_last()).insert(
            wrap_addr(address, values.len() - 1),
            values.last(),
        )
    }
}

/// Storing at most 65536 bits changes exactly the addresses written:
/// each holds its value, and every other address keeps its old content.
pub proof fn lemma_write_bits(m: Map<u16, bool>, address: u16, values: Seq<bool>, a: u16)
    requires
        values.len() <= 65536,
    ensures
        forall|i: int|
            0 <= i < values.len() ==> bit_at(write_bits(m, address, values), #[trigger] wrap_addr(
                address,
                i,
            )) == values[i],
        (forall|i: int| 0 <= i < values.len() ==> wrap_addr(address, i) != a) ==> bit_at(
            write_bits(m, address, values),
            a,
        ) == bit_at(m, a),
    decreases values.len(),
{
    if values.len() > 0 {
        let prev = values.drop_last();
        lemma_write_bits(m, address, prev, a);
        let n = values.len() - 1;
        assert forall|i: int| 0 <= i < values.len() implies bit_at(
            write_bits(m, address, values),
            #[trigger] wrap_addr(address, i),
        ) == values[i] by {
            if i < n {
                assert(wrap_addr(address, i) != wrap_addr(address, n));
                lemma_write_bits(m, address, prev, wrap_addr(address, i));
                assert(prev[i] == values[i]);
            }
        }
        if forall|i: int| 0 <= i < values.len() ==> wrap_addr(address, i) != a {
            assert(wrap_addr(address, n) != a);
            assert forall|i: int| 0 <= i < prev.len() implies wrap_addr(address, i) != a by {
                assert(wrap_addr(address, i) != a);
            }
        }
    }
}

/// Storing at most 65536 words changes exactly the addresses written:
/// each holds its value, and every other address keeps its old content.
pub proof fn lemma_write_words(m: Map<u16, u16>, address: u16, values: Seq<u16>, a: u16)
    requires
        values.len() <= 65536,
    ensures
        forall|i: int|
            0 <= i < values.len() ==> word_at(write_words(m, address, values), #[trigger] wrap_addr(
                address,
                i,
            )) == values[i],
        (forall|i: int| 0 <= i < values.len() ==> wrap_addr(address, i) != a) ==> word_at(
            write_words(m, address, values),
            a,
        ) == word_at(m, a),
    decreases values.len(),
{
    if values.len() > 0 {
        let prev = values.drop_last();
        lemma_write_words(m, address, prev, a);
        let n = values.len() - 1;
        assert forall|i: int| 0 <= i < values.len() implies word_at(
            write_words(m, address, values),
            #[trigger] wrap_addr(address, i),
        ) == values[i] by {
            if i < n {
                assert(wrap_addr(address, i) != wrap_addr(address, n));
                lemma_write_words(m, address, prev, wrap_addr(address, i));
                assert(prev[i] == values[i]);
            }
        }
        if forall|i: int| 0 <= i < values.len() ==> wrap_addr(address, i) != a {
            assert(wrap_addr(address, n) != a);
            assert forall|i: int| 0 <= i < prev.len() implies wrap_addr(address, i) != a by {
                assert(wrap_addr(address, i) != a);
            }
        }
    }
}

/// The addresses that a write of `n` consecutive values from `address` on
/// touches.
pub open spec fn written_addresses(address: u16, n: nat) -> Set<u16> {
    Set::new(|a: u16| exists|i: int| 0 <= i < n && wrap_addr(address, i) == a)
}

proof fn lemma_written_addresses_step(address: u16, n: nat)
    requires
        n > 0,
    ensures
        written_addresses(address, n) == written_addresses(address, (n - 1) as nat).insert(
            wrap_addr(address, n - 1),
        ),
{
    let w = written_addresses(address, n);
    let v = written_addresses(address, (n - 1) as nat).insert(wrap_addr(address, n - 1));
    assert forall|a: u16| w.contains(a) implies v.contains(a) by {
        let i = choose|i: int| 0 <= i < n && wrap_addr(address, i) == a;
        if i < n - 1 {
            assert(written_addresses(address, (n - 1) as nat).contains(a));
        }
    }
    assert forall|a: u16| v.contains(a) implies w.contains(a) by {
        if a == wrap_addr(address, n - 1) {
            assert(0 <= n - 1 < n && wrap_addr(address, n - 1) == a);
        } else {
            let i = choose|i: int| 0 <= i < n - 1 && wrap_addr(address, i) == a;
            assert(0 <= i < n && wrap_addr(address, i) == a);
        }
    }
    assert(w =~= v);
}

/// After a write of consecutive bits, the addresses that hold a value are
/// those that held one before and those written.
pub proof fn lemma_write_bits_stored(m: Map<u16, bool>, address: u16, values: Seq<bool>)
    ensures
        write_bits(m, address, values).dom() == m.dom().union(
            written_addresses(address, values.len()),
        ),
    decreases values.len(),
{
    if values.len() == 0 {
        assert(written_addresses(address, 0) =~= Set::<u16>::empty());
        assert(m.dom().union(written_addresses(address, 0)) =~= m.dom());
    } else {
        lemma_write_bits_stored(m, address, values.drop_last());
        lemma_written_addresses_step(address, values.len());
        assert(write_bits(m, address, values).dom() =~= m.dom().union(
            written_addresses(address, values.len()),
        ));
    }
}

/// After a write of consecutive words, the addresses that hold a value are
/// those that held one before and those written.
pub proof fn lemma_write_words_stored(m: Map<u16, u16>, address: u16, values: Seq<u16>)
    ensures
        write_words(m, address, values).dom() == m.dom().union(
            written_addresses(address, values.len()),
        ),
    decreases values.len(),
{
    if values.len() == 0 {
        assert(written_addresses(address, 0) =~= Set::<u16>::empty());
        assert(m.dom().union(written_addresses(address, 0)) =~= m.dom());
    } else {
        lemma_write_words_stored(m, address, values.drop_last());
        lemma_written_addresses_step(address, values.len());
        assert(write_words(m, address, values).dom() =~= m.dom().union(
            written_addresses(address, values.len()),
        ));
    }
}

/// Storing one value adds one to the number of addresses that hold a value
/// when the address held none, and nothing otherwise.
pub proof fn lemma_stored_count_after_insert<V>(m: Map<u16, V>, a: u16, v: V)
    requires
        m.dom().finite(),
    ensures
        m.insert(a, v).len() == m.len() + if m.dom().contains(a) {
            0int
        } else {
            1int
        },
{
    if m.dom().contains(a) {
        assert(m.insert(a, v).dom() =~= m.dom());
    } else {
        assert(m.insert(a, v).dom() =~= m.dom().insert(a));
    }
}

/// A read of consecutive bits right after a write of them gives back what was
/// written, when at most 65536 bits are written.
pub proof fn lemma_read_after_write_bits(m: Map<u16, bool>, address: u16, values: Seq<bool>)
    requires
        values.len() <= 65536,
    ensures
        read_bits(write_bits(m, address, values), address, values.len()) == values,
{
    lemma_write_bits(m, address, values, address);
    assert(read_bits(write_bits(m, address, values), address, values.len()) =~= values);
}

/// A read of consecutive words right after a write of them gives back what was
/// written, when at most 65536 words are written.
pub proof fn lemma_read_after_write_words(m: Map<u16, u16>, address: u16, values: Seq<u16>)
    requires
        values.len() <= 65536,
    ensures
        read_words(write_words(m, address, values), address, values.len()) == values,
{
    lemma_write_words(m, address, values, address);
    assert(read_words(write_words(m, address, values), address, values.len()) =~= values);
}

fn next_addr(address: u16, i: usize) -> (a: u16)
    ensures
        a == wrap_addr(address, i as int),
{
    ((address as usize + i % 65536) % 65536) as u16
}

fn read_bit_map(m: &HashMap<u16, bool>, address: u16, quantity: u16) -> (r: Vec<bool>)
    ensures
        r@ == read_bits(m@, address, quantity as nat),
{
    let mut result: Vec<bool> = Vec::with_capacity(quantity as usize);
    let mut i: u16 = 0;
    while i < quantity
        invariant
            i <= quantity,
            result@ == read_bits(m@, address, quantity as nat).take(i as int),
        decreases quantity - i,
    {
        let addr = next_addr(address, i as usize);
        let v = match m.get(&addr) {
            Some(b) => *b,
            None => false,
        };
        result.push(v);
        i = i + 1;
        assert(result@ =~= read_bits(m@, address, quantity as nat).take(i as int));
    }
    assert(result@ =~= read_bits(m@, address, quantity as nat));
    result
}

fn read_word_map(m: &HashMap<u16, u16>, address: u16, quantity: u16) -> (r: Vec<u16>)
    ensures
        r@ == read_words(m@, address, quantity as nat),
{
    let mut result: Vec<u16> = Vec::with_capacity(quantity as usize);
    let mut i: u16 = 0;
    while i < quantity
        invariant
            i <= quantity,
            result@ == read_words(m@, address, quantity as nat).take(i as int),
        decreases quantity - i,
    {
        let addr = next_addr(address, i as usize);
        let v = match m.get(&addr) {
            Some(w) => *w,
            None => 0,
        };
        result.push(v);
        i = i + 1;
        assert(result@ =~= read_words(m@, address, quantity as nat).take(i as int));
    }
    assert(result@ =~= read_words(m@, address, quantity as nat));
    result
}

fn write_bit_map(m: &mut HashMap<u16, bool>, address: u16, values: &[bool])
    ensures
        final(m)@ == write_bits(old(m)@, address, values@),
{
    let mut i: usize = 0;
    while i < values.len()
        invariant
            i <= values@.len(),
            m@ == write_bits(old(m)@, address, values@.take(i as int)),
        decreases values.len() - i,
    {
        let addr = next_addr(address, i);
        m.insert(addr, values[i]);
        i = i + 1;
        assert(values@.take(i as int).drop_last() =~= values@.take(i - 1));
    }
    assert(values@.take(values@.len() as int) =~= values@);
}

fn write_word_map(m: &mut HashMap<u16, u16>, address: u16, values: &[u16])
    ensures
        final(m)@ == write_words(old(m)@, address, values@),
{
    let mut i: usize = 0;
    while i < values.len()
        invariant
            i <= values@.len(),
            m@ == write_words(old(m)@, address, values@.take(i as int)),
        decreases values.len() - i,
    {
        let addr = next_addr(address, i);
        m.insert(addr, values[i]);
        i = i + 1;
        assert(values@.take(i as int).drop_last() =~= values@.take(i - 1));
    }
    assert(values@.take(values@.len() as int) =~= values@);
}

/// Coils, discrete inputs, holding registers and input registers of a server.
pub struct ModbusRegisterBank {
    coils: HashMap<u16, bool>,
    discrete_inputs: HashMap<u16, bool>,
    holding_registers: HashMap<u16, u16>,
    input_registers: HashMap<u16, u16>,
}

/// Number of addresses that hold a value in each of the four tables.
#[derive(Debug, Clone)]
pub struct RegisterBankStats {
    pub coils_count: usize,
    pub discrete_inputs_count: usize,
    pub holding_registers_count: usize,
    pub input_registers_count: usize,
}

/// The contents of a register bank, as maps from address to value.
pub struct BankModel {
    pub coils: Map<u16, bool>,
    pub discrete_inputs: Map<u16, bool>,
    pub holding_registers: Map<u16, u16>,
    pub input_registers: Map<u16, u16>,
}

/// A write to a register bank, as a value of specifications: one coil, coils
/// from an address on, one discrete input, one holding register, holding
/// registers from an address on, one input register.
pub enum BankWrite {
    Coil(u16, bool),
    Coils(u16, Seq<bool>),
    DiscreteInput(u16, bool),
    Register(u16, u16),
    Registers(u16, Seq<u16>),
    InputRegister(u16, u16),
}

/// One of the four tables of a register bank.
pub enum BankTable {
    Coils,
    DiscreteInputs,
    HoldingRegisters,
    InputRegisters,
}

/// The bank contents after a write.
pub open spec fn bank_after_write(b: BankModel, w: BankWrite) -> BankModel {
    match w {
        BankWrite::Coil(a, v) => BankModel { coils: b.coils.insert(a, v), ..b },
        BankWrite::Coils(a, vs) => BankModel { coils: write_bits(b.coils, a, vs), ..b },
        BankWrite::DiscreteInput(a, v) => BankModel {
            discrete_inputs: b.discrete_inputs.insert(a, v),
            ..b
        },
        BankWrite::Register(a, v) => BankModel {
            holding_registers: b.holding_registers.insert(a, v),
            ..b
        },
        BankWrite::Registers(a, vs) => BankModel {
            holding_registers: write_words(b.holding_registers, a, vs),
            ..b
        },
        BankWrite::InputRegister(a, v) => BankModel {
            input_registers: b.input_registers.insert(a, v),
            ..b
        },
    }
}

/// The bank contents after writes, in order.
pub open spec fn bank_after_writes(b: BankModel, ws: Seq<BankWrite>) -> BankModel
    decreases ws.len(),
{
    if ws.len() == 0 {
        b
    } else {
        bank_after_write(bank_after_writes(b, ws.drop_last()), ws.last())
    }
}

/// The addresses that hold a value in a table.
pub open spec fn stored_addresses(b: BankModel, t: BankTable) -> Set<u16> {
    match t {
        BankTable::Coils => b.coils.dom(),
        BankTable::DiscreteInputs => b.discrete_inputs.dom(),
        BankTable::HoldingRegisters => b.holding_registers.dom(),
        BankTable::InputRegisters => b.input_registers.dom(),
    }
}

/// The addresses of a table that a write stores a value at.
pub open spec fn write_targets(w: BankWrite, t: BankTable) -> Set<u16> {
    match (w, t) {
        (BankWrite::Coil(a, _), BankTable::Coils) => set![a],
        (BankWrite::Coils(a, vs), BankTable::Coils) => written_addresses(a, vs.len()),
        (BankWrite::DiscreteInput(a, _), BankTable::DiscreteInputs) => set![a],
        (BankWrite::Register(a, _), BankTable::HoldingRegisters) => set![a],
        (BankWrite::Registers(a, vs), BankTable::HoldingRegisters) => written_addresses(a, vs.len()),
        (BankWrite::InputRegister(a, _), BankTable::InputRegisters) => set![a],
        _ => Set::empty(),
    }
}

/// The addresses of a table that some writes store values at.
pub open spec fn addresses_written(ws: Seq<BankWrite>, t: BankTable) -> Set<u16>
    decreases ws.len(),
{
    if ws.len() == 0 {
        Set::empty()
    } else {
        addresses_written(ws.drop_last(), t).union(write_targets(ws.last(), t))
    }
}

/// A bank in which nothing is stored.
pub open spec fn empty_bank() -> BankModel {
    BankModel {
        coils: Map::empty(),
        discrete_inputs: Map::empty(),
        holding_registers: Map::empty(),
        input_registers: Map::empty(),
    }
}

/// After any writes, the addresses that hold a value in a table are those
/// that held one before and those the writes stored at; starting from an
/// empty bank, they are exactly the addresses written, which `get_stats`
/// counts. Reads do not change a bank.
pub proof fn lemma_bank_history(b: BankModel, ws: Seq<BankWrite>, t: BankTable)
    ensures
        stored_addresses(bank_after_writes(b, ws), t) == stored_addresses(b, t).union(
            addresses_written(ws, t),
        ),
        stored_addresses(bank_after_writes(empty_bank(), ws), t) == addresses_written(ws, t),
    decreases ws.len(),
{
    if ws.len() == 0 {
        assert(stored_addresses(b, t).union(Set::empty()) =~= stored_addresses(b, t));
        assert(stored_addresses(empty_bank(), t) =~= Set::<u16>::empty());
    } else {
        lemma_bank_history(b, ws.drop_last(), t);
        let before = bank_after_writes(b, ws.drop_last());
        let w = ws.last();
        lemma_write_stored(before, w, t);
        assert(stored_addresses(bank_after_writes(b, ws), t) =~= stored_addresses(b, t).union(
            addresses_written(ws, t),
        ));
        let before0 = bank_after_writes(empty_bank(), ws.drop_last());
        lemma_write_stored(before0, w, t);
        assert(stored_addresses(bank_after_writes(empty_bank(), ws), t) =~= addresses_written(
            ws,
            t,
        ));
    }
}

proof fn lemma_write_stored(b: BankModel, w: BankWrite, t: BankTable)
    ensures
        stored_addresses(bank_after_write(b, w), t) == stored_addresses(b, t).union(
            write_targets(w, t),
        ),
{
    match w {
        BankWrite::Coils(a, vs) => {
            lemma_write_bits_stored(b.coils, a, vs);
        },
        BankWrite::Registers(a, vs) => {
            lemma_write_words_stored(b.holding_registers, a, vs);
        },
        _ => {},
    }
    assert(stored_addresses(bank_after_write(b, w), t) =~= stored_addresses(b, t).union(
        write_targets(w, t),
    ));
}

impl ModbusRegisterBank {
    /// The contents of the bank.
    pub open spec fn model(&self) -> BankModel {
        BankModel {
            coils: self.coils(),
            discrete_inputs: self.discrete_inputs(),
            holding_registers: self.holding_registers(),
            input_registers: self.input_registers(),
        }
    }

    /// The stored coils.
    pub closed spec fn coils(&self) -> Map<u16, bool> {
        self.coils@
    }

    /// The stored discrete inputs.
    pub closed spec fn discrete_inputs(&self) -> Map<u16, bool> {
        self.discrete_inputs@
    }

    /// The stored holding registers.
    pub closed spec fn holding_registers(&self) -> Map<u16, u16> {
        self.holding_registers@
    }

    /// The stored input registers.
    pub closed spec fn input_registers(&self) -> Map<u16, u16> {
        self.input_registers@
    }

    /// A bank in which nothing is stored.
    pub fn new() -> (r: Self)
        ensures
            r.model() == empty_bank(),
            r.coils() == Map::<u16, bool>::empty(),
            r.discrete_inputs() == Map::<u16, bool>::empty(),
            r.holding_registers() == Map::<u16, u16>::empty(),
            r.input_registers() == Map::<u16, u16>::empty(),
    {
        ModbusRegisterBank {
            coils: HashMap::new(),
            discrete_inputs: HashMap::new(),
            holding_registers: HashMap::new(),
            input_registers: HashMap::new(),
        }
    }

    /// Reads `quantity` coils from `address` on (function 0x01).
    pub fn read_coils(&self, address: u16, quantity: u16) -> (r: ModbusResult<Vec<bool>>)
        ensures
            r matches Ok(v) && v@ == read_bits(self.coils(), address, quantity as nat),
    {
        Ok(read_bit_map(&self.coils, address, quantity))
    }

    /// Same as `read_coils`.
    pub fn read_01(&self, address: u16, quantity: u16) -> (r: ModbusResult<Vec<bool>>)
        ensures
            r matches Ok(v) && v@ == read_bits(self.coils(), address, quantity as nat),
    {
        self.read_coils(address, quantity)
    }

    /// Writes one coil (function 0x05).
    pub fn write_05(&mut self, address: u16, value: bool) -> (r: ModbusResult<()>)
        ensures
            final(self).model() == bank_after_write(old(self).model(), BankWrite::Coil(address, value)),
            r is Ok,
            final(self).coils() == old(self).coils().insert(address, value),
            final(self).discrete_inputs() == old(self).discrete_inputs(),
            final(self).holding_registers() == old(self).holding_registers(),
            final(self).input_registers() == old(self).input_registers(),
    {
        self.coils.insert(address, value);
        Ok(())
    }

    /// Writes consecutive coils from `address` on (function 0x0F).
    pub fn write_0f(&mut self, address: u16, values: &[bool]) -> (r: ModbusResult<()>)
        ensures
            final(self).model() == bank_after_write(old(self).model(), BankWrite::Coils(address, values@)),
            r is Ok,
            final(self).coils() == write_bits(old(self).coils(), address, values@),
            final(self).discrete_inputs() == old(self).discrete_inputs(),
            final(self).holding_registers() == old(self).holding_registers(),
            final(self).input_registers() == old(self).input_registers(),
    {
        write_bit_map(&mut self.coils, address, values);
        Ok(())
    }

    /// Reads `quantity` discrete inputs from `address` on (function 0x02).
    pub fn read_discrete_inputs(&self, address: u16, quantity: u16) -> (r: ModbusResult<Vec<bool>>)
        ensures
            r matches Ok(v) && v@ == read_bits(self.discrete_inputs(), address, quantity as nat),
    {
        Ok(read_bit_map(&self.discrete_inputs, address, quantity))
    }

    /// Same as `read_discrete_inputs`.
    pub fn read_02(&self, address: u16, quantity: u16) -> (r: ModbusResult<Vec<bool>>)
        ensures
            r matches Ok(v) && v@ == read_bits(self.discrete_inputs(), address, quantity as nat),
    {
        self.read_discrete_inputs(address, quantity)
    }

    /// Reads `quantity` holding registers from `address` on (function 0x03).
    pub fn read_holding_registers(&self, address: u16, quantity: u16) -> (r: ModbusResult<Vec<u16>>)
        ensures
            r matches Ok(v) && v@ == read_words(self.holding_registers(), address, quantity as nat),
    {
        Ok(read_word_map(&self.holding_registers, address, quantity))
    }

    /// Same as `read_holding_registers`.
    pub fn read_03(&self, address: u16, quantity: u16) -> (r: ModbusResult<Vec<u16>>)
        ensures
            r matches Ok(v) && v@ == read_words(self.holding_registers(), address, quantity as nat),
    {
        self.read_holding_registers(address, quantity)
    }

    /// Writes one holding register (function 0x06).
    pub fn write_06(&mut self, address: u16, value: u16) -> (r: ModbusResult<()>)
        ensures
            final(self).model() == bank_after_write(old(self).model(), BankWrite::Register(address, value)),
            r is Ok,
            final(self).holding_registers() == old(self).holding_registers().insert(address, value),
            final(self).coils() == old(self).coils(),
            final(self).discrete_inputs() == old(self).discrete_inputs(),
            final(self).input_registers() == old(self).input_registers(),
    {
        self.holding_registers.insert(address, value);
        Ok(())
    }

    /// Writes consecutive holding registers from `address` on (function 0x10).
    pub fn write_10(&mut self, address: u16, values: &[u16]) -> (r: ModbusResult<()>)
        ensures
            final(self).model() == bank_after_write(old(self).model(), BankWrite::Registers(address, values@)),
            r is Ok,
            final(self).holding_registers() == write_words(
                old(self).holding_registers(),
                address,
                values@,
            ),
            final(self).coils() == old(self).coils(),
            final(self).discrete_inputs() == old(self).discrete_inputs(),
            final(self).input_registers() == old(self).input_registers(),
    {
        write_word_map(&mut self.holding_registers, address, values);
        Ok(())
    }

    /// Same as `write_05`.
    pub fn write_single_coil(&mut self, address: u16, value: bool) -> (r: ModbusResult<()>)
        ensures
            final(self).model() == bank_after_write(old(self).model(), BankWrite::Coil(address, value)),
            r is Ok,
            final(self).coils() == old(self).coils().insert(address, value),
            final(self).discrete_inputs() == old(self).discrete_inputs(),
            final(self).holding_registers() == old(self).holding_registers(),
            final(self).input_registers() == old(self).input_registers(),
    {
        self.write_05(address, value)
    }

    /// Same as `write_06`.
    pub fn write_single_register(&mut self, address: u16, value: u16) -> (r: ModbusResult<()>)
        ensures
            final(self).model() == bank_after_write(old(self).model(), BankWrite::Register(address, value)),
            r is Ok,
            final(self).holding_registers() == old(self).holding_registers().insert(address, value),
            final(self).coils() == old(self).coils(),
            final(self).discrete_inputs() == old(self).discrete_inputs(),
            final(self).input_registers() == old(self).input_registers(),
    {
        self.write_06(address, value)
    }

    /// Same as `write_0f`.
    pub fn write_multiple_coils(&mut self, address: u16, values: &[bool]) -> (r: ModbusResult<()>)
        ensures
            final(self).model() == bank_after_write(old(self).model(), BankWrite::Coils(address, values@)),
            r is Ok,
            final(self).coils() == write_bits(old(self).coils(), address, values@),
            final(self).discrete_inputs() == old(self).discrete_inputs(),
            final(self).holding_registers() == old(self).holding_registers(),
            final(self).input_registers() == old(self).input_registers(),
    {
        self.write_0f(address, values)
    }

    /// Same as `write_10`.
    pub fn write_multiple_registers(&mut self, address: u16, values: &[u16]) -> (r: ModbusResult<()>)
        ensures
            final(self).model() == bank_after_write(old(self).model(), BankWrite::Registers(address, values@)),
            r is Ok,
            final(self).holding_registers() == write_words(
                old(self).holding_registers(),
                address,
                values@,
            ),
            final(self).coils() == old(self).coils(),
            final(self).discrete_inputs() == old(self).discrete_inputs(),
            final(self).input_registers() == old(self).input_registers(),
    {
        self.write_10(address, values)
    }

    /// Reads `quantity` input registers from `address` on (function 0x04).
    pub fn read_input_registers(&self, address: u16, quantity: u16) -> (r: ModbusResult<Vec<u16>>)
        ensures
            r matches Ok(v) && v@ == read_words(self.input_registers(), address, quantity as nat),
    {
        Ok(read_word_map(&self.input_registers, address, quantity))
    }

    /// Same as `read_input_registers`.
    pub fn read_04(&self, address: u16, quantity: u16) -> (r: ModbusResult<Vec<u16>>)
        ensures
            r matches Ok(v) && v@ == read_words(self.input_registers(), address, quantity as nat),
    {
        self.read_input_registers(address, quantity)
    }

    /// Sets an input register (for simulation and tests).
    pub fn set_input_register(&mut self, address: u16, value: u16) -> (r: ModbusResult<()>)
        ensures
            final(self).model() == bank_after_write(old(self).model(), BankWrite::InputRegister(address, value)),
            r is Ok,
            final(self).input_registers() == old(self).input_registers().insert(address, value),
            final(self).coils() == old(self).coils(),
            final(self).discrete_inputs() == old(self).discrete_inputs(),
            final(self).holding_registers() == old(self).holding_registers(),
    {
        self.input_registers.insert(address, value);
        Ok(())
    }

    /// Sets a discrete input (for simulation and tests).
    pub fn set_discrete_input(&mut self, address: u16, value: bool) -> (r: ModbusResult<()>)
        ensures
            final(self).model() == bank_after_write(old(self).model(), BankWrite::DiscreteInput(address, value)),
            r is Ok,
            final(self).discrete_inputs() == old(self).discrete_inputs().insert(address, value),
            final(self).coils() == old(self).coils(),
            final(self).holding_registers() == old(self).holding_registers(),
            final(self).input_registers() == old(self).input_registers(),
    {
        self.discrete_inputs.insert(address, value);
        Ok(())
    }

    /// The four tables of a bank hold finitely many addresses, so their
    /// counts are the numbers of addresses stored.
    pub proof fn lemma_tables_finite(&self)
        ensures
            self.coils().dom().finite(),
            self.discrete_inputs().dom().finite(),
            self.holding_registers().dom().finite(),
            self.input_registers().dom().finite(),
    {
    }

    /// How many addresses hold a value in each table.
    pub fn get_stats(&self) -> (s: RegisterBankStats)
        ensures
            s.coils_count == self.coils().len(),
            s.discrete_inputs_count == self.discrete_inputs().len(),
            s.holding_registers_count == self.holding_registers().len(),
            s.input_registers_count == self.input_registers().len(),
    {
        RegisterBankStats {
            coils_count: self.coils.len(),
            discrete_inputs_count: self.discrete_inputs.len(),
            holding_registers_count: self.holding_registers.len(),
            input_registers_count: self.input_registers.len(),
        }
    }
}

impl Default for ModbusRegisterBank {
    fn default() -> (r: Self)
        ensures
            r.coils() == Map::<u16, bool>::empty(),
            r.discrete_inputs() == Map::<u16, bool>::empty(),
            r.holding_registers() == Map::<u16, u16>::empty(),
            r.input_registers() == Map::<u16, u16>::empty(),
    {
        Self::new()
    }
}

} // verus!
