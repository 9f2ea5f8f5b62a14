# voltage_modbus

A Modbus TCP/RTU/ASCII library whose protocol logic is verified with Verus.

## Layout

- `src/` — the verified library.
  - `protocol.rs`, `protocol/data_utils.rs`: function and exception codes,
    requests and responses, register/byte/bit conversions.
  - `transport.rs`, `transport/{tcp,rtu,ascii}.rs`: request encoding and
    response decoding for the three framings, exchange counters, frame
    reading steps. RTU checksums come from the `crc` crate and are specified
    as CRC-16/MODBUS.
  - `register_bank.rs`: the four data tables of a server, modelled as maps.
  - `server.rs`: request handlers, TCP and RTU request processing, what a
    server answers and counts, and the assembly of RTU frames from a serial
    line.
  - `client.rs`, `client/utils.rs`: the requests of the client operations and
    the values read from their responses.
  - `exchange.rs`: laws of a whole exchange — a request encoded by the client
    side reaches the server intact, and what is written is read back.
  - `error.rs`, `logging.rs`, `utils/`, `text.rs`: errors and their texts, log
    messages, validation, formatting, performance counters.
- `tests/` — tests run against the compiled library.
- `app/` — the I/O around the library (tokio transports, clients, servers, the
  callback logger, floating-point conversions and the texts that round
  floating-point durations and rates); not verified.

## Verifying

Every function in `src/` carries a `requires`/`ensures` contract checked by
Verus; the only unverified items there are the thin wrappers around
`crc::Crc::checksum`, `hex::encode`, `String::push` and `std::time::Instant`.
