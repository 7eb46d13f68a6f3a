# bitcomm

Datagram headers for the bitcomm messaging protocol, verified with Verus.

- `src/client.rs`: client identities (`ClientID`, its 64-bit global id, its
  hexadecimal form and its 128-bit device key), client kinds and planets,
  device connection records.
- `src/datagram.rs`: the flag words of the protocol, the message and command
  datagram headers, their C byte layouts (little-endian fields), the
  functions that stamp, recognise, read and write headers in byte buffers,
  and the in-place views (`MessageDataGramMut`, `CommandDataGramMut`) whose
  getters and setters read and write each field's bytes in the buffer,
  with the laws that tie them together (reading back what was written,
  stamping, fresh buffers).
- `src/layout.rs`: little-endian encoding of `u32`/`u64` fields, splicing
  of bytes into buffers, and the lemmas on how fields read back from them.
- `src/group.rs`: client groups.
- `app/lib.rs`: the same flag types built with `bitflags`, and an error type
  with `Display` and `std::error::Error`, each converting to and from the
  library's types.
