# ch347usbjtag

A verified driver core for the CH347 USB bus converter used as a JTAG debug probe.

- `src/protocol.rs`: device selection by USB identifiers, the command and clock-line
  encodings, the clock-speed tables and the probe's state, with their contracts.
- `src/probe.rs`: the probe as the debugger sees it, its factory and listing entries.
- `src/error.rs`: the errors that the probe's rules decide.
- `src/bits.rs`: the buffer of captured bits, held in a `bitvec` bit vector.
- `src/laws.rs`: properties that span functions, proved.
- `app/`: USB enumeration, opening and bulk transfers with `nusb`, the error types
  with their messages, and the flashing error, whose source errors are trait objects.
