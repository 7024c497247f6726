# paap_configurator

Configuration logic for the PAAP arcade pedal, which turns a foot switch into
a USB keyboard key, with its behaviour stated in contracts and proved.

## Layout

- `src/protocol.rs` — the line protocol (`HEL`/`LO`, `VER`, `KEY`, `KEY<key>`/`ACK`):
  command encoding, reply framing, reply parsing, and the laws that tie them
  together (a saved key reads back as itself, replies may arrive in pieces).
- `src/exchange.rs` — one command and its reply as a machine: the caller
  performs each port action and hands back what happened.
- `src/handshake.rs` — connecting: open, `HEL`, `VER`, `KEY`.
- `src/key_update.rs` — saving a new key: `KEY<key>`, then `ACK`.
- `src/connection.rs` — the connection state and its queries.
- `src/configurator.rs`, `src/config.rs`, `src/ports.rs`, `src/icon.rs` — the
  window's state and decisions, the stored preferences, the port list, the icon.
- `app/` — the program: the egui window, serial port I/O and the preferences
  file, driving the library's machines.
- `tests/` — tests on concrete values, including the example protocol session.
