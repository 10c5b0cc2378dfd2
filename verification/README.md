# dungeonctl

Controls the DG-LAB Coyote 3 over Bluetooth LE.

- `src/` is the protocol, verified with Verus: the bytes of commands and notifications, the state
  of the device as its notifications tell it, and the steps of a connection.
- `app/` talks to the Bluetooth stack through `btleplug` and performs what the library decides.
- `tests/` runs the library on concrete values.

The contracts speak of the exact bytes. Statements about more than one function are the proof
functions whose names start with `law_`; those about a connection as a whole are in
`src/connection.rs`. What is taken on trust of other crates is in `src/wire.rs` (reading and
writing single bytes with `binrw` and `arrayvec`) and in `src/characteristic.rs` (the text of a
UUID).
