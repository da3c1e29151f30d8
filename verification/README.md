# mirrorx_core

The core of a remote-desktop client: the messages between the two endpoints
of a session, the negotiation of desktop parameters, the choice of monitor
and Direct3D driver for screen capture, and the connection handshake that
verifies the remote device's password and exchanges session keys.

- `src/` is the library, verified with Verus: every public function states
  what it returns, and the laws that relate several functions are proof
  functions (`law_*`). Calls into `rsa`, `rand` and `ring` go through the
  trusted items of `src/crypto.rs`.
- `app/` holds the asynchronous handlers, the process-wide registries of
  channels, the network transport and the Direct3D calls; it hands every
  decision to the library.
- `tests/` exercises the library on concrete values.
