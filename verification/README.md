# stremio_shell

The decision logic of the Stremio desktop shell for Windows, verified with Verus.

- `src/` is the library. What the shell opens, plays, shows and answers is decided here, by
  functions from plain values and states to plain values and next states. Each states its result
  in `ensures`; the functions named `law_..` state what holds across them. `src/outside.rs` holds
  every call that leaves verified code, and what is believed of it.
- `app/` performs what the library decides: the threads, the player, Discord, the display, the
  registry and the processes. The window toolkit, the wire format, the local server and the updater
  come in through traits.
- `tests/` runs the library on concrete values.
