# sonic_channel

A client core for the channel protocol of the sonic search backend, verified
with Verus.

- `src/mode.rs`: the channel modes and their protocol names.
- `src/command.rs`: the channel's commands, the method name each is known by
  and the mode each needs.
- `src/channel.rs`: the channel's state (mode, buffer size, protocol version),
  the greeting check on connect, the start handshake and the per-command mode
  gate, with the laws that tie them together.
- `src/exchange.rs`: the write-then-read-lines exchange with the server as a
  state machine that the I/O layer drives step by step.
- `src/error.rs`: the error kinds.
- `app/`: the TCP layer that performs the reads and writes the library asks
  for.
