# astrid_capsule

The decisions of a host for sandboxed capsules, verified with Verus: which processes a capsule may
start and how they are kept track of, which sockets it may open and what goes over them, on whose
behalf it acts, and what it may see of its configuration.

- `src/` is the library. Every function in it carries a contract and is proved against it.
  - `process/`: starting children in the foreground, beside the capsule and beyond its life; their
    environment, files, signals, output and ids.
  - `net/`: quotas, binding, connecting, accepting, the handshake on the local socket, frames.
  - `host_state/`: what is in effect for whom, and how that changes with each message.
  - `sys.rs`, `uplink.rs`, `request_context.rs`: configuration, capabilities, randomness, uplinks.
  - `text.rs`, `names.rs`, `paths.rs`, `order.rs`, `numbers.rs`, `digits.rs`: the small vocabulary
    that the rest is written in.
- `app/` performs what the library decides: it starts programs, opens sockets and waits.
- `tests/` runs the library on concrete values.

A start, a connection or a handshake alternates questions to the outside with decisions. The library
takes the answers so far and says what to ask next, or how it ends; the program around it asks.

What is believed rather than proved is marked `#[verifier::external_body]`, `assume_specification`
or `external_type_specification`, each with a comment that says what is claimed and of what.
