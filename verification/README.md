# skunk_bat

skunkBat is the reconnaissance and automated-defense primal of the
ecoPrimals ecosystem: it watches for threats to what its owner runs and
responds to them (quarantine, alerts), and it keeps an audit trail of what
it saw and did.

## Layout

- `src/` — the verified library. Every function carries a Verus contract:
  the audit trail and its queries, the quarantine registry (with its
  snapshot and restore) and defense decisions, the advisory verdict, gossip-entry screening, the security
  counters, the capability registry, topology validation, configuration
  drift, the rolling baseline window, health and lifecycle state, the
  parsing of environment values and of the kernel's accounting text, the
  resolution of capability endpoints, and the cursor discipline of the
  forwarding and federation loops.
- `tests/` — tests of the library on concrete values.
- `app/` — the process around the library: environment and file reads
  (including the saved quarantine registry),
  JSON-RPC over sockets, background loops, the binary RPC service, wire
  formats, and the floating-point statistics of behavioral detection.

## Notes

- The BTSP handshake is never switched on: `CapabilityClient` starts with it
  disabled (`with_btsp` can enable it, but nothing here decides to), so every
  call dials plainly. The handshake client it would use is not part of this
  project.
- Environment variables and the process identifier are read in `app/`; the
  library's constructors take those values as arguments (for example the
  request timeout, or the process identifier that `new_instance_id` hashes).
