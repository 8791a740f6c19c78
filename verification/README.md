# vas_crucible

The policy core of a sidecar that runs agent code in sandboxes, verified with Verus.

- `src/` — the verified library:
  - `jwt/` — intent tokens: the header algorithm against the configured key, then the
    time window, the hard 60-second TTL, the intent binding and the permissions.
  - `grpc/server.rs` — intent hashes of the four operations (SHA-256 of a payload that
    spells out the operation), the limits of a create request, and the authorisation
    steps of each request.
  - `sandbox/` — resource limits and the container settings derived from them, the
    registry of live sandboxes, the keyed tables the backends keep, the commands run
    per language, and the session log format.
  - `enforcer/` — the syscalls the eBPF enforcer intercepts.
  - `sidecar.rs` — defaults and the command line.
  - `text.rs` — decimal, boolean and hex rendering.
- `app/` — the program: gRPC plumbing (tonic/prost), token decoding with
  `jsonwebtoken`, the Docker (bollard) and local-process backends, session log files,
  the eBPF loader (aya), and `main`. It asks the library for every decision.
- `tests/` — tests of the library on concrete values.
