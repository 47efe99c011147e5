# lantern-runtime

The host side of a confined WebAssembly component runtime, verified with Verus.

A component's WIT imports are backed by capability records. Resource-scoped interfaces
(`keystore`, `filesystem`) hand out handles only for the slots a grant manifest filled; each
call on a handle is forwarded to the owning service with the handle's badge, and the service's
refusal comes back as the interface's `error-code` — every denial as `access`. Link-scoped
interfaces (`monotonic-clock`) are linked or left unlinked as a whole.

- `src/` — the verified library: the grant manifest and link plan, the per-component state
  and its resource table, error mapping, argument checks, IPC request sizing and reply
  checks, the custom-platform region bookkeeping, and the verify-then-deserialize loading
  order. `src/laws.rs` states the properties that span operations.
- `tests/` — tests of the library.
- `app/` — the WIT bindings and their host-trait impls, the linker and engine, the
  custom-platform C hooks, and the services reached through `lantern-crypto`,
  `lantern-filesystem` and `lantern-abi`.
