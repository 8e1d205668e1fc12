# spinneret

An orchestrator that runs untrusted WebAssembly components ("orbs") in
capability-restricted sandboxes, with the decisions it makes verified by Verus.

- `src/` — the verified library:
  - `env.rs`: `EnvVars`, the environment-variable map of a sandbox;
  - `config.rs`: `ExtrusionConfig`, its defaults, worktree mount and egress policy;
  - `egress.rs`: `SpinneretHttpHooks`, the exact-match allowlist for outgoing HTTP;
  - `hosted.rs`: how a local execution request becomes a sandbox configuration,
    and the messages it is answered with;
  - `execution.rs`: the course of one execution, from the orb search over the
    directories in order to the response, as a state machine;
  - `limits.rs`: the per-sandbox memory cap and the fuel accounting;
  - `daemon.rs`: the JSON-lines daemon protocol as a state machine;
  - `text.rs`: whitespace trimming and JSON string literals.
- `app/` — the executable: the wasmtime engine and stores, the filesystem
  lookups, and the stdin/stdout loop that performs the daemon's actions.
- `tests/` — tests of the library.
