# egresskeeper-core

The core of EgressKeeper, a local egress proxy that decides, per connection,
whether a program on this machine may reach a host and port. The decisions,
the policy model and the storage format are written in Verus and proved
against their contracts; the shell that talks to SQLite, the file system and
the network is ordinary Rust.

## Layout

- `src/` — the verified library.
  - `host.rs`, `host_laws.rs` — host normalization and matching, with the
    proof that a normalized host normalizes to itself and that subdomain
    matching respects label boundaries and never matches the apex domain.
  - `port.rs`, `action.rs`, `entities.rs` — port restrictions, actions,
    profiles, rules and their identifiers.
  - `decision.rs`, `decision_laws.rs` — evaluation of a policy: rules apply
    in the order of their positions, the first rule that applies decides,
    the default action decides otherwise; the decision does not depend on
    the order in which rules were handed over.
  - `listener.rs`, `outcome.rs`, `proxy.rs` — listeners and the decisions of
    the proxy: a connection to the listener itself and a connection whose
    policy cannot be read are always refused.
  - `storage.rs` — rows of the database and the schema migrations; every
    entity reads back unchanged from the columns it is written to.
  - `policy_service.rs`, `listener_service.rs`, `settings.rs`, `runtime.rs`,
    `state_dir.rs`, `ports.rs` — the use-cases and the ports they call. Each
    port method states what an implementation owes about the value it
    returns; the use-cases are proved against those statements. They are
    assumptions, not proofs: the SQLite storage in `app/` and the stores of
    the tests are ordinary Rust that was written and read to meet them, and
    Verus does not check it.
  - `text.rs`, `error.rs`, `time.rs` — text helpers, errors and the clock.
- `tests/` — tests of the library, run against the real outside crates.
- `app/` — the shell: SQLite storage (`rusqlite`), the proxy runtime
  (`tokio`, `hyper`), the state directory on disk and the serializable IPC
  contract types (`serde`).
