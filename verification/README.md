# soroban_testkit

Testing infrastructure for Soroban contracts, written in Verus: the logic is
verified against its contracts, and the Soroban SDK is reached through small,
documented trusted wrappers.

Layout:

- `src/base` — the error type (`TestkitError`), decimal rendering used in
  failure messages, and `TestEnv`, which wraps a Soroban test environment.
- `src/ledger` — ledger-clock arithmetic (advancing by seconds, ledgers and
  calendar units, warping) and the `TestEnv` methods that apply it.
- `src/money` — adversarial amount generators and conservation checks.
- `src/tokens` — Stellar Asset Contract test doubles.
- `src/ttl` — storage-entry TTL inspection and expiry.
- `src/events` — capturing, filtering and asserting on contract events.
- `src/auth` — the caller/entry-point grid behind authorization matrices.
- `src/cli` — the decision logic of the command-line tool: coverage flags,
  the resource-ceiling search (a small state machine with its probe
  budget), reading a contract's spec out of its wasm, and argument
  planning.
- `app/` — the command-line tool itself and the harness helpers that catch
  panics or hold caller closures (`at`, `assert_requires_auth`,
  `assert_survives_expiry`, `AuthMatrix`).
