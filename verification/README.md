# infrix

Core types and the contract-authoring SDK for Infrix smart contracts, written
in Verus: every function under `src/` carries a `requires`/`ensures` contract
that Verus proves.

- `src/` — the verified library: the 256-bit integer, hashes, Accumulate
  addresses, error codes, the byte codec, Keccak-256 and ABI helpers, events,
  the governance model, the schema and shape builders used by the contract
  macros and their dispatch table, and the SDK (storage, environment,
  events, cryptography, calls, L0 operations, utilities, the native test
  harness) run against an explicit native host. SHA-256, SHA3-256,
  BLAKE2b-256 and RIPEMD-160 come from the RustCrypto crates behind
  trusted wrappers; Keccak-256 is the library's own verified sponge.
- `tests/` — tests of the library on concrete values.
- `app/` — the unverified edge: the `syn`/`quote` front end of the contract
  macros, `Display` wrappers, logging and reverting, and the records and host
  queries that carry floating-point values.

Laws stated as public proof functions include the codec round trips, the
storage read-after-write and delete laws, the distinctness of `StorageMap`
keys, reentrancy-guard exclusion, fresh snapshot ids and snapshot/restore of the
test context, the error-code round trip, the split of an `acc://` URL into
identity and path, the distinctness of the intent goal types' wire names and
the gas that storage overrides add to a simulation.
