# did

A registry of decentralized identifiers (DIDs), verified with Verus.

A DID subject controls a set of keys, each playing a role: authentication,
key agreement, attestation (assertion) or delegation. The registry creates,
updates and deletes DIDs, and authorizes other calls on a DID's behalf, each
time after checking the operation's transaction counter (its nonce) and its
signature with the key of the right role. DIDs may publish an endpoint URL,
which is validated (HTTP(S), FTP(S) or IPFS) when it is built.

## Layout

- `src/` — the verified library.
  - `pallet.rs`: the registry and its operations, specified by spec
    functions that give the outcome and the registry after it.
  - `details.rs`: the details of one DID, their abstract model `DidState`
    and its well-formedness, and the transformations operations apply.
  - `operations.rs`: the signed operations and their SCALE encodings.
  - `keys.rs`, `url.rs`, `errors.rs`: keys, signatures, URLs, errors.
  - `key_set.rs`, `bytes.rs`, `encoding.rs`: ordered sets and maps keyed by
    32-byte identifiers, and the SCALE encoding of the values involved.
  - `crypto.rs`: the trusted calls into `sp-core` (Ed25519 and Sr25519
    verification), `sp-runtime` (BLAKE2b-256) and `core::str::from_utf8`.
  - `laws.rs`: properties that span operations (replay protection, refused
    operations change nothing, key rotation rules, ...).
  - `weights.rs`: the weights of the delegation operations.
- `tests/` — tests against the compiled library, with real signatures and
  cross-checks of the encodings against `parity-scale-codec`.
- `app/` — the runtime side: SCALE-codable copies of the types, the
  `sp_runtime` signature traits on them, and a dispatcher for extrinsics.
